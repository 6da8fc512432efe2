use stage0_bin_tdx::{
    boot_action, boot_step, write_banner, write_trust_domain_report, BootAction, BootEvent,
    BootState, FatalBootError, TrustDomainInfo,
};

fn run(gpaw: u32, events: &[BootEvent]) -> Vec<(BootState, BootAction)> {
    let mut state = BootState::Reset;
    let mut trace: Vec<(BootState, BootAction)> = vec![(state, boot_action(state))];
    for event in events {
        let step = boot_step(state, gpaw, *event);
        state = step.0;
        trace.push(step);
    }
    trace
}

#[test]
fn boot_runs_from_reset_to_hand_off() {
    for gpaw in [48u32, 52] {
        let trace = run(gpaw, &[BootEvent::Completed; 7]);
        assert_eq!(
            trace,
            vec![
                (BootState::Reset, BootAction::ConfigureSerial),
                (BootState::SerialReady, BootAction::EarlyInitializePlatform),
                (BootState::EarlyPlatformInit, BootAction::QueryTrustDomainInfo),
                (BootState::TrustDomainInfoQueried, BootAction::CheckAddressWidth),
                (BootState::InvariantChecked, BootAction::InitializePlatform),
                (BootState::PlatformInitialized, BootAction::HandOff),
                (BootState::HandedOff, BootAction::Done),
                (BootState::HandedOff, BootAction::Done),
            ]
        );
    }
}

#[test]
fn invalid_width_halts_before_platform_initialization() {
    let halted = BootState::Halted { reason: FatalBootError::InvalidAddressWidth };
    let trace = run(60, &[BootEvent::Completed; 8]);
    assert_eq!(
        trace[..4].to_vec(),
        vec![
            (BootState::Reset, BootAction::ConfigureSerial),
            (BootState::SerialReady, BootAction::EarlyInitializePlatform),
            (BootState::EarlyPlatformInit, BootAction::QueryTrustDomainInfo),
            (BootState::TrustDomainInfoQueried, BootAction::CheckAddressWidth),
        ]
    );
    for step in &trace[4..] {
        assert_eq!(*step, (halted, BootAction::Halt));
    }
    for (state, action) in &trace {
        assert_ne!(*state, BootState::InvariantChecked);
        assert_ne!(*state, BootState::PlatformInitialized);
        assert_ne!(*state, BootState::HandedOff);
        assert_ne!(*action, BootAction::InitializePlatform);
        assert_ne!(*action, BootAction::HandOff);
    }
}

#[test]
fn rejected_primitive_halts_from_every_working_state() {
    let halted = BootState::Halted { reason: FatalBootError::HardwarePrimitiveFailed };
    for state in [
        BootState::Reset,
        BootState::SerialReady,
        BootState::EarlyPlatformInit,
        BootState::TrustDomainInfoQueried,
        BootState::InvariantChecked,
        BootState::PlatformInitialized,
    ] {
        assert_eq!(boot_step(state, 48, BootEvent::PrimitiveFailed), (halted, BootAction::Halt));
    }
}

#[test]
fn final_states_stay() {
    for event in [BootEvent::Completed, BootEvent::PrimitiveFailed] {
        assert_eq!(
            boot_step(BootState::HandedOff, 52, event),
            (BootState::HandedOff, BootAction::Done)
        );
        for reason in [
            FatalBootError::InvalidAddressWidth,
            FatalBootError::HardwarePrimitiveFailed,
            FatalBootError::UnimplementedCapability,
        ] {
            let halted = BootState::Halted { reason };
            assert_eq!(boot_step(halted, 52, event), (halted, BootAction::Halt));
        }
    }
}

#[test]
fn banner_greets_and_shows_the_width() {
    let mut out: Vec<u8> = Vec::new();
    write_banner(&mut out, 48);
    assert_eq!(out, b"Hello from stage0_bin_tdx!\nGPAW: 00000030\n".to_vec());
}

#[test]
fn trust_domain_report_lines() {
    let info = TrustDomainInfo {
        gpa_width: 52,
        attributes: 0x0000_0000_1000_0000,
        max_vcpus: 8,
        num_vcpus: 4,
    };
    let mut out: Vec<u8> = Vec::new();
    write_trust_domain_report(&mut out, &info, 3);
    let expected = "td_info.gpa_width: 0000000000000034\n\
                    td_info.attributes: 0000000010000000\n\
                    td_info.max_vcpus: 00000008\n\
                    td_info.num_vcpus: 00000004\n\
                    AP_IN_64BIT_COUNT: 00000003\n";
    assert_eq!(out, expected.as_bytes().to_vec());
}
