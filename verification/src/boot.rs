//! The boot sequence: the states it passes through, the work that leaves
//! each state, and what it writes to the diagnostic line.
//!
//! The work itself (port accesses, the query of the trust domain, the
//! hand-off) is the caller's. This module decides what comes next.

use crate::context::{valid_address_width, FatalBootError};
use crate::serial::{debug_u32_variable, debug_u64_variable, hex_u32, hex_u64, labelled_line, write_str};
use vstd::prelude::*;
use vstd::string::StringSliceAdditionalSpecFns;

verus! {

/// What the hardware reports of the trust domain.
#[derive(Clone, Copy, Debug, PartialEq, Eq, Structural)]
pub struct TrustDomainInfo {
    pub gpa_width: u64,
    pub attributes: u64,
    pub max_vcpus: u32,
    pub num_vcpus: u32,
}

/// The states of the boot sequence.
#[derive(Clone, Copy, Debug, PartialEq, Eq, Structural)]
pub enum BootState {
    Reset,
    SerialReady,
    EarlyPlatformInit,
    TrustDomainInfoQueried,
    InvariantChecked,
    PlatformInitialized,
    HandedOff,
    /// The sequence stopped for good.
    Halted { reason: FatalBootError },
}

/// How the work of a state ended.
#[derive(Clone, Copy, Debug, PartialEq, Eq, Structural)]
pub enum BootEvent {
    /// The work was done.
    Completed,
    /// A hardware primitive was rejected.
    PrimitiveFailed,
}

/// The work that leaves a state.
#[derive(Clone, Copy, Debug, PartialEq, Eq, Structural)]
pub enum BootAction {
    /// Perform the register writes that configure the serial device.
    ConfigureSerial,
    /// Run the platform's early-initialization hook.
    EarlyInitializePlatform,
    /// Query the trust-domain info and write it to the diagnostic line.
    QueryTrustDomainInfo,
    /// Nothing outside: the address width is checked on the next step.
    CheckAddressWidth,
    /// Run the platform's initialization hook with the memory map.
    InitializePlatform,
    /// Transfer control to the boot driver.
    HandOff,
    /// Nothing is left to do.
    Done,
    /// Stop the processor.
    Halt,
}

/// The state that follows `state` once its work has ended with `event`.
/// The address width is checked on leaving `TrustDomainInfoQueried`; a
/// rejected primitive halts from any state that still has work.
pub open spec fn next_state(state: BootState, gpaw: u32, event: BootEvent) -> BootState {
    match state {
        BootState::HandedOff => BootState::HandedOff,
        BootState::Halted { reason } => BootState::Halted { reason },
        _ => if event == BootEvent::PrimitiveFailed {
            BootState::Halted { reason: FatalBootError::HardwarePrimitiveFailed }
        } else {
            match state {
                BootState::Reset => BootState::SerialReady,
                BootState::SerialReady => BootState::EarlyPlatformInit,
                BootState::EarlyPlatformInit => BootState::TrustDomainInfoQueried,
                BootState::TrustDomainInfoQueried => if valid_address_width(gpaw) {
                    BootState::InvariantChecked
                } else {
                    BootState::Halted { reason: FatalBootError::InvalidAddressWidth }
                },
                BootState::InvariantChecked => BootState::PlatformInitialized,
                _ => BootState::HandedOff,
            }
        },
    }
}

/// The work that leaves `state`.
pub open spec fn pending_action(state: BootState) -> BootAction {
    match state {
        BootState::Reset => BootAction::ConfigureSerial,
        BootState::SerialReady => BootAction::EarlyInitializePlatform,
        BootState::EarlyPlatformInit => BootAction::QueryTrustDomainInfo,
        BootState::TrustDomainInfoQueried => BootAction::CheckAddressWidth,
        BootState::InvariantChecked => BootAction::InitializePlatform,
        BootState::PlatformInitialized => BootAction::HandOff,
        BootState::HandedOff => BootAction::Done,
        BootState::Halted { reason } => BootAction::Halt,
    }
}

/// The state after a run of events, each the end of the work of the state
/// reached before it.
pub open spec fn run(state: BootState, gpaw: u32, events: Seq<BootEvent>) -> BootState
    decreases events.len(),
{
    if events.len() == 0 {
        state
    } else {
        next_state(run(state, gpaw, events.drop_last()), gpaw, events.last())
    }
}

/// Whether the platform has been, or is about to be, initialized in `state`.
pub open spec fn past_width_check(state: BootState) -> bool {
    state == BootState::InvariantChecked || state == BootState::PlatformInitialized || state
        == BootState::HandedOff
}

/// The work to start the sequence with, or to take up again in `state`.
pub fn boot_action(state: BootState) -> (action: BootAction)
    ensures
        action == pending_action(state),
{
    match state {
        BootState::Reset => BootAction::ConfigureSerial,
        BootState::SerialReady => BootAction::EarlyInitializePlatform,
        BootState::EarlyPlatformInit => BootAction::QueryTrustDomainInfo,
        BootState::TrustDomainInfoQueried => BootAction::CheckAddressWidth,
        BootState::InvariantChecked => BootAction::InitializePlatform,
        BootState::PlatformInitialized => BootAction::HandOff,
        BootState::HandedOff => BootAction::Done,
        BootState::Halted { reason } => BootAction::Halt,
    }
}

/// One step of the boot sequence: from the state whose work has ended with
/// `event` to the next state, together with the work that leaves that one.
pub fn boot_step(state: BootState, gpaw: u32, event: BootEvent) -> (step: (BootState, BootAction))
    ensures
        step.0 == next_state(state, gpaw, event),
        step.1 == pending_action(step.0),
{
    let failed: bool = match event {
        BootEvent::Completed => false,
        BootEvent::PrimitiveFailed => true,
    };
    let halted = BootState::Halted { reason: FatalBootError::HardwarePrimitiveFailed };
    let next = match state {
        BootState::HandedOff => BootState::HandedOff,
        BootState::Halted { reason } => BootState::Halted { reason },
        BootState::Reset => if failed {
            halted
        } else {
            BootState::SerialReady
        },
        BootState::SerialReady => if failed {
            halted
        } else {
            BootState::EarlyPlatformInit
        },
        BootState::EarlyPlatformInit => if failed {
            halted
        } else {
            BootState::TrustDomainInfoQueried
        },
        BootState::TrustDomainInfoQueried => if failed {
            halted
        } else if gpaw == 48 || gpaw == 52 {
            BootState::InvariantChecked
        } else {
            BootState::Halted { reason: FatalBootError::InvalidAddressWidth }
        },
        BootState::InvariantChecked => if failed {
            halted
        } else {
            BootState::PlatformInitialized
        },
        BootState::PlatformInitialized => if failed {
            halted
        } else {
            BootState::HandedOff
        },
    };
    (next, boot_action(next))
}

/// With an address width other than 48 and 52 the sequence never gets past
/// the width check, whatever happens: the platform is not initialized and
/// control is not handed off.
pub proof fn lemma_invalid_width_never_initializes(gpaw: u32, events: Seq<BootEvent>)
    requires
        !valid_address_width(gpaw),
    ensures
        !past_width_check(run(BootState::Reset, gpaw, events)),
    decreases events.len(),
{
    if events.len() > 0 {
        lemma_invalid_width_never_initializes(gpaw, events.drop_last());
    }
}

/// With a valid address width and no rejected primitive, six steps lead
/// from reset to the hand-off.
pub proof fn lemma_valid_width_hands_off(gpaw: u32)
    requires
        valid_address_width(gpaw),
    ensures
        run(BootState::Reset, gpaw, Seq::new(6, |i: int| BootEvent::Completed))
            == BootState::HandedOff,
{
    let events = Seq::new(6, |i: int| BootEvent::Completed);
    let e5 = events.drop_last();
    let e4 = e5.drop_last();
    let e3 = e4.drop_last();
    let e2 = e3.drop_last();
    let e1 = e2.drop_last();
    let e0 = e1.drop_last();
    assert(e0.len() == 0);
    assert(run(BootState::Reset, gpaw, e0) == BootState::Reset);
    assert(run(BootState::Reset, gpaw, e1) == BootState::SerialReady);
    assert(run(BootState::Reset, gpaw, e2) == BootState::EarlyPlatformInit);
    assert(run(BootState::Reset, gpaw, e3) == BootState::TrustDomainInfoQueried);
    assert(run(BootState::Reset, gpaw, e4) == BootState::InvariantChecked);
    assert(run(BootState::Reset, gpaw, e5) == BootState::PlatformInitialized);
}

/// The first lines on the diagnostic line: the greeting and the address
/// width.
pub open spec fn banner(gpaw: u32) -> Seq<u8> {
    "Hello from stage0_bin_tdx!".spec_bytes() + seq![0x0au8] + labelled_line(
        "GPAW".spec_bytes(),
        hex_u32(gpaw),
    )
}

/// The lines that report the trust domain and the processors that have
/// reached 64-bit mode.
pub open spec fn trust_domain_report(info: TrustDomainInfo, ap_in_64bit_count: u32) -> Seq<u8> {
    labelled_line("td_info.gpa_width".spec_bytes(), hex_u64(info.gpa_width)) + labelled_line(
        "td_info.attributes".spec_bytes(),
        hex_u64(info.attributes),
    ) + labelled_line("td_info.max_vcpus".spec_bytes(), hex_u32(info.max_vcpus)) + labelled_line(
        "td_info.num_vcpus".spec_bytes(),
        hex_u32(info.num_vcpus),
    ) + labelled_line("AP_IN_64BIT_COUNT".spec_bytes(), hex_u32(ap_in_64bit_count))
}

/// Writes the greeting and the address width.
pub fn write_banner(out: &mut Vec<u8>, gpaw: u32)
    ensures
        final(out)@ == old(out)@ + banner(gpaw),
{
    write_str(out, "Hello from stage0_bin_tdx!");
    debug_u32_variable(out, "GPAW", gpaw);
    assert(out@ =~= old(out)@ + banner(gpaw));
}

/// Writes what the hardware reports of the trust domain, and the count of
/// processors in 64-bit mode.
pub fn write_trust_domain_report(out: &mut Vec<u8>, info: &TrustDomainInfo, ap_in_64bit_count: u32)
    ensures
        final(out)@ == old(out)@ + trust_domain_report(*info, ap_in_64bit_count),
{
    debug_u64_variable(out, "td_info.gpa_width", info.gpa_width);
    debug_u64_variable(out, "td_info.attributes", info.attributes);
    debug_u32_variable(out, "td_info.max_vcpus", info.max_vcpus);
    debug_u32_variable(out, "td_info.num_vcpus", info.num_vcpus);
    debug_u32_variable(out, "AP_IN_64BIT_COUNT", ap_in_64bit_count);
    assert(out@ =~= old(out)@ + trust_domain_report(*info, ap_in_64bit_count));
}

} // verus!
