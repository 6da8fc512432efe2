//! Early-boot support for a trust-domain guest: the boot context, the
//! page-encryption-state engine over the guest's own page tables, the
//! diagnostic serial line, the platform capability surface and the boot
//! sequence. The two ends of remote attestation are declared beside them.

pub mod attestation;
pub mod boot;
pub mod config;
pub mod context;
pub mod entry;
pub mod hal;
pub mod page;
pub mod paging;
pub mod serial;
pub mod space;
pub mod tables;

pub use attestation::{ClientAttestationProvider, ServerAttestationProvider};
pub use boot::{
    boot_action, boot_step, write_banner, write_trust_domain_report, BootAction, BootEvent,
    BootState, TrustDomainInfo,
};
pub use config::{AttestationProviderConfig, AttestationType};
pub use context::{get_tdx_shared_bit, tdx_shared_mask, BootContext, FatalBootError};
pub use entry::pt_entry_set_shared_bit;
pub use hal::{AttestationReport, PageAssignment, PageEncryption, PlatformTag, Tdx};
pub use page::{PageDescriptor, PageSize};
pub use paging::{locate_leaf, pt_set_shared_bit, LeafSlot};
pub use serial::{
    debug_u32_variable, debug_u64_variable, init_tdx_serial_port, write_byte_hex,
    write_single_hex, write_str, write_u32, write_u64, write_u8_to_serial, PortAccess,
};
pub use space::PageTableSpace;
