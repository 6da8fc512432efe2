//! The platform capability surface of the trust-domain backend: what the
//! boot driver may ask of the platform, and what this backend answers.

use crate::context::{shared_bit_index, tdx_shared_mask, BootContext, FatalBootError};
use crate::page::PageDescriptor;
use crate::paging::{pt_set_shared_bit, walk, with_page_state};
use crate::serial::write_str;
use crate::space::PageTableSpace;
use vstd::prelude::*;
use vstd::string::StringSliceAdditionalSpecFns;

verus! {

/// To whom a page is visible.
#[derive(Clone, Copy, Debug, PartialEq, Eq, Structural)]
pub enum PageAssignment {
    /// Visible to the host.
    Shared,
    /// Visible to the trust domain alone.
    Private,
}

/// How the memory behind a new mapping is to be treated.
#[derive(Clone, Copy, Debug, PartialEq, Eq, Structural)]
pub enum PageEncryption {
    Encrypted,
    Unencrypted,
}

/// The confidential-computing technology that a platform runs on.
#[derive(Clone, Copy, Debug, PartialEq, Eq, Structural)]
pub enum PlatformTag {
    Unspecified,
    AmdSevSnp,
    IntelTdx,
    Unprotected,
}

/// An attestation report as the hardware issues it.
#[derive(Debug)]
pub struct AttestationReport {
    pub bytes: Vec<u8>,
}

/// The trust-domain backend.
#[derive(Clone, Copy, Debug)]
pub struct Tdx {
    context: BootContext,
}

/// What the early-initialization hook writes to the diagnostic line.
pub open spec fn early_trace() -> Seq<u8> {
    "early_initialize_platform".spec_bytes() + seq![0x0au8]
        + "early_initialize_platform completed".spec_bytes() + seq![0x0au8]
}

impl Tdx {
    /// The boot context that the backend works under.
    pub closed spec fn spec_context(self) -> BootContext {
        self.context
    }

    /// The backend under a boot context.
    pub fn new(context: BootContext) -> (platform: Tdx)
        ensures
            platform.spec_context() == context,
    {
        Tdx { context }
    }

    #[verifier::when_used_as_spec(spec_context)]
    pub fn context(self) -> (context: BootContext)
        ensures
            context == self.spec_context(),
    {
        self.context
    }

    /// Runs before logging is there, and before the address width has been
    /// looked at: traces its start and its end on the diagnostic line.
    pub fn early_initialize_platform(out: &mut Vec<u8>)
        ensures
            final(out)@ == old(out)@ + early_trace(),
    {
        write_str(out, "early_initialize_platform");
        write_str(out, "early_initialize_platform completed");
        assert(out@ =~= old(out)@ + early_trace());
    }

    /// Makes `page` shared with the host or private to the trust domain, in
    /// the hierarchy rooted at `root`: the entry that maps the page has its
    /// shared indicator set or cleared, and nothing else changes.
    pub fn change_page_state(
        &self,
        pt: &mut PageTableSpace,
        root: u64,
        page: PageDescriptor,
        attr: PageAssignment,
    )
        requires
            old(pt).wf(),
            walk(old(pt)@, root, page).is_ok(),
        ensures
            final(pt).wf(),
            final(pt)@ == with_page_state(
                old(pt)@,
                root,
                page,
                self.context().gpaw(),
                attr == PageAssignment::Shared,
            ),
    {
        let shared: bool = match attr {
            PageAssignment::Shared => true,
            PageAssignment::Private => false,
        };
        pt_set_shared_bit(pt, root, &page, shared, &self.context);
    }

    /// The bits to join to the address of a new mapping: none for encrypted
    /// memory, the shared bit for unencrypted memory.
    pub fn page_table_mask(&self, enc: PageEncryption) -> (mask: u64)
        ensures
            enc == PageEncryption::Encrypted ==> mask == 0,
            enc == PageEncryption::Unencrypted ==> mask == 1u64 << (shared_bit_index(
                self.context().gpaw(),
            ) as u64),
    {
        match enc {
            PageEncryption::Encrypted => 0,
            PageEncryption::Unencrypted => tdx_shared_mask(&self.context),
        }
    }

    /// The indicator bit of this platform. It is reported whatever the
    /// guest: there is no mode without it.
    pub fn encrypted(&self) -> (mask: u64)
        ensures
            mask == 1u64 << (shared_bit_index(self.context().gpaw()) as u64),
    {
        tdx_shared_mask(&self.context)
    }

    /// Teardown before the next boot stage. Not provided by this backend.
    pub fn deinit_platform(&self) -> (r: Result<(), FatalBootError>)
        ensures
            r == Err::<(), FatalBootError>(FatalBootError::UnimplementedCapability),
    {
        Err(FatalBootError::UnimplementedCapability)
    }

    /// Fills the boot parameters for the next stage. Not provided by this
    /// backend: the page is left as it is.
    pub fn populate_zero_page(&self, zero_page: &mut Vec<u8>) -> (r: Result<(), FatalBootError>)
        ensures
            r == Err::<(), FatalBootError>(FatalBootError::UnimplementedCapability),
            final(zero_page)@ == old(zero_page)@,
    {
        Err(FatalBootError::UnimplementedCapability)
    }

    /// An attestation report over 64 bytes of caller data. Not provided by
    /// this backend.
    pub fn get_attestation(&self, report_data: [u8; 64]) -> (r: Result<
        AttestationReport,
        FatalBootError,
    >)
        ensures
            r == Err::<AttestationReport, FatalBootError>(FatalBootError::UnimplementedCapability),
    {
        Err(FatalBootError::UnimplementedCapability)
    }

    /// A key derived from the platform's identity. Not provided by this
    /// backend.
    pub fn get_derived_key(&self) -> (r: Result<[u8; 32], FatalBootError>)
        ensures
            r == Err::<[u8; 32], FatalBootError>(FatalBootError::UnimplementedCapability),
    {
        Err(FatalBootError::UnimplementedCapability)
    }

    /// Has the hardware accept a page again after its state changed. Not
    /// provided by this backend.
    pub fn revalidate_page(&self, page: PageDescriptor) -> (r: Result<(), FatalBootError>)
        ensures
            r == Err::<(), FatalBootError>(FatalBootError::UnimplementedCapability),
    {
        Err(FatalBootError::UnimplementedCapability)
    }

    /// The technology the platform runs on. Not provided by this backend.
    pub fn tee_platform(&self) -> (r: Result<PlatformTag, FatalBootError>)
        ensures
            r == Err::<PlatformTag, FatalBootError>(FatalBootError::UnimplementedCapability),
    {
        Err(FatalBootError::UnimplementedCapability)
    }
}

} // verus!
