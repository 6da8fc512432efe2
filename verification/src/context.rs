//! The values that the bootstrap stage fixes before any other code runs, and
//! the fatal conditions of early boot.

use vstd::prelude::*;

verus! {

/// The conditions that end the boot sequence. None of them is recoverable.
#[derive(Clone, Copy, Debug, PartialEq, Eq, Structural)]
pub enum FatalBootError {
    /// The guest-physical address width is neither 48 nor 52.
    InvalidAddressWidth,
    /// A port, memory-mapped, register or identification access was rejected.
    HardwarePrimitiveFailed,
    /// The platform does not provide the requested capability yet.
    UnimplementedCapability,
}

/// The address widths that the hardware can be configured with.
pub open spec fn valid_address_width(width: u32) -> bool {
    width == 48 || width == 52
}

/// The index of the bit that marks a page as shared with the host, for a
/// given address width: the topmost bit of the guest-physical address.
pub open spec fn shared_bit_index(width: u32) -> int {
    width - 1
}

/// The shared indicator as a mask over a 64-bit page-table entry: one,
/// shifted left by the index of the shared bit.
pub open spec fn shared_bit_mask(width: u32) -> u64 {
    1u64 << (shared_bit_index(width) as u64)
}

/// The two masks there are: bit 47 for a width of 48, bit 51 for a width
/// of 52.
pub proof fn lemma_shared_bit_mask_values()
    ensures
        shared_bit_mask(48) == 0x0000_8000_0000_0000u64,
        shared_bit_mask(52) == 0x0008_0000_0000_0000u64,
{
    assert(1u64 << 47u64 == 0x0000_8000_0000_0000u64) by (bit_vector);
    assert(1u64 << 51u64 == 0x0008_0000_0000_0000u64) by (bit_vector);
}

/// The process-wide values of early boot. A context only exists for a valid
/// address width, so everything that takes one may rely on it.
#[derive(Clone, Copy, Debug)]
pub struct BootContext {
    gpaw: u32,
    ap_in_64bit_count: u32,
}

impl BootContext {
    #[verifier::type_invariant]
    spec fn well_formed(self) -> bool {
        valid_address_width(self.gpaw)
    }

    /// The guest-physical address width.
    pub closed spec fn spec_gpaw(self) -> u32 {
        self.gpaw
    }

    /// The number of application processors that had reached 64-bit mode
    /// when the context was taken.
    pub closed spec fn spec_ap_in_64bit_count(self) -> u32 {
        self.ap_in_64bit_count
    }

    /// Builds the context, or refuses an address width that the addressing
    /// model does not know.
    pub fn new(gpaw: u32, ap_in_64bit_count: u32) -> (r: Result<BootContext, FatalBootError>)
        ensures
            valid_address_width(gpaw) ==> (r matches Ok(context) && context.gpaw() == gpaw
                && context.ap_in_64bit_count() == ap_in_64bit_count),
            !valid_address_width(gpaw) ==> r == Err::<BootContext, FatalBootError>(
                FatalBootError::InvalidAddressWidth,
            ),
    {
        if gpaw == 48 || gpaw == 52 {
            Ok(BootContext { gpaw, ap_in_64bit_count })
        } else {
            Err(FatalBootError::InvalidAddressWidth)
        }
    }

    #[verifier::when_used_as_spec(spec_gpaw)]
    pub fn gpaw(self) -> (width: u32)
        ensures
            width == self.spec_gpaw(),
            valid_address_width(width),
    {
        proof {
            use_type_invariant(self);
        }
        self.gpaw
    }

    #[verifier::when_used_as_spec(spec_ap_in_64bit_count)]
    pub fn ap_in_64bit_count(self) -> (count: u32)
        ensures
            count == self.spec_ap_in_64bit_count(),
    {
        self.ap_in_64bit_count
    }
}

/// The index of the shared bit under this context.
pub fn get_tdx_shared_bit(context: &BootContext) -> (bit: usize)
    ensures
        bit == shared_bit_index(context.gpaw()),
        bit == 47 || bit == 51,
{
    let width: u32 = context.gpaw();
    (width - 1) as usize
}

/// The shared bit under this context as a mask.
pub fn tdx_shared_mask(context: &BootContext) -> (mask: u64)
    ensures
        mask == shared_bit_mask(context.gpaw()),
        mask == 0x0000_8000_0000_0000u64 || mask == 0x0008_0000_0000_0000u64,
{
    let bit: usize = get_tdx_shared_bit(context);
    proof {
        lemma_shared_bit_mask_values();
    }
    1u64 << (bit as u64)
}

} // verus!
