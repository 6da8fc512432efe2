//! How an attestation provider is configured.

use vstd::prelude::*;

verus! {

/// Which of the two parties attests itself to the other. For the client,
/// "self" is the client and "peer" the server; for the server, the reverse.
#[derive(Clone, Copy, Debug, PartialEq, Eq, Structural)]
pub enum AttestationType {
    /// Both parties attest each other.
    Bidirectional,
    /// "Self" attests itself to the "peer".
    SelfUnidirectional,
    /// "Peer" attests itself to "self".
    PeerUnidirectional,
    /// No attestation.
    Unattested,
}

/// The configuration of an attestation provider.
#[derive(Clone, Copy, Debug, PartialEq, Eq, Structural)]
pub struct AttestationProviderConfig {
    pub attestation_type: AttestationType,
}

} // verus!
