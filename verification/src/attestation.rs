//! The two ends of remote attestation between a client and a server.

use crate::config::AttestationProviderConfig;
use vstd::prelude::*;

verus! {

/// The client's end: it initiates remote attestation with the server.
#[derive(Debug)]
pub struct ClientAttestationProvider {
    config: AttestationProviderConfig,
}

impl ClientAttestationProvider {
    /// The configuration the provider was made with.
    pub closed spec fn spec_config(&self) -> AttestationProviderConfig {
        self.config
    }

    pub fn new(config: AttestationProviderConfig) -> (provider: Self)
        ensures
            provider.spec_config() == config,
    {
        Self { config }
    }

    #[verifier::when_used_as_spec(spec_config)]
    pub fn config(&self) -> (config: AttestationProviderConfig)
        ensures
            config == self.spec_config(),
    {
        self.config
    }
}

/// The server's end: it answers the client's attestation request.
#[derive(Debug)]
pub struct ServerAttestationProvider {
    config: AttestationProviderConfig,
}

impl ServerAttestationProvider {
    /// The configuration the provider was made with.
    pub closed spec fn spec_config(&self) -> AttestationProviderConfig {
        self.config
    }

    pub fn new(config: AttestationProviderConfig) -> (provider: Self)
        ensures
            provider.spec_config() == config,
    {
        Self { config }
    }

    #[verifier::when_used_as_spec(spec_config)]
    pub fn config(&self) -> (config: AttestationProviderConfig)
        ensures
            config == self.spec_config(),
    {
        self.config
    }
}

} // verus!
