//! The provider's identity and its handle on the evaluation engine.
//!
//! The provider owns a ConfigCat client and an identity label. The client
//! is the external evaluation engine collaborator: the adapter never looks
//! inside it, it only hands it on to the asynchronous evaluation call that
//! lives outside the verified library.

use vstd::prelude::*;

use crate::model::ProviderMetadata;

verus! {

#[verifier::external_type_specification]
#[verifier::external_body]
/// The ConfigCat SDK client that owns all flag-evaluation logic.
pub struct ExClient(configcat::Client);

/// The ConfigCat OpenFeature provider: a ConfigCat client plus the
/// provider's identity metadata.
pub struct ConfigCatProvider {
    /// The underlying ConfigCat client.
    pub client: configcat::Client,
    /// The provider's identity metadata.
    pub provider_metadata: ProviderMetadata,
}

impl ConfigCatProvider {
    /// Wrap a configured ConfigCat client as an OpenFeature provider.
    pub fn new(client: configcat::Client) -> (r: Self)
        ensures
            r.provider_metadata.name@ == "ConfigCatProvider"@,
            r.client == client,
    {
        ConfigCatProvider {
            client,
            provider_metadata: ProviderMetadata { name: String::from_str("ConfigCatProvider") },
        }
    }

    /// The provider's identity metadata.
    pub fn metadata(&self) -> (r: &ProviderMetadata)
        ensures
            r == &self.provider_metadata,
    {
        &self.provider_metadata
    }
}

} // verus!
