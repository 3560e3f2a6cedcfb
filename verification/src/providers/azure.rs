//! Microsoft Azure: a provider whose operations are not offered yet.

use vstd::prelude::*;
use crate::platform::{CreateServerConfig, Error, OsImage, ProvisionedServer, Region};
use crate::text::owned;

verus! {

/// The message of every operation of this provider.
pub open spec fn azure_unavailable() -> Seq<char> {
    "Azure provider not yet implemented"@
}

fn unavailable() -> (e: Error)
    ensures
        e matches Error::Provider(m) && m@ == azure_unavailable(),
{
    Error::Provider(owned("Azure provider not yet implemented"))
}

/// The provider's account; its operations are not offered yet.
pub struct AzureProvider {
    pub subscription_id: String,
    pub tenant_id: String,
    pub client_id: String,
    pub client_secret: String,
}

impl AzureProvider {
    pub fn new(subscription_id: String, tenant_id: String, client_id: String, client_secret: String) -> (r: Self)
        ensures
            r.subscription_id == subscription_id,
            r.tenant_id == tenant_id,
            r.client_id == client_id,
            r.client_secret == client_secret,
    {
        AzureProvider { subscription_id: subscription_id, tenant_id: tenant_id, client_id: client_id, client_secret: client_secret }
    }

    /// The provider's name.
    pub fn name(&self) -> (r: &'static str)
        ensures
            r@ == "azure"@,
    {
        "azure"
    }

    /// Not offered yet: always the error that says so.
    pub fn list_regions(&self) -> (r: Result<Vec<Region>, Error>)
        ensures
            r matches Err(Error::Provider(m)) && m@ == azure_unavailable(),
    {
        Err(unavailable())
    }

    /// Not offered yet: always the error that says so.
    pub fn list_images(&self, _region: &str) -> (r: Result<Vec<OsImage>, Error>)
        ensures
            r matches Err(Error::Provider(m)) && m@ == azure_unavailable(),
    {
        Err(unavailable())
    }

    /// Not offered yet: always the error that says so.
    pub fn create_server(&self, _config: CreateServerConfig) -> (r: Result<ProvisionedServer, Error>)
        ensures
            r matches Err(Error::Provider(m)) && m@ == azure_unavailable(),
    {
        Err(unavailable())
    }

    /// Not offered yet: always the error that says so.
    pub fn get_server(&self, provider_id: &str) -> (r: Result<ProvisionedServer, Error>)
        ensures
            r matches Err(Error::Provider(m)) && m@ == azure_unavailable(),
    {
        Err(unavailable())
    }

    /// Not offered yet: always the error that says so.
    pub fn delete_server(&self, provider_id: &str) -> (r: Result<(), Error>)
        ensures
            r matches Err(Error::Provider(m)) && m@ == azure_unavailable(),
    {
        Err(unavailable())
    }

    /// Not offered yet: always the error that says so.
    pub fn reboot_server(&self, provider_id: &str) -> (r: Result<(), Error>)
        ensures
            r matches Err(Error::Provider(m)) && m@ == azure_unavailable(),
    {
        Err(unavailable())
    }
}

} // verus!
