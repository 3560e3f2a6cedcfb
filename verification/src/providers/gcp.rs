//! Google Cloud Platform: a provider whose operations are not offered yet.

use vstd::prelude::*;
use crate::platform::{CreateServerConfig, Error, OsImage, ProvisionedServer, Region};
use crate::text::owned;

verus! {

/// The message of every operation of this provider.
pub open spec fn gcp_unavailable() -> Seq<char> {
    "GCP provider not yet implemented"@
}

fn unavailable() -> (e: Error)
    ensures
        e matches Error::Provider(m) && m@ == gcp_unavailable(),
{
    Error::Provider(owned("GCP provider not yet implemented"))
}

/// The provider's account; its operations are not offered yet.
pub struct GcpProvider {
    pub project_id: String,
    pub credentials_json: String,
}

impl GcpProvider {
    pub fn new(project_id: String, credentials_json: String) -> (r: Self)
        ensures
            r.project_id == project_id,
            r.credentials_json == credentials_json,
    {
        GcpProvider { project_id: project_id, credentials_json: credentials_json }
    }

    /// The provider's name.
    pub fn name(&self) -> (r: &'static str)
        ensures
            r@ == "gcp"@,
    {
        "gcp"
    }

    /// Not offered yet: always the error that says so.
    pub fn list_regions(&self) -> (r: Result<Vec<Region>, Error>)
        ensures
            r matches Err(Error::Provider(m)) && m@ == gcp_unavailable(),
    {
        Err(unavailable())
    }

    /// Not offered yet: always the error that says so.
    pub fn list_images(&self, _region: &str) -> (r: Result<Vec<OsImage>, Error>)
        ensures
            r matches Err(Error::Provider(m)) && m@ == gcp_unavailable(),
    {
        Err(unavailable())
    }

    /// Not offered yet: always the error that says so.
    pub fn create_server(&self, _config: CreateServerConfig) -> (r: Result<ProvisionedServer, Error>)
        ensures
            r matches Err(Error::Provider(m)) && m@ == gcp_unavailable(),
    {
        Err(unavailable())
    }

    /// Not offered yet: always the error that says so.
    pub fn get_server(&self, provider_id: &str) -> (r: Result<ProvisionedServer, Error>)
        ensures
            r matches Err(Error::Provider(m)) && m@ == gcp_unavailable(),
    {
        Err(unavailable())
    }

    /// Not offered yet: always the error that says so.
    pub fn delete_server(&self, provider_id: &str) -> (r: Result<(), Error>)
        ensures
            r matches Err(Error::Provider(m)) && m@ == gcp_unavailable(),
    {
        Err(unavailable())
    }

    /// Not offered yet: always the error that says so.
    pub fn reboot_server(&self, provider_id: &str) -> (r: Result<(), Error>)
        ensures
            r matches Err(Error::Provider(m)) && m@ == gcp_unavailable(),
    {
        Err(unavailable())
    }
}

} // verus!
