//! The choice of a provider account from the configuration.

use vstd::prelude::*;
use crate::platform::{AwsConfig, CloudProvider, Error, ProvidersConfig};
use crate::providers::digitalocean::DigitalOceanProvider;
use crate::providers::hetzner::HetznerProvider;
use crate::providers::linode::LinodeProvider;
use crate::providers::vultr::VultrProvider;
use crate::text::owned;

verus! {

/// A provider account ready for use; an AWS account is handed over by its
/// credentials, from which its SDK client is loaded.
pub enum ProviderHandle {
    Vultr(VultrProvider),
    Hetzner(HetznerProvider),
    DigitalOcean(DigitalOceanProvider),
    Aws(AwsConfig),
    Linode(LinodeProvider),
}

/// Chooses provider accounts from the configuration.
pub struct ProviderFactory {
    pub config: ProvidersConfig,
}

/// The message of a provider missing from the configuration.
pub open spec fn not_configured(label: Seq<char>) -> Seq<char> {
    label + " configuration not found"@
}

fn missing(label: &str) -> (e: Error)
    ensures
        e matches Error::Config(m) && m@ == not_configured(label@),
{
    let mut m = owned(label);
    m.append(" configuration not found");
    Error::Config(m)
}

/// The names of the configured providers, in a fixed order.
pub open spec fn configured_names(c: ProvidersConfig) -> Seq<Seq<char>> {
    (if c.vultr is Some {
        seq!["vultr"@]
    } else {
        seq![]
    }) + (if c.hetzner is Some {
        seq!["hetzner"@]
    } else {
        seq![]
    }) + (if c.digitalocean is Some {
        seq!["digitalocean"@]
    } else {
        seq![]
    }) + (if c.aws is Some {
        seq!["aws"@]
    } else {
        seq![]
    }) + (if c.linode is Some {
        seq!["linode"@]
    } else {
        seq![]
    })
}

/// The message of a provider that cannot be chosen at all.
pub open spec fn unsupported_text(p: CloudProvider) -> Seq<char> {
    match p {
        CloudProvider::Gcp => "GCP not yet implemented"@,
        CloudProvider::Azure => "Azure not yet implemented"@,
        _ => "Custom provider requires manual configuration"@,
    }
}

/// The providers that can be chosen from the configuration.
pub open spec fn choosable(p: CloudProvider) -> bool {
    match p {
        CloudProvider::Gcp | CloudProvider::Azure | CloudProvider::Custom => false,
        _ => true,
    }
}

/// Whether the configuration holds the account of a provider.
pub open spec fn configured(p: CloudProvider, c: ProvidersConfig) -> bool {
    match p {
        CloudProvider::Vultr => c.vultr is Some,
        CloudProvider::Hetzner => c.hetzner is Some,
        CloudProvider::DigitalOcean => c.digitalocean is Some,
        CloudProvider::Aws => c.aws is Some,
        CloudProvider::Linode => c.linode is Some,
        _ => false,
    }
}

/// The name a provider's configuration goes by in messages.
pub open spec fn provider_label(p: CloudProvider) -> Seq<char> {
    match p {
        CloudProvider::Vultr => "Vultr"@,
        CloudProvider::Hetzner => "Hetzner"@,
        CloudProvider::DigitalOcean => "DigitalOcean"@,
        CloudProvider::Aws => "AWS"@,
        _ => "Linode"@,
    }
}

/// Whether a handle is the configured account of a provider.
pub open spec fn handle_for(h: ProviderHandle, p: CloudProvider, c: ProvidersConfig) -> bool {
    match (h, p) {
        (ProviderHandle::Vultr(v), CloudProvider::Vultr) => v.api_key@ == c.vultr->0.api_key@,
        (ProviderHandle::Hetzner(v), CloudProvider::Hetzner) => v.api_token@
            == c.hetzner->0.api_token@,
        (ProviderHandle::DigitalOcean(v), CloudProvider::DigitalOcean) => v.api_token@
            == c.digitalocean->0.api_token@,
        (ProviderHandle::Aws(a), CloudProvider::Aws) => {
            &&& a.access_key_id@ == c.aws->0.access_key_id@
            &&& a.secret_access_key@ == c.aws->0.secret_access_key@
            &&& a.region@ == c.aws->0.region@
        },
        (ProviderHandle::Linode(v), CloudProvider::Linode) => v.api_token@
            == c.linode->0.api_token@,
        _ => false,
    }
}

impl ProviderFactory {
    pub fn new(config: ProvidersConfig) -> (r: Self)
        ensures
            r.config == config,
    {
        ProviderFactory { config }
    }

    /// The Vultr account, when configured.
    pub fn vultr(&self) -> (r: Result<VultrProvider, Error>)
        ensures
            r is Ok <==> self.config.vultr is Some,
            r matches Ok(p) ==> p.api_key@ == self.config.vultr->0.api_key@,
            r is Err ==> (r matches Err(Error::Config(m)) && m@ == not_configured("Vultr"@)),
    {
        match &self.config.vultr {
            Some(c) => Ok(VultrProvider::new(c.api_key.clone())),
            None => Err(missing("Vultr")),
        }
    }

    /// The Hetzner account, when configured.
    pub fn hetzner(&self) -> (r: Result<HetznerProvider, Error>)
        ensures
            r is Ok <==> self.config.hetzner is Some,
            r matches Ok(p) ==> p.api_token@ == self.config.hetzner->0.api_token@,
            r is Err ==> (r matches Err(Error::Config(m)) && m@ == not_configured("Hetzner"@)),
    {
        match &self.config.hetzner {
            Some(c) => Ok(HetznerProvider::new(c.api_token.clone())),
            None => Err(missing("Hetzner")),
        }
    }

    /// The DigitalOcean account, when configured.
    pub fn digitalocean(&self) -> (r: Result<DigitalOceanProvider, Error>)
        ensures
            r is Ok <==> self.config.digitalocean is Some,
            r matches Ok(p) ==> p.api_token@ == self.config.digitalocean->0.api_token@,
            r is Err ==> (r matches Err(Error::Config(m)) && m@ == not_configured(
                "DigitalOcean"@,
            )),
    {
        match &self.config.digitalocean {
            Some(c) => Ok(DigitalOceanProvider::new(c.api_token.clone())),
            None => Err(missing("DigitalOcean")),
        }
    }

    /// The AWS credentials, when configured.
    pub fn aws(&self) -> (r: Result<AwsConfig, Error>)
        ensures
            r is Ok <==> self.config.aws is Some,
            r matches Ok(a) ==> {
                &&& a.access_key_id@ == self.config.aws->0.access_key_id@
                &&& a.secret_access_key@ == self.config.aws->0.secret_access_key@
                &&& a.region@ == self.config.aws->0.region@
            },
            r is Err ==> (r matches Err(Error::Config(m)) && m@ == not_configured("AWS"@)),
    {
        match &self.config.aws {
            Some(c) => Ok(
                AwsConfig {
                    access_key_id: c.access_key_id.clone(),
                    secret_access_key: c.secret_access_key.clone(),
                    region: c.region.clone(),
                },
            ),
            None => Err(missing("AWS")),
        }
    }

    /// The Linode account, when configured.
    pub fn linode(&self) -> (r: Result<LinodeProvider, Error>)
        ensures
            r is Ok <==> self.config.linode is Some,
            r matches Ok(p) ==> p.api_token@ == self.config.linode->0.api_token@,
            r is Err ==> (r matches Err(Error::Config(m)) && m@ == not_configured("Linode"@)),
    {
        match &self.config.linode {
            Some(c) => Ok(LinodeProvider::new(c.api_token.clone())),
            None => Err(missing("Linode")),
        }
    }

    /// The account of a provider: one of the five configurable providers
    /// when it is configured; GCP, Azure and custom providers are refused.
    pub fn get_provider(&self, provider: CloudProvider) -> (r: Result<ProviderHandle, Error>)
        ensures
            choosable(provider) ==> (r is Ok <==> configured(provider, self.config)),
            r matches Ok(h) ==> handle_for(h, provider, self.config),
            choosable(provider) && !configured(provider, self.config) ==> (r matches Err(
                Error::Config(m),
            ) && m@ == not_configured(provider_label(provider))),
            !choosable(provider) ==> (r matches Err(Error::Provider(m)) && m@ == unsupported_text(
                provider,
            )),
    {
        match provider {
            CloudProvider::Vultr => match self.vultr() {
                Ok(p) => Ok(ProviderHandle::Vultr(p)),
                Err(e) => Err(e),
            },
            CloudProvider::Hetzner => match self.hetzner() {
                Ok(p) => Ok(ProviderHandle::Hetzner(p)),
                Err(e) => Err(e),
            },
            CloudProvider::DigitalOcean => match self.digitalocean() {
                Ok(p) => Ok(ProviderHandle::DigitalOcean(p)),
                Err(e) => Err(e),
            },
            CloudProvider::Aws => match self.aws() {
                Ok(a) => Ok(ProviderHandle::Aws(a)),
                Err(e) => Err(e),
            },
            CloudProvider::Linode => match self.linode() {
                Ok(p) => Ok(ProviderHandle::Linode(p)),
                Err(e) => Err(e),
            },
            CloudProvider::Gcp => Err(Error::Provider(owned("GCP not yet implemented"))),
            CloudProvider::Azure => Err(Error::Provider(owned("Azure not yet implemented"))),
            CloudProvider::Custom => Err(
                Error::Provider(owned("Custom provider requires manual configuration")),
            ),
        }
    }

    /// The names of the configured providers: vultr, hetzner,
    /// digitalocean, aws and linode, in that order, each when configured.
    pub fn configured_providers(&self) -> (r: Vec<&'static str>)
        ensures
            r@.map_values(|s: &str| s@) == configured_names(self.config),
    {
        let mut providers: Vec<&'static str> = Vec::new();
        if self.config.vultr.is_some() {
            providers.push("vultr");
        }
        if self.config.hetzner.is_some() {
            providers.push("hetzner");
        }
        if self.config.digitalocean.is_some() {
            providers.push("digitalocean");
        }
        if self.config.aws.is_some() {
            providers.push("aws");
        }
        if self.config.linode.is_some() {
            providers.push("linode");
        }
        assert(providers@.map_values(|s: &str| s@) =~= configured_names(self.config));
        providers
    }
}

} // verus!
