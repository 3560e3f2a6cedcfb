//! SSL Certificate Jobs
//!
//! Renewal of certificates, checks of the certificates on a server and
//! upload of custom certificates.

use vstd::prelude::*;
use crate::ids::{now_millis, MAX_UTC_MS};
use crate::scheduler::jobs::{Job, JobContext, JobResult};
use crate::text::{chars_of, contains, contains_str, owned};

verus! {

pub struct RegenerateSslCertJob;

#[derive(Debug, Clone)]
pub struct SslCertContext {
    pub server_id: u128,
    pub domain: String,
    pub email: Option<String>,
    pub force_renewal: bool,
    pub provider: SslProvider,
}

#[derive(Debug, Clone, Copy, PartialEq, Eq, Structural)]
pub enum SslProvider {
    LetsEncrypt,
    LetsEncryptStaging,
    ZeroSsl,
    Custom,
}

/// Outcome of a certificate job. Expiry is in milliseconds since the epoch.
#[derive(Debug, Clone)]
pub struct SslCertResult {
    pub success: bool,
    pub domain: String,
    pub expires_at: Option<i64>,
    pub issuer: Option<String>,
    pub renewed: bool,
    pub error: Option<String>,
}

/// What is known of an installed certificate.
#[derive(Debug, Clone)]
pub struct CertificateInfo {
    /// Milliseconds since the epoch
    pub expires_at: Option<i64>,
    pub issuer: Option<String>,
}

/// Milliseconds in a day.
pub const DAY_MS: i64 = 86_400_000;

/// A certificate needs renewal when it expires within 30 days of `now`, or
/// when its expiry is unknown.
pub open spec fn renewal_due(expires_at: Option<i64>, now: i64) -> bool {
    match expires_at {
        Some(e) => e < now + 30 * DAY_MS,
        None => true,
    }
}

impl CertificateInfo {
    /// Whether the certificate needs renewal at `now`.
    pub fn needs_renewal_at(&self, now: i64) -> (b: bool)
        ensures
            b == renewal_due(self.expires_at, now),
    {
        match self.expires_at {
            Some(e) => (e as i128) < (now as i128) + 30 * (DAY_MS as i128),
            None => true,
        }
    }

    /// Whether the certificate needs renewal now: when it expires within
    /// 30 days of the clock's reading (an instant from the Unix epoch to the
    /// end of chrono's range), or when its expiry is unknown.
    pub fn needs_renewal(&self) -> (b: bool)
        ensures
            self.expires_at is None ==> b,
            exists|now: i64| 0 <= now <= MAX_UTC_MS && b == #[trigger] renewal_due(self.expires_at, now),
    {
        let now = now_millis();
        let b = self.needs_renewal_at(now);
        assert(b == renewal_due(self.expires_at, now));
        b
    }
}

/// The certbot command that obtains a certificate for the domain, with
/// the e-mail when given, against the staging service when asked.
pub open spec fn certbot_command_text(c: SslCertContext) -> Seq<char> {
    "certbot certonly --standalone -d "@ + c.domain@ + " "@ + match c.email {
        Some(e) => "--email "@ + e@,
        None => "--register-unsafely-without-email"@,
    } + " --non-interactive --agree-tos"@ + if c.provider == SslProvider::LetsEncryptStaging {
        " --staging"@
    } else {
        Seq::<char>::empty()
    }
}

/// A failed result for a domain with an error message.
fn failure(domain: &String, message: &str) -> (r: SslCertResult)
    ensures
        !r.success && r.domain@ == domain@ && r.expires_at is None && r.issuer is None
            && !r.renewed && (r.error matches Some(e) && e@ == message@),
{
    SslCertResult {
        success: false,
        domain: domain.clone(),
        expires_at: None,
        issuer: None,
        renewed: false,
        error: Some(owned(message)),
    }
}

impl RegenerateSslCertJob {
    /// The installed certificate of a domain: none is found yet.
    fn check_certificate(&self, domain: &str) -> (r: Result<Option<CertificateInfo>, String>)
        ensures
            r matches Ok(None),
    {
        Ok(None)
    }

    /// The certbot command for a renewal.
    pub fn certbot_command(&self, data: &SslCertContext) -> (r: String)
        ensures
            r@ == certbot_command_text(*data),
    {
        let mut c = owned("certbot certonly --standalone -d ");
        c.append(data.domain.as_str());
        c.append(" ");
        match &data.email {
            Some(e) => {
                c.append("--email ");
                c.append(e.as_str());
            },
            None => c.append("--register-unsafely-without-email"),
        }
        c.append(" --non-interactive --agree-tos");
        if data.provider == SslProvider::LetsEncryptStaging {
            c.append(" --staging");
        }
        c
    }

    fn renew_letsencrypt(&self, data: &SslCertContext) -> (r: JobResult<SslCertResult>)
        ensures
            r matches Ok(res) && res.success && res.domain@ == data.domain@ && res.renewed
                && res.expires_at is Some && (res.issuer matches Some(i) && i@ == "Let's Encrypt"@)
                && res.error is None,
    {
        let _cmd = self.certbot_command(data);
        let now = now_millis();
        let expires_at: i64 = if now <= i64::MAX - 90 * DAY_MS {
            now + 90 * DAY_MS
        } else {
            i64::MAX
        };
        Ok(
            SslCertResult {
                success: true,
                domain: data.domain.clone(),
                expires_at: Some(expires_at),
                issuer: Some(owned("Let's Encrypt")),
                renewed: true,
                error: None,
            },
        )
    }

    fn renew_zerossl(&self, data: &SslCertContext) -> (r: JobResult<SslCertResult>)
        ensures
            r matches Ok(res) && !res.success && res.domain@ == data.domain@ && !res.renewed
                && (res.error matches Some(e) && e@ == "ZeroSSL renewal not yet implemented"@),
    {
        Ok(failure(&data.domain, "ZeroSSL renewal not yet implemented"))
    }

    /// Renews the domain's certificate (no installed certificate is found,
    /// so one is always due): Let's Encrypt renews, ZeroSSL is not yet
    /// supported, and custom certificates must be uploaded.
    pub fn handle(&self, ctx: JobContext<SslCertContext>) -> (r: JobResult<SslCertResult>)
        ensures
            r matches Ok(res) && res.domain@ == ctx.payload.domain@ && match ctx.payload.provider {
                SslProvider::LetsEncrypt | SslProvider::LetsEncryptStaging => res.success
                    && res.renewed && (res.issuer matches Some(i) && i@ == "Let's Encrypt"@),
                SslProvider::ZeroSsl => !res.success && (res.error matches Some(e) && e@
                    == "ZeroSSL renewal not yet implemented"@),
                SslProvider::Custom => !res.success && (res.error matches Some(e) && e@
                    == "Custom certificates must be uploaded manually"@),
            },
    {
        let data = &ctx.payload;
        let cert_info = match self.check_certificate(data.domain.as_str()) {
            Ok(c) => c,
            Err(e) => {
                return Err(e);
            },
        };
        let needs_renewal = data.force_renewal || match &cert_info {
            Some(c) => c.needs_renewal(),
            None => true,
        };
        if !needs_renewal {
            let (expires_at, issuer) = match cert_info {
                Some(c) => (c.expires_at, c.issuer),
                None => (None, None),
            };
            return Ok(
                SslCertResult {
                    success: true,
                    domain: data.domain.clone(),
                    expires_at,
                    issuer,
                    renewed: false,
                    error: None,
                },
            );
        }
        match data.provider {
            SslProvider::LetsEncrypt | SslProvider::LetsEncryptStaging => self.renew_letsencrypt(
                data,
            ),
            SslProvider::ZeroSsl => self.renew_zerossl(data),
            SslProvider::Custom => Ok(
                failure(&data.domain, "Custom certificates must be uploaded manually"),
            ),
        }
    }
}

impl Job for RegenerateSslCertJob {
    fn name(&self) -> (r: &'static str)
        ensures
            r@ == "regenerate_ssl_cert"@,
    {
        "regenerate_ssl_cert"
    }
}

pub struct CheckSslCertificatesJob;

#[derive(Debug, Clone)]
pub struct CheckCertsContext {
    pub server_id: u128,
}

#[derive(Debug, Clone)]
pub struct CheckCertsResult {
    pub checked: u32,
    pub needs_renewal: Vec<String>,
    pub expired: Vec<String>,
    pub valid: Vec<String>,
}

impl CheckSslCertificatesJob {
    /// No certificate is found to check yet.
    pub fn handle(&self, ctx: JobContext<CheckCertsContext>) -> (r: JobResult<CheckCertsResult>)
        ensures
            r matches Ok(res) && res.checked == 0 && res.needs_renewal@.len() == 0
                && res.expired@.len() == 0 && res.valid@.len() == 0,
    {
        Ok(
            CheckCertsResult {
                checked: 0,
                needs_renewal: Vec::new(),
                expired: Vec::new(),
                valid: Vec::new(),
            },
        )
    }
}

impl Job for CheckSslCertificatesJob {
    fn name(&self) -> (r: &'static str)
        ensures
            r@ == "check_ssl_certificates"@,
    {
        "check_ssl_certificates"
    }
}

pub struct UploadSslCertificateJob;

#[derive(Debug, Clone)]
pub struct UploadCertContext {
    pub server_id: u128,
    pub domain: String,
    pub certificate: String,
    pub private_key: String,
    pub chain: Option<String>,
}

impl UploadSslCertificateJob {
    /// Accepts a custom certificate: the certificate must hold a PEM
    /// certificate block and the key a PEM block; an accepted upload counts
    /// as a renewal issued by `Custom`.
    pub fn handle(&self, ctx: JobContext<UploadCertContext>) -> (r: JobResult<SslCertResult>)
        ensures
            r matches Ok(res) && res.domain@ == ctx.payload.domain@ && if !contains(
                ctx.payload.certificate@,
                "-----BEGIN CERTIFICATE-----"@,
            ) {
                !res.success && (res.error matches Some(e) && e@ == "Invalid certificate format"@)
            } else if !contains(ctx.payload.private_key@, "-----BEGIN"@) {
                !res.success && (res.error matches Some(e) && e@ == "Invalid private key format"@)
            } else {
                res.success && res.renewed && res.expires_at is None && (res.issuer matches Some(i)
                    && i@ == "Custom"@) && res.error is None
            },
    {
        let data = &ctx.payload;
        let cert = chars_of(data.certificate.as_str());
        if !contains_str(&cert, "-----BEGIN CERTIFICATE-----") {
            return Ok(failure(&data.domain, "Invalid certificate format"));
        }
        let key = chars_of(data.private_key.as_str());
        if !contains_str(&key, "-----BEGIN") {
            return Ok(failure(&data.domain, "Invalid private key format"));
        }
        Ok(
            SslCertResult {
                success: true,
                domain: data.domain.clone(),
                expires_at: None,
                issuer: Some(owned("Custom")),
                renewed: true,
                error: None,
            },
        )
    }
}

impl Job for UploadSslCertificateJob {
    fn name(&self) -> (r: &'static str)
        ensures
            r@ == "upload_ssl_certificate"@,
    {
        "upload_ssl_certificate"
    }
}

} // verus!
