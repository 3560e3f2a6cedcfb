//! Cloud-provider integrations: the requests each provider's API is sent,
//! the checks made on its replies, and the mapping of those replies onto
//! the platform's server, region and image records.

use vstd::prelude::*;
use crate::platform::{Error, OsImage, Region};
use crate::text::owned;

pub mod hetzner;
pub mod digitalocean;
pub mod vultr;
pub mod linode;
pub mod aws;
pub mod gcp;
pub mod azure;
pub mod factory;

verus! {

/// The view of an optional string.
pub open spec fn opt_text(o: Option<String>) -> Option<Seq<char>> {
    match o {
        Some(s) => Some(s@),
        None => None,
    }
}

/// The text of an image record: id, name, distribution and version.
pub open spec fn image_text(o: OsImage) -> (Seq<char>, Seq<char>, Seq<char>, Seq<char>) {
    (o.id@, o.name@, o.distribution@, o.version@)
}

/// The texts of a list of image records.
pub open spec fn image_texts(v: Seq<OsImage>) -> Seq<(Seq<char>, Seq<char>, Seq<char>, Seq<char>)> {
    v.map_values(|o: OsImage| image_text(o))
}

/// The text of a region record: id, name, country and availability.
pub open spec fn region_text(r: Region) -> (Seq<char>, Seq<char>, Option<Seq<char>>, bool) {
    (r.id@, r.name@, opt_text(r.country), r.available)
}

/// The `Authorization` header value of a bearer token.
pub open spec fn bearer(token: Seq<char>) -> Seq<char> {
    "Bearer "@ + token
}

/// The `Authorization` header value of a bearer token.
pub fn bearer_header(token: &str) -> (r: String)
    ensures
        r@ == bearer(token@),
{
    let mut r = owned("Bearer ");
    r.append(token);
    r
}

/// The message of a request that could not be sent.
pub open spec fn request_failed_text(provider: Seq<char>, detail: Seq<char>) -> Seq<char> {
    provider + " API request failed: "@ + detail
}

/// The message of a reply with an unsuccessful status.
pub open spec fn api_error_text(provider: Seq<char>, status: Seq<char>, body: Seq<char>) -> Seq<
    char,
> {
    provider + " API error "@ + status + ": "@ + body
}

/// The message of a reply whose body could not be read.
pub open spec fn parse_failed_text(provider: Seq<char>, detail: Seq<char>) -> Seq<char> {
    "Failed to parse "@ + provider + " response: "@ + detail
}

/// The error of a request that could not be sent.
pub fn request_failed(provider: &str, detail: &str) -> (e: Error)
    ensures
        e matches Error::Provider(m) && m@ == request_failed_text(provider@, detail@),
{
    let mut m = owned(provider);
    m.append(" API request failed: ");
    m.append(detail);
    Error::Provider(m)
}

/// The error of a reply whose body could not be read.
pub fn parse_failed(provider: &str, detail: &str) -> (e: Error)
    ensures
        e matches Error::Provider(m) && m@ == parse_failed_text(provider@, detail@),
{
    let mut m = owned("Failed to parse ");
    m.append(provider);
    m.append(" response: ");
    m.append(detail);
    Error::Provider(m)
}

/// The check made on every reply: a successful status passes; any other
/// is an error naming the status and the body.
pub fn check_status(provider: &str, success: bool, status: &str, body: &str) -> (r: Result<
    (),
    Error,
>)
    ensures
        success ==> r is Ok,
        !success ==> (r matches Err(Error::Provider(m)) && m@ == api_error_text(
            provider@,
            status@,
            body@,
        )),
{
    if success {
        Ok(())
    } else {
        let mut m = owned(provider);
        m.append(" API error ");
        m.append(status);
        m.append(": ");
        m.append(body);
        Err(Error::Provider(m))
    }
}

} // verus!
