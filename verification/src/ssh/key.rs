//! SSH private keys: decoding, generation and the public half in OpenSSH
//! form. The key material stays inside `russh_keys`.

use vstd::prelude::*;
use crate::platform::Error;
use crate::text::owned;
use russh_keys::PrivateKey as RusshPrivateKey;

verus! {

#[verifier::external_type_specification]
#[verifier::external_body]
pub struct ExRusshPrivateKey(RusshPrivateKey);

/// Whether `russh_keys::decode_secret_key` accepts a PEM text with an
/// optional passphrase.
pub uninterp spec fn key_decodes(pem: Seq<char>, passphrase: Option<Seq<char>>) -> bool;

/// The view of an optional text slice.
pub open spec fn opt_str(o: Option<&str>) -> Option<Seq<char>> {
    match o {
        Some(s) => Some(s@),
        None => None,
    }
}

/// `russh_keys::decode_secret_key`: parses an OpenSSH or PEM private key,
/// decrypting it with the passphrase. Whether it succeeds is named
/// `key_decodes` of the text and the passphrase; the error is its message.
/// Nothing is stated of the key decoded.
#[verifier::external_body]
fn decode_secret_key(pem: &str, passphrase: Option<&str>) -> (r: Result<
    RusshPrivateKey,
    String,
>)
    ensures
        r is Ok <==> key_decodes(pem@, opt_str(passphrase)),
{
    russh_keys::decode_secret_key(pem, passphrase).map_err(|e| e.to_string())
}

/// `PrivateKey::random` for Ed25519 with the thread's generator: an
/// Ed25519 key pair is always produced. The key is random, so nothing is
/// stated of it.
#[verifier::external_body]
fn random_ed25519() -> (r: Result<RusshPrivateKey, String>)
    ensures
        r is Ok,
{
    RusshPrivateKey::random(&mut rand::thread_rng(), russh_keys::Algorithm::Ed25519)
        .map_err(|e| e.to_string())
}

/// `RsaKeypair::random` with the thread's generator, as a private key:
/// sizes below 2048 bits are refused and every larger size gives a key
/// (the size is the only check made before generating). The key is
/// random, so nothing more is stated of it.
#[verifier::external_body]
fn random_rsa(bits: usize) -> (r: Result<RusshPrivateKey, String>)
    ensures
        r is Ok <==> bits >= 2048,
{
    russh_keys::ssh_key::private::RsaKeypair::random(&mut rand::thread_rng(), bits)
        .map(RusshPrivateKey::from)
        .map_err(|e| e.to_string())
}

/// A character of the standard base64 alphabet, padding included.
pub open spec fn is_base64_char(c: char) -> bool {
    ('A' <= c <= 'Z') || ('a' <= c <= 'z') || ('0' <= c <= '9') || c == '+' || c == '/' || c
        == '='
}

/// The OpenSSH public-key line: a non-empty algorithm name, a space, the
/// non-empty base64 of the key data, then either nothing or a space and
/// the key's comment.
pub open spec fn openssh_public_form(t: Seq<char>) -> bool {
    exists|alg: Seq<char>, data: Seq<char>, rest: Seq<char>|
        alg.len() > 0 && data.len() > 0 && (forall|i: int|
            0 <= i < data.len() ==> is_base64_char(#[trigger] data[i])) && (rest.len() == 0
            || rest[0] == ' ') && t == alg + " "@ + data + rest
}

/// `PublicKey::to_string`, which is `to_openssh`: the algorithm name, a
/// space, the base64 encoding of the key data and, where the key has a
/// comment, a space and the comment. The key is opaque here, so which
/// name, data and comment appear is not stated.
#[verifier::external_body]
fn openssh_public(key: &RusshPrivateKey) -> (r: String)
    ensures
        openssh_public_form(r@),
{
    key.public_key().to_string()
}

/// The message of a key that could not be decoded.
pub open spec fn decode_error_text(detail: Seq<char>) -> Seq<char> {
    "Failed to decode private key: "@ + detail
}

/// The message of a key that could not be generated.
pub open spec fn generate_error_text(detail: Seq<char>) -> Seq<char> {
    "Failed to generate key: "@ + detail
}

fn generation(r: Result<RusshPrivateKey, String>) -> (k: Result<PrivateKey, Error>)
    ensures
        k is Ok <==> r is Ok,
        r matches Err(d) ==> (k matches Err(Error::Ssh(m)) && m@ == generate_error_text(d@)),
{
    match r {
        Ok(inner) => Ok(PrivateKey { inner }),
        Err(d) => {
            let mut m = owned("Failed to generate key: ");
            m.append(d.as_str());
            Err(Error::Ssh(m))
        },
    }
}

/// Wrapper around SSH private key
pub struct PrivateKey {
    inner: RusshPrivateKey,
}

impl PrivateKey {
    /// Parse a private key from PEM format, with its passphrase if it is
    /// encrypted.
    pub fn from_pem(pem: &str, passphrase: Option<&str>) -> (r: Result<Self, Error>)
        ensures
            r is Ok <==> key_decodes(pem@, opt_str(passphrase)),
            r is Err ==> exists|d: Seq<char>|
                r matches Err(Error::Ssh(m)) && m@ == #[trigger] decode_error_text(d),
    {
        match decode_secret_key(pem, passphrase) {
            Ok(inner) => Ok(PrivateKey { inner }),
            Err(d) => {
                let mut m = owned("Failed to decode private key: ");
                m.append(d.as_str());
                assert(m@ == decode_error_text(d@));
                Err(Error::Ssh(m))
            },
        }
    }

    /// Generate a new Ed25519 key pair
    pub fn generate_ed25519() -> (r: Result<Self, Error>)
        ensures
            r is Ok,
    {
        generation(random_ed25519())
    }

    /// Generate a new RSA key pair: a key of `bits` bits from 2048 up,
    /// fewer bits refused.
    pub fn generate_rsa(bits: usize) -> (r: Result<Self, Error>)
        ensures
            r is Ok <==> bits >= 2048,
            bits < 2048 ==> exists|d: Seq<char>|
                r matches Err(Error::Ssh(m)) && m@ == #[trigger] generate_error_text(d),
    {
        let k = random_rsa(bits);
        let r = generation(k);
        proof {
            if bits < 2048 {
                let d = k->Err_0;
                assert(r matches Err(Error::Ssh(m)) && m@ == generate_error_text(d@));
            }
        }
        r
    }

    /// The key held.
    pub closed spec fn key(&self) -> RusshPrivateKey {
        self.inner
    }

    /// Get the inner russh key
    pub fn inner(&self) -> (r: &RusshPrivateKey)
        ensures
            *r == self.key(),
    {
        &self.inner
    }

    /// Get the public key in OpenSSH format: algorithm name, space,
    /// base64 key data and, where the key has one, a space and its comment.
    pub fn public_key_openssh(&self) -> (r: String)
        ensures
            openssh_public_form(r@),
    {
        openssh_public(&self.inner)
    }
}

} // verus!
