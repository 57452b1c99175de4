//! Registry-credential material: the `{auths: {registry: {auth:
//! base64(username:password)}}}` structure injected as an image pull secret
//! into provisioned workloads. A pure transform, not part of any retry path.

use vstd::prelude::*;

verus! {

/// The base64 encoding (standard alphabet, with padding) of the UTF-8 bytes
/// of `s`.
pub uninterp spec fn base64_of(s: Seq<char>) -> Seq<char>;

/// Relies on base64::encode: the standard-alphabet, padded base64 encoding
/// of the input bytes, a function of the input alone. The length bound keeps
/// the encoder's output-size computation from overflowing, which is the one
/// input it panics on.
#[verifier::external_body]
pub(crate) fn base64_encode(s: &str) -> (r: String)
    requires
        s@.len() < 0x1000_0000_0000_0000,
    ensures
        r@ == base64_of(s@),
{
    base64::encode(s)
}

/// One registry's pull credential: the registry it is for, and the
/// base64-encoded `username:password` pair that goes under `auths` in the
/// rendered config.
pub struct DockerConfigJson {
    pub registry: String,
    pub auth: String,
}

impl DockerConfigJson {
    /// Build the credential for one registry.
    pub fn new(username: &str, password: &str, registry: &str) -> (r: DockerConfigJson)
        requires
            username@.len() + password@.len() < 0x800_0000_0000_0000,
        ensures
            r.registry@ == registry@,
            r.auth@ == base64_of(username@ + ":"@ + password@),
    {
        proof {
            reveal_strlit(":");
        }
        let mut joined = String::from_str(username);
        joined.append(":");
        joined.append(password);
        let auth = base64_encode(joined.as_str());
        DockerConfigJson { registry: String::from_str(registry), auth }
    }
}

} // verus!
