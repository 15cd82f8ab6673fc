//! Assembly of one attestation request: build facts, device fingerprint, a
//! construction-time timestamp in milliseconds, and a fresh unpredictable
//! nonce, composed without touching the network.

use crate::clock::now_unix_millis;
use crate::fingerprint::SystemInfo;
use crate::provenance::BuildInfo;
use vstd::prelude::*;
use vstd::string::*;

verus! {

/// One authentication attempt's payload. Constructed fresh for every
/// attempt and never reused: even when the build and device facts are
/// identical, the nonce differs.
#[derive(Clone, Debug)]
pub struct ClientAuthRequest {
    pub build_info: BuildInfo,
    pub system_info: SystemInfo,
    pub timestamp: i64,
    pub nonce: String,
}

/// Relies on `uuid::Uuid::new_v4` and its canonical rendering: a random
/// identifier shown as 36 characters in hyphenated form. The value is
/// random, so nothing more is promised of it.
#[verifier::external_body]
fn random_uuid_string() -> (r: String)
    ensures
        r@.len() == 36,
{
    uuid::Uuid::new_v4().to_string()
}

/// A fresh nonce: the concatenation of two independently drawn random
/// 128-bit identifiers, 72 characters in all, unique across processes with
/// overwhelming probability.
pub fn fresh_nonce() -> (r: String)
    ensures
        r@.len() == 72,
{
    let first = random_uuid_string();
    let second = random_uuid_string();
    first.concat(second.as_str())
}

impl ClientAuthRequest {
    /// Composes one request from already-computed build facts and device
    /// fingerprint, stamping it with the clock at construction time and a
    /// fresh nonce. No network is touched.
    pub fn new(build_info: BuildInfo, system_info: SystemInfo) -> (r: Self)
        ensures
            r.build_info == build_info,
            r.system_info == system_info,
            r.nonce@.len() == 72,
    {
        Self { build_info, system_info, timestamp: now_unix_millis(), nonce: fresh_nonce() }
    }
}

} // verus!
