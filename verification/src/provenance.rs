//! Build provenance: facts frozen into the artifact at build time, the
//! runtime digest of the executing binary, and the canonical byte encoding
//! that a detached signature covers.

use crate::hashing::{digest_hex, hex_of, push_bytes, sha256_of};
use vstd::bytes::{spec_u64_to_le_bytes, u64_to_le_bytes};
use vstd::prelude::*;
use vstd::string::*;
use vstd::utf8::encode_utf8;

verus! {

/// Facts injected while the artifact is built. When no injector supplied a
/// value, a deterministic fallback was substituted at build time, so that
/// every field always carries something; reading them never fails.
pub struct EmbeddedBuildInfo {
    pub build_id: &'static str,
    pub build_timestamp: i64,
    pub source_hash: &'static str,
    pub version: &'static str,
    pub platform: &'static str,
}

impl EmbeddedBuildInfo {
    /// The provenance constants of this artifact. Pure constant access:
    /// the identifying fields are never empty.
    pub fn get() -> (r: Self)
        ensures
            r.build_id@ == "ghost-dev-build"@,
            r.build_timestamp == 0,
            r.source_hash@ == "unknown"@,
            r.version@ == "0.1.0"@,
            r.platform@ == "unknown-unknown"@,
            r.build_id@.len() > 0,
            r.version@.len() > 0,
            r.source_hash@.len() > 0,
            r.platform@.len() > 0,
    {
        proof {
            reveal_strlit("ghost-dev-build");
            reveal_strlit("unknown");
            reveal_strlit("0.1.0");
            reveal_strlit("unknown-unknown");
        }
        Self {
            build_id: "ghost-dev-build",
            build_timestamp: 0,
            source_hash: "unknown",
            version: "0.1.0",
            platform: "unknown-unknown",
        }
    }
}

/// Build facts as sent to the server: the embedded provenance, the digest
/// of the running binary, and a detached signature (empty when no signing
/// material is configured).
#[derive(Clone, Debug)]
pub struct BuildInfo {
    pub build_id: String,
    pub build_timestamp: i64,
    pub source_hash: String,
    pub binary_hash: String,
    pub version: String,
    pub platform: String,
    pub signature: String,
}

/// The canonical signable byte string of a `BuildInfo`: the UTF-8 bytes of
/// the build identifier, the build timestamp as eight little-endian bytes,
/// then the UTF-8 bytes of source hash, binary hash, version and platform,
/// concatenated in that fixed order with no delimiters. This ordering is a
/// wire contract the server re-derives to verify a signature.
pub open spec fn signing_bytes(b: BuildInfo) -> Seq<u8> {
    encode_utf8(b.build_id@) + spec_u64_to_le_bytes(b.build_timestamp as u64) + encode_utf8(
        b.source_hash@,
    ) + encode_utf8(b.binary_hash@) + encode_utf8(b.version@) + encode_utf8(b.platform@)
}

impl BuildInfo {
    /// Composes the embedded provenance with the runtime facts: the digest
    /// of the running binary's bytes (the caller reads them; `None` when
    /// the executable could not be read) and the externally injected
    /// signature (`None` when no signing material is configured, which
    /// serializes as the empty string, never as an absent field).
    pub fn from_embedded(binary: Option<&[u8]>, signature: Option<&str>) -> (r: Self)
        ensures
            r.build_id@ == "ghost-dev-build"@,
            r.build_timestamp == 0,
            r.source_hash@ == "unknown"@,
            r.version@ == "0.1.0"@,
            r.platform@ == "unknown-unknown"@,
            r.build_id@.len() > 0,
            r.version@.len() > 0,
            binary is Some ==> r.binary_hash@ == hex_of(sha256_of(binary->0@)),
            binary is None ==> r.binary_hash@ == "unknown"@,
            r.binary_hash@.len() > 0,
            signature is Some ==> r.signature@ == signature->0@,
            signature is None ==> r.signature@ == Seq::<char>::empty(),
    {
        let embedded = EmbeddedBuildInfo::get();
        let binary_hash = Self::compute_binary_hash(binary);
        let signature_value = match signature {
            Some(s) => String::from_str(s),
            None => String::new(),
        };
        Self {
            build_id: String::from_str(embedded.build_id),
            build_timestamp: embedded.build_timestamp,
            source_hash: String::from_str(embedded.source_hash),
            binary_hash,
            version: String::from_str(embedded.version),
            platform: String::from_str(embedded.platform),
            signature: signature_value,
        }
    }

    /// The hexadecimal SHA-256 digest of the running binary's bytes, or the
    /// sentinel `"unknown"` when the executable could not be located or
    /// read. A missing digest is a server-visible signal, not an error.
    pub fn compute_binary_hash(binary: Option<&[u8]>) -> (r: String)
        ensures
            binary is Some ==> r@ == hex_of(sha256_of(binary->0@)) && r@.len() == 64,
            binary is None ==> r@ == "unknown"@,
            r@.len() > 0,
    {
        match binary {
            Some(data) => digest_hex(data),
            None => {
                proof {
                    reveal_strlit("unknown");
                }
                String::from_str("unknown")
            },
        }
    }

    /// The canonical byte string that an external signing step signs.
    pub fn signing_data(&self) -> (r: Vec<u8>)
        ensures
            r@ == signing_bytes(*self),
    {
        let mut data: Vec<u8> = Vec::new();
        push_bytes(&mut data, self.build_id.as_str().as_bytes());
        let timestamp_bytes = u64_to_le_bytes(self.build_timestamp as u64);
        push_bytes(&mut data, timestamp_bytes.as_slice());
        push_bytes(&mut data, self.source_hash.as_str().as_bytes());
        push_bytes(&mut data, self.binary_hash.as_str().as_bytes());
        push_bytes(&mut data, self.version.as_str().as_bytes());
        push_bytes(&mut data, self.platform.as_str().as_bytes());
        proof {
            assert(data@ =~= signing_bytes(*self));
        }
        data
    }

    /// The binary digest shortened for human display: its first sixteen
    /// characters when it is that long, otherwise — as for the sentinel
    /// `"unknown"` — the digest exactly as it stands. Never fails.
    pub fn truncated_binary_hash(&self) -> (r: String)
        ensures
            self.binary_hash@.len() >= 16 ==> r@ == self.binary_hash@.subrange(0, 16),
            self.binary_hash@.len() < 16 ==> r@ == self.binary_hash@,
    {
        let digest = self.binary_hash.as_str();
        if digest.unicode_len() >= 16 {
            String::from_str(digest.substring_char(0, 16))
        } else {
            self.binary_hash.clone()
        }
    }
}

/// The canonical signing bytes are a pure function of exactly the six
/// signable fields — build identifier, build timestamp, source hash,
/// binary hash, version and platform. Two builds that agree on those six
/// fields sign the same bytes, whatever else (such as the signature field
/// itself) differs.
pub proof fn lemma_signing_bytes_deterministic(a: BuildInfo, b: BuildInfo)
    requires
        a.build_id@ == b.build_id@,
        a.build_timestamp == b.build_timestamp,
        a.source_hash@ == b.source_hash@,
        a.binary_hash@ == b.binary_hash@,
        a.version@ == b.version@,
        a.platform@ == b.platform@,
    ensures
        signing_bytes(a) == signing_bytes(b),
{
}

} // verus!
