//! Tests of the attestation library: build provenance, binary digest,
//! canonical signing bytes, device fingerprint fallbacks, request
//! assembly, and response branching.

use ghost_attest::fingerprint::{extract_platform_uuid, SystemInfo};
use ghost_attest::provenance::{BuildInfo, EmbeddedBuildInfo};
use ghost_attest::request::{fresh_nonce, ClientAuthRequest};
use ghost_attest::transport::{AuthOutcome, AuthResponse, ClientAuthenticator, TransportError};
use std::collections::HashSet;

fn sample_build_info() -> BuildInfo {
    BuildInfo {
        build_id: "abc".to_string(),
        build_timestamp: 1700000000,
        source_hash: "deadbeef".to_string(),
        binary_hash: "cafebabe".to_string(),
        version: "1.0.0".to_string(),
        platform: "linux-x86_64".to_string(),
        signature: String::new(),
    }
}

fn sample_system_info() -> SystemInfo {
    SystemInfo::collect(4242, Some("operator"), None, "linux", "x86_64", "unix")
}

#[test]
fn test_build_info() {
    let info = BuildInfo::from_embedded(None, None);
    assert!(!info.build_id.is_empty());
    assert!(!info.version.is_empty());
}

#[test]
fn test_system_info() {
    let info = sample_system_info();
    assert!(!info.mac_hash.is_empty());
    assert!(!info.machine_id.is_empty());
}

#[test]
fn embedded_provenance_is_complete() {
    let embedded = EmbeddedBuildInfo::get();
    assert!(!embedded.build_id.is_empty());
    assert!(!embedded.version.is_empty());
    assert!(!embedded.source_hash.is_empty());
    assert!(!embedded.platform.is_empty());

    let info = BuildInfo::from_embedded(None, None);
    assert!(!info.source_hash.is_empty());
    assert!(!info.platform.is_empty());
    assert_eq!(info.build_id, embedded.build_id);
    assert_eq!(info.build_timestamp, embedded.build_timestamp);
    assert_eq!(info.version, embedded.version);
}

#[test]
fn binary_digest_is_deterministic() {
    let data = b"some executable bytes";
    let first = BuildInfo::compute_binary_hash(Some(data));
    let second = BuildInfo::compute_binary_hash(Some(data));
    assert_eq!(first, second);
    assert_eq!(first.len(), 64);
}

#[test]
fn binary_digest_is_sensitive_to_one_byte() {
    let first = BuildInfo::compute_binary_hash(Some(b"aaa"));
    let second = BuildInfo::compute_binary_hash(Some(b"aab"));
    assert_ne!(first, second);
}

#[test]
fn binary_digest_matches_known_vectors() {
    assert_eq!(
        BuildInfo::compute_binary_hash(Some(b"abc")),
        "ba7816bf8f01cfea414140de5dae2223b00361a396177a9cb410ff61f20015ad"
    );
    assert_eq!(
        BuildInfo::compute_binary_hash(Some(b"")),
        "e3b0c44298fc1c149afbf4c8996fb92427ae41e4649b934ca495991b7852b855"
    );
}

#[test]
fn unreadable_binary_yields_sentinel() {
    assert_eq!(BuildInfo::compute_binary_hash(None), "unknown");
    let info = BuildInfo::from_embedded(None, None);
    assert_eq!(info.binary_hash, "unknown");
}

#[test]
fn missing_signature_serializes_as_empty_string() {
    let unsigned = BuildInfo::from_embedded(None, None);
    assert_eq!(unsigned.signature, "");
    let signed = BuildInfo::from_embedded(None, Some("sealed"));
    assert_eq!(signed.signature, "sealed");
}

#[test]
fn signing_data_matches_reference_bytes() {
    let info = sample_build_info();
    let mut expected: Vec<u8> = Vec::new();
    expected.extend_from_slice(b"abc");
    expected.extend_from_slice(&[0x00, 0xf1, 0x53, 0x65, 0x00, 0x00, 0x00, 0x00]);
    expected.extend_from_slice(b"deadbeef");
    expected.extend_from_slice(b"cafebabe");
    expected.extend_from_slice(b"1.0.0");
    expected.extend_from_slice(b"linux-x86_64");
    assert_eq!(info.signing_data(), expected);
}

#[test]
fn signing_data_ignores_the_signature_field() {
    let unsigned = sample_build_info();
    let mut signed = sample_build_info();
    signed.signature = "detached".to_string();
    assert_eq!(unsigned.signing_data(), signed.signing_data());
}

#[test]
fn signing_data_depends_on_each_signable_field() {
    let base = sample_build_info();
    let mut other = sample_build_info();
    other.build_timestamp = 1700000001;
    assert_ne!(base.signing_data(), other.signing_data());
    let mut renamed = sample_build_info();
    renamed.build_id = "abd".to_string();
    assert_ne!(base.signing_data(), renamed.signing_data());
}

#[test]
fn truncated_digest_shows_sixteen_characters() {
    let mut info = sample_build_info();
    info.binary_hash =
        "ba7816bf8f01cfea414140de5dae2223b00361a396177a9cb410ff61f20015ad".to_string();
    assert_eq!(info.truncated_binary_hash(), "ba7816bf8f01cfea");
}

#[test]
fn truncated_digest_shows_the_sentinel_whole() {
    let mut info = sample_build_info();
    info.binary_hash = "unknown".to_string();
    assert_eq!(info.truncated_binary_hash(), "unknown");
}

#[test]
fn nonces_are_unique_across_many_requests() {
    let mut seen: HashSet<String> = HashSet::new();
    for _ in 0..10_000 {
        let nonce = fresh_nonce();
        assert_eq!(nonce.len(), 72);
        assert!(seen.insert(nonce));
    }
}

#[test]
fn request_composes_its_parts_and_differs_in_nonce() {
    let first = ClientAuthRequest::new(sample_build_info(), sample_system_info());
    let second = ClientAuthRequest::new(sample_build_info(), sample_system_info());
    assert_eq!(first.build_info.build_id, "abc");
    assert_eq!(first.system_info.os_fingerprint, "linux-x86_64-unix");
    assert_eq!(first.nonce.len(), 72);
    assert_ne!(first.nonce, second.nonce);
}

#[test]
fn fingerprint_is_complete_without_any_source() {
    let info = SystemInfo::collect(1, None, None, "linux", "x86_64", "unix");
    assert_eq!(info.mac_hash.len(), 64);
    assert_eq!(info.machine_id.len(), 32);
    assert!(!info.os_fingerprint.is_empty());
    assert!(info.mac_hash.chars().all(|c| c.is_ascii_hexdigit()));
    assert!(info.machine_id.chars().all(|c| c.is_ascii_hexdigit()));
}

#[test]
fn mac_hash_depends_on_its_inputs() {
    let base = SystemInfo::get_mac_hash("host", 1, Some("user"));
    assert_eq!(base, SystemInfo::get_mac_hash("host", 1, Some("user")));
    assert_ne!(base, SystemInfo::get_mac_hash("host", 2, Some("user")));
    assert_ne!(base, SystemInfo::get_mac_hash("other", 1, Some("user")));
    assert_ne!(base, SystemInfo::get_mac_hash("host", 1, None));
}

#[test]
fn machine_id_trims_the_platform_source() {
    assert_eq!(
        SystemInfo::get_machine_id(Some("  0123456789abcdef\n"), "host"),
        "0123456789abcdef"
    );
}

#[test]
fn machine_id_falls_back_deterministically() {
    let first = SystemInfo::get_machine_id(None, "host");
    let second = SystemInfo::get_machine_id(None, "host");
    assert_eq!(first, second);
    assert_eq!(first.len(), 32);
    assert_ne!(first, SystemInfo::get_machine_id(None, "other"));
}

#[test]
fn platform_uuid_is_read_from_a_registry_dump() {
    let dump = "+-o IOPlatformExpertDevice  <class IOPlatformExpertDevice>\n    {\n      \"IOPlatformSerialNumber\" = \"C02XYZ\"\n      \"IOPlatformUUID\" = \"A1B2C3D4-E5F6-0718-293A-4B5C6D7E8F90\"\n    }\n";
    assert_eq!(
        extract_platform_uuid(dump).as_deref(),
        Some("A1B2C3D4-E5F6-0718-293A-4B5C6D7E8F90")
    );
}

#[test]
fn platform_uuid_is_absent_from_an_unrelated_dump() {
    assert_eq!(extract_platform_uuid("no identifiers here\nnone at all\n"), None);
    assert_eq!(extract_platform_uuid(""), None);
}

#[test]
fn platform_uuid_skips_lines_without_a_quoted_value() {
    let dump = "IOPlatformUUID with no quotes\n\"IOPlatformUUID\" = \"THE-REAL-ONE\"\n";
    assert_eq!(extract_platform_uuid(dump).as_deref(), Some("THE-REAL-ONE"));
}

#[test]
fn os_fingerprint_joins_with_hyphens() {
    assert_eq!(
        SystemInfo::get_os_fingerprint("linux", "x86_64", "unix"),
        "linux-x86_64-unix"
    );
}

#[test]
fn boot_time_is_an_hour_before_the_reading() {
    assert_eq!(SystemInfo::get_boot_time(1_700_000_000), 1_699_996_400);
    assert_eq!(SystemInfo::get_boot_time(i64::MIN), i64::MIN);
}

#[test]
fn rejection_is_a_parsed_response_not_a_transport_error() {
    let response = AuthResponse {
        success: false,
        client_id: None,
        trust_score: None,
        warnings: Vec::new(),
        error: Some("rejected".to_string()),
    };
    assert_eq!(response.outcome(), AuthOutcome::Rejected);
    assert_ne!(response.outcome(), AuthOutcome::Accepted);
}

#[test]
fn acceptance_and_degraded_replies_branch_apart() {
    let accepted = AuthResponse {
        success: true,
        client_id: Some("client-7".to_string()),
        trust_score: Some(88),
        warnings: vec!["first contact".to_string()],
        error: None,
    };
    assert_eq!(accepted.outcome(), AuthOutcome::Accepted);
    let degraded = AuthResponse {
        success: false,
        client_id: None,
        trust_score: None,
        warnings: Vec::new(),
        error: None,
    };
    assert_eq!(degraded.outcome(), AuthOutcome::Degraded);
}

#[test]
fn transport_failures_are_distinct_kinds() {
    assert_ne!(TransportError::ConnectionFailed, TransportError::MalformedResponse);
}

#[test]
fn endpoint_is_the_well_known_auth_path() {
    let authenticator = ClientAuthenticator::new("http://localhost:3000");
    assert_eq!(authenticator.endpoint(), "http://localhost:3000/v1/client/auth");
}
