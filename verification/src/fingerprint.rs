//! Device fingerprint: semi-stable signals identifying the host machine,
//! each produced by a total fallback chain — a signal source that is
//! unavailable yields a documented substitute, never an error, and never
//! stops the collection of the other signals.

use crate::clock::now_unix_seconds;
use crate::hashing::{digest_hex, hex_of, lemma_hex_of_len, push_bytes, sha256_of};
use crate::text::{chars_of, contains_chars, contains_seq, split_char, split_chars, string_from_chars};
use vstd::bytes::{spec_u32_to_le_bytes, u32_to_le_bytes};
use vstd::prelude::*;
use vstd::string::*;
use vstd::utf8::encode_utf8;

verus! {

/// The machine-identifying signals sent alongside an attestation request.
#[derive(Clone, Debug)]
pub struct SystemInfo {
    pub mac_hash: String,
    pub machine_id: String,
    pub os_fingerprint: String,
    pub boot_time: i64,
}

/// The byte string hashed into the machine hash: the UTF-8 bytes of the
/// hostname, the process id as four little-endian bytes, and the UTF-8
/// bytes of the user name when one is known.
pub open spec fn mac_message(host: Seq<char>, pid: u32, user: Option<Seq<char>>) -> Seq<u8> {
    encode_utf8(host) + spec_u32_to_le_bytes(pid) + (match user {
        Some(u) => encode_utf8(u),
        None => Seq::empty(),
    })
}

/// The machine hash: the hexadecimal SHA-256 digest of `mac_message`.
pub open spec fn mac_hash_hex(host: Seq<char>, pid: u32, user: Option<Seq<char>>) -> Seq<char> {
    hex_of(sha256_of(mac_message(host, pid, user)))
}

/// The machine identifier used when no platform source is available: the
/// SHA-256 digest of a fixed salt followed by the hostname, truncated to
/// its first sixteen bytes and rendered in hexadecimal.
pub open spec fn fallback_machine_id(host: Seq<char>) -> Seq<char> {
    hex_of(sha256_of(encode_utf8("machine_id_fallback"@) + encode_utf8(host)).take(16))
}

/// The view of an optional string argument.
pub open spec fn opt_view(s: Option<&str>) -> Option<Seq<char>> {
    match s {
        Some(v) => Some(v@),
        None => None,
    }
}

/// Relies on `hostname::get`: the machine's hostname, which varies by
/// host, so nothing is promised of the value; `None` when the lookup
/// fails.
#[verifier::external_body]
fn lookup_hostname() -> Option<String> {
    match hostname::get() {
        Ok(name) => Some(name.to_string_lossy().to_string()),
        Err(_) => None,
    }
}

/// The name of `str::trim`'s result: the input with leading and trailing
/// whitespace removed, a function of the characters alone. Unicode decides
/// which characters count as whitespace, so the value is not restated
/// here.
pub uninterp spec fn trimmed_of(s: Seq<char>) -> Seq<char>;

/// Relies on `str::trim`: the result only removes characters, so it is
/// never longer than the input, and it depends on the input characters
/// alone.
#[verifier::external_body]
fn trim_to_string(s: &str) -> (r: String)
    ensures
        r@ == trimmed_of(s@),
        r@.len() <= s@.len(),
{
    String::from_str(s.trim())
}

impl SystemInfo {
    /// Gathers the four fingerprint signals. The hostname is looked up
    /// here (falling back to the literal `"unknown"`); the process id, the
    /// optional user name, the contents of the platform's stable
    /// machine-identifier source, the platform naming constants and the
    /// clock reading come from the caller, since only the embedding
    /// process can read them. Collection is total: no missing source
    /// makes it fail, and no field is left empty by a fallback.
    pub fn collect(
        pid: u32,
        user: Option<&str>,
        machine_id_source: Option<&str>,
        os: &str,
        arch: &str,
        family: &str,
    ) -> (r: Self)
        ensures
            exists|host: Seq<char>|
                {
                    &&& r.mac_hash@ == mac_hash_hex(host, pid, opt_view(user))
                    &&& r.machine_id@ == (match machine_id_source {
                        Some(s) => trimmed_of(s@),
                        None => fallback_machine_id(host),
                    })
                },
            r.mac_hash@.len() == 64,
            machine_id_source is None ==> r.machine_id@.len() == 32,
            r.os_fingerprint@ == os@ + "-"@ + arch@ + "-"@ + family@,
            r.os_fingerprint@.len() > 0,
    {
        let host = resolve_hostname();
        let mac_hash = Self::get_mac_hash(host.as_str(), pid, user);
        let machine_id = Self::get_machine_id(machine_id_source, host.as_str());
        let os_fingerprint = Self::get_os_fingerprint(os, arch, family);
        let boot_time = Self::get_boot_time(now_unix_seconds());
        let r = Self { mac_hash, machine_id, os_fingerprint, boot_time };
        proof {
            let h = host@;
            assert(r.mac_hash@ == mac_hash_hex(h, pid, opt_view(user)) && r.machine_id@ == (
            match machine_id_source {
                Some(s) => trimmed_of(s@),
                None => fallback_machine_id(h),
            }));
        }
        r
    }

    /// The machine hash: a coarse tie-breaker derived from hostname,
    /// process id and optional user name. Always 64 hexadecimal digits.
    pub fn get_mac_hash(hostname: &str, pid: u32, user: Option<&str>) -> (r: String)
        ensures
            r@ == mac_hash_hex(hostname@, pid, opt_view(user)),
            r@.len() == 64,
    {
        let mut message: Vec<u8> = Vec::new();
        push_bytes(&mut message, hostname.as_bytes());
        let pid_bytes = u32_to_le_bytes(pid);
        push_bytes(&mut message, pid_bytes.as_slice());
        match user {
            Some(name) => push_bytes(&mut message, name.as_bytes()),
            None => (),
        }
        proof {
            assert(message@ =~= mac_message(hostname@, pid, opt_view(user)));
        }
        digest_hex(message.as_slice())
    }

    /// The platform-stable machine identifier: the trimmed contents of the
    /// platform's identifier source when one could be read, else a
    /// 32-digit deterministic fallback derived from the hostname. Never
    /// fails, whichever source is missing.
    pub fn get_machine_id(source: Option<&str>, hostname: &str) -> (r: String)
        ensures
            source is Some ==> r@ == trimmed_of(source->0@),
            source is None ==> r@ == fallback_machine_id(hostname@) && r@.len() == 32,
    {
        match source {
            Some(contents) => trim_to_string(contents),
            None => {
                let mut message: Vec<u8> = Vec::new();
                push_bytes(&mut message, "machine_id_fallback".as_bytes());
                push_bytes(&mut message, hostname.as_bytes());
                let mut digest = crate::hashing::sha256_bytes(message.as_slice());
                digest.truncate(16);
                proof {
                    lemma_hex_of_len(sha256_of(message@).take(16));
                    assert(message@ =~= encode_utf8("machine_id_fallback"@) + encode_utf8(
                        hostname@,
                    ));
                }
                crate::hashing::hex_encode(digest.as_slice())
            },
        }
    }

    /// The OS fingerprint: the operating system, architecture and family
    /// names joined by hyphens. Pure formatting; cannot fail.
    pub fn get_os_fingerprint(os: &str, arch: &str, family: &str) -> (r: String)
        ensures
            r@ == os@ + "-"@ + arch@ + "-"@ + family@,
            r@.len() == os@.len() + arch@.len() + family@.len() + 2,
    {
        proof {
            reveal_strlit("-");
        }
        let joined = String::from_str(os).concat("-").concat(arch).concat("-").concat(family);
        proof {
            assert(joined@ =~= os@ + "-"@ + arch@ + "-"@ + family@);
        }
        joined
    }

    /// The approximate boot time: one hour before the given clock reading,
    /// saturating at the far past. An advisory estimate, not a genuine
    /// boot-time query.
    pub fn get_boot_time(now: i64) -> (r: i64)
        ensures
            now >= i64::MIN + 3600 ==> r == now - 3600,
            now < i64::MIN + 3600 ==> r == i64::MIN,
    {
        if now >= i64::MIN + 3600 {
            now - 3600
        } else {
            i64::MIN
        }
    }
}

/// The looked-up hostname, or the literal `"unknown"` when the lookup
/// fails.
fn resolve_hostname() -> String {
    match lookup_hostname() {
        Some(name) => name,
        None => String::from_str("unknown"),
    }
}

/// The platform UUID in a firmware-registry dump, line by line: the first
/// line that mentions the platform-UUID key and carries at least four
/// quote-separated fields contributes its fourth field (the quoted value);
/// a dump with no such line yields nothing.
pub open spec fn platform_uuid_lines(lines: Seq<Seq<char>>) -> Option<Seq<char>>
    decreases lines.len(),
{
    if lines.len() == 0 {
        None
    } else if contains_seq(lines.first(), "IOPlatformUUID"@) && split_char(lines.first(), '"').len()
        > 3 {
        Some(split_char(lines.first(), '"')[3])
    } else {
        platform_uuid_lines(lines.drop_first())
    }
}

/// The platform UUID carried by a firmware-registry dump.
pub open spec fn platform_uuid_of(output: Seq<char>) -> Option<Seq<char>> {
    platform_uuid_lines(split_char(output, '\n'))
}

/// Picks the firmware platform UUID out of a registry dump, as printed by
/// the platform's registry tool: the quoted value on the first line that
/// names the platform-UUID key. `None` when no line carries one.
pub fn extract_platform_uuid(output: &str) -> (r: Option<String>)
    ensures
        r is Some ==> platform_uuid_of(output@) == Some(r->0@),
        r is None ==> platform_uuid_of(output@) is None,
{
    let chars = chars_of(output);
    let lines = split_chars(&chars, '\n');
    let marker = chars_of("IOPlatformUUID");
    let ghost all = split_char(output@, '\n');
    let mut k: usize = 0;
    proof {
        assert(all.skip(0) =~= all);
    }
    while k < lines.len()
        invariant
            k <= lines@.len(),
            lines@.len() == all.len(),
            forall|t: int| 0 <= t < lines@.len() ==> #[trigger] lines@[t]@ == all[t],
            marker@ == "IOPlatformUUID"@,
            all == split_char(output@, '\n'),
            platform_uuid_lines(all.skip(k as int)) == platform_uuid_of(output@),
        decreases lines@.len() - k,
    {
        proof {
            assert(all.skip(k as int).first() == all[k as int]);
            assert(all.skip(k as int).drop_first() =~= all.skip(k + 1));
        }
        if contains_chars(&lines[k], &marker) {
            let quotes = split_chars(&lines[k], '"');
            if quotes.len() > 3 {
                return Some(string_from_chars(&quotes[3]));
            }
        }
        k = k + 1;
    }
    proof {
        assert(all.skip(lines@.len() as int) =~= Seq::<Seq<char>>::empty());
    }
    None
}

} // verus!
