//! Fresh identifiers and time stamps for frame headers, and the name of
//! the platform that the configuration payload reports.

use vstd::prelude::*;
use vstd::string::*;

verus! {

/// A lower-case hexadecimal digit.
pub open spec fn is_lower_hex(c: char) -> bool {
    ('0' <= c && c <= '9') || ('a' <= c && c <= 'f')
}

/// Thirty-two lower-case hexadecimal digits: the shape of a correlation or
/// connection id.
pub open spec fn is_hex_id(s: Seq<char>) -> bool {
    &&& s.len() == 32
    &&& forall|i: int| 0 <= i < 32 ==> is_lower_hex(#[trigger] s[i])
}

/// Relies on uuid's `Uuid::new_v4` and its `simple` format: a random
/// version-4 UUID written as 32 lower-case hex digits, without hyphens.
#[verifier::external_body]
pub fn generate_uuid() -> (r: String)
    ensures
        is_hex_id(r@),
{
    uuid::Uuid::new_v4().simple().to_string()
}

/// A character that an RFC 3339 time stamp with a numeric offset holds.
pub open spec fn is_timestamp_char(c: char) -> bool {
    ('0' <= c && c <= '9') || c == '-' || c == '+' || c == ':' || c == '.' || c == 'T'
}

/// A short RFC 3339 time stamp: digits, `-`, `+`, `:`, `.` and `T` only.
pub open spec fn is_timestamp(s: Seq<char>) -> bool {
    &&& 0 < s.len() <= 64
    &&& forall|i: int| 0 <= i < s.len() ==> is_timestamp_char(#[trigger] s[i])
}

/// Relies on chrono's `Local::now` and `DateTime::to_rfc3339`: the current
/// local time written as digits for the year (with a sign outside 0..=9999),
/// month, day, hour, minute and second, an optional fraction after `.`, and
/// a `+hh:mm` or `-hh:mm` offset; under 40 characters in all. Which time it
/// is, is not promised.
#[verifier::external_body]
pub(crate) fn now_rfc3339() -> (r: String)
    ensures
        is_timestamp(r@),
{
    chrono::Local::now().to_rfc3339()
}

/// The name that the service knows a platform by, for an operating system
/// name as Rust spells it (`std::env::consts::OS`); `Unknown` for others.
pub open spec fn platform_of(os: Seq<char>) -> Seq<char> {
    if os == "windows"@ {
        "Windows"@
    } else if os == "macos"@ {
        "macOS"@
    } else if os == "linux"@ {
        "Linux"@
    } else if os == "freebsd"@ {
        "FreeBSD"@
    } else if os == "dragonfly"@ {
        "DragonflyBSD"@
    } else if os == "openbsd"@ {
        "OpenBSD"@
    } else if os == "netbsd"@ {
        "NetBSD"@
    } else if os == "ios"@ {
        "iOS"@
    } else if os == "android"@ {
        "Android"@
    } else {
        "Unknown"@
    }
}

/// The name that the service knows the operating system `os` by.
pub fn platform_name(os: &str) -> (r: &'static str)
    ensures
        r@ == platform_of(os@),
{
    let os = String::from_str(os);
    if os == String::from_str("windows") {
        "Windows"
    } else if os == String::from_str("macos") {
        "macOS"
    } else if os == String::from_str("linux") {
        "Linux"
    } else if os == String::from_str("freebsd") {
        "FreeBSD"
    } else if os == String::from_str("dragonfly") {
        "DragonflyBSD"
    } else if os == String::from_str("openbsd") {
        "OpenBSD"
    } else if os == String::from_str("netbsd") {
        "NetBSD"
    } else if os == String::from_str("ios") {
        "iOS"
    } else if os == String::from_str("android") {
        "Android"
    } else {
        "Unknown"
    }
}

} // verus!
