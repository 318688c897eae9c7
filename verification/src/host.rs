//! Decisions behind the host-OS utility commands: naming the machine's
//! architecture, judging a tray-watcher candidate on the session bus,
//! classifying archive entries, and validating a proxy address.  The
//! queries themselves — reading the build target, talking to the bus,
//! opening the archive, connecting through the proxy — happen in the
//! driver.

use vstd::prelude::*;
use crate::text::{chars_of, prefix_chars, spec_trim, str_eq, trim};

verus! {

/// The label reported for a machine architecture name: the toolchain's
/// spelling mapped onto the release channel's.
pub open spec fn spec_arch_label(arch: Seq<char>) -> Seq<char> {
    if arch == "aarch64"@ {
        "arm64"@
    } else if arch == "x86_64"@ {
        "amd64"@
    } else if arch == "i386"@ {
        "386"@
    } else {
        "unknown"@
    }
}

/// Map the toolchain's architecture name onto the release channel's.
pub fn arch_label(arch: &str) -> (r: &'static str)
    ensures
        r@ == spec_arch_label(arch@),
{
    if str_eq(arch, "aarch64") {
        "arm64"
    } else if str_eq(arch, "x86_64") {
        "amd64"
    } else if str_eq(arch, "i386") {
        "386"
    } else {
        "unknown"
    }
}

/// What one tray-watcher candidate on the session bus settles: nothing
/// when the name has no owner (the next candidate is tried); otherwise the
/// watcher's host-registered property, taken as supported when the
/// property cannot be read from an owner that exists.
pub open spec fn spec_tray_candidate(has_owner: bool, registered: Option<bool>) -> Option<bool> {
    if !has_owner {
        None
    } else {
        match registered {
            Some(r) => Some(r),
            None => Some(true),
        }
    }
}

/// Judge one tray-watcher candidate.
pub fn tray_candidate(has_owner: bool, registered: Option<bool>) -> (r: Option<bool>)
    ensures
        r == spec_tray_candidate(has_owner, registered),
{
    if !has_owner {
        None
    } else {
        match registered {
            Some(x) => Some(x),
            None => Some(true),
        }
    }
}

/// Whether an archive entry names a directory: its stored name ends with
/// either slash.
pub open spec fn spec_entry_is_dir(name: Seq<char>) -> bool {
    name.len() > 0 && (name.last() == '/' || name.last() == '\\')
}

/// Classify an archive entry by its stored name.
pub fn entry_is_dir(name: &str) -> (r: bool)
    ensures
        r == spec_entry_is_dir(name@),
{
    let n = name.unicode_len();
    if n == 0 {
        return false;
    }
    let c = name.get_char(n - 1);
    c == '/' || c == '\\'
}

/// The proxy address actually used for a connectivity test: the supplied
/// one with surrounding whitespace removed, or nothing when what remains
/// is empty — an empty address is rejected before any connection attempt.
pub open spec fn spec_proxy_url(url: Seq<char>) -> Option<Seq<char>> {
    if spec_trim(url).len() == 0 {
        None
    } else {
        Some(spec_trim(url))
    }
}

/// Validate and trim a proxy address.
pub fn proxy_url(url: &str) -> (r: Option<Vec<char>>)
    ensures
        match (r, spec_proxy_url(url@)) {
            (Some(v), Some(s)) => v@ == s,
            (None, None) => true,
            _ => false,
        },
{
    let t = trim(&chars_of(url));
    if t.len() == 0 {
        None
    } else {
        Some(t)
    }
}

/// How much of a successful test response is echoed back to the caller.
pub const SNIPPET_CHARS: usize = 200;

/// The leading characters of a test response that a connectivity report
/// quotes.
pub fn connection_snippet(body: &str) -> (r: Vec<char>)
    ensures
        r@ == if body@.len() <= SNIPPET_CHARS {
            body@
        } else {
            body@.take(SNIPPET_CHARS as int)
        },
{
    let v = chars_of(body);
    let r = prefix_chars(&v, SNIPPET_CHARS);
    r
}

} // verus!
