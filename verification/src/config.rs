//! The rules by which the settings of the environment are read. Reading the
//! environment is the caller's; what a setting means is said here.

use vstd::prelude::*;
use vstd::string::StringExecFns;
use vstd::utf8::{encode_utf8, encode_utf8_decode_utf8};

verus! {

/// The setting `value`, if it is set, as the contracts speak of it.
pub open spec fn setting_text(value: Option<&str>) -> Option<Seq<char>> {
    match value {
        Some(value) => Some(value@),
        None => None,
    }
}

/// The setting `value` where it is set, `default` where it is not.
pub open spec fn setting_or(value: Option<Seq<char>>, default: Seq<char>) -> Seq<char> {
    match value {
        Some(value) => value,
        None => default,
    }
}

/// The log filter for the settings `rust_log` and `otel_log_level`: the
/// directives of `rust_log`, `info` where it is not set, followed by a
/// directive that sets the level of the target `otel` to `otel_log_level`,
/// `debug` where that is not set.
pub open spec fn filter_directives(
    rust_log: Option<Seq<char>>,
    otel_log_level: Option<Seq<char>>,
) -> Seq<char> {
    setting_or(rust_log, "info"@) + ",otel="@ + setting_or(otel_log_level, "debug"@)
}

/// Whether two texts are the same, character by character.
fn same_text(a: &str, b: &str) -> (same: bool)
    ensures
        same == (a@ == b@),
{
    let a_bytes = a.as_bytes();
    let b_bytes = b.as_bytes();
    proof {
        encode_utf8_decode_utf8(a@);
        encode_utf8_decode_utf8(b@);
    }
    if a_bytes.len() != b_bytes.len() {
        return false;
    }
    let mut i: usize = 0;
    while i < a_bytes.len()
        invariant
            i <= a_bytes@.len(),
            a_bytes@.len() == b_bytes@.len(),
            a_bytes@ == encode_utf8(a@),
            b_bytes@ == encode_utf8(b@),
            forall|j: int| 0 <= j < i ==> a_bytes@[j] == b_bytes@[j],
        decreases a_bytes@.len() - i,
    {
        if a_bytes[i] != b_bytes[i] {
            return false;
        }
        i = i + 1;
    }
    assert(a_bytes@ =~= b_bytes@);
    true
}

/// Whether sending traces to the agent is switched on: the setting is set,
/// and to `true` exactly.
pub fn dd_enabled(setting: Option<&str>) -> (enabled: bool)
    ensures
        enabled == (setting_text(setting) == Some("true"@)),
{
    match setting {
        Some(value) => same_text(value, "true"),
        None => false,
    }
}

/// The log filter for the settings `rust_log` and `otel_log_level`.
pub fn log_filter_directives(rust_log: Option<&str>, otel_log_level: Option<&str>) -> (directives:
    String)
    ensures
        directives@ == filter_directives(setting_text(rust_log), setting_text(otel_log_level)),
{
    let log_level = match rust_log {
        Some(level) => level,
        None => "info",
    };
    let otel_level = match otel_log_level {
        Some(level) => level,
        None => "debug",
    };
    let mut directives = String::from_str(log_level);
    directives.append(",otel=");
    directives.append(otel_level);
    directives
}

} // verus!
