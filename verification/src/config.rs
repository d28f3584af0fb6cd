//! The configuration surface: the service endpoint and the concurrency
//! ceiling.
//!
//! Both values are resolved once, before the first call, and are fixed for
//! the life of the process. The endpoint is required: without it no call can
//! be made, so its absence is a fatal startup condition. The ceiling is
//! optional: when it is absent a small positive default applies, and a value
//! that is present but not a positive integer is a fatal startup condition
//! as well. The parsing itself is verified here; reading the process
//! environment, and aborting on a fatal condition, is the unverified
//! caller's part.

use vstd::prelude::*;

use vstd::string::StringSliceAdditionalSpecFns;

verus! {

/// The concurrency ceiling that applies when none is configured.
pub const DEFAULT_CEILING: u32 = 3;

/// A fatal startup condition: the process must not begin serving calls.
#[derive(Debug, Clone, PartialEq, Eq)]
pub enum ConfigError {
    /// No service endpoint is configured.
    MissingEndpoint,
    /// A concurrency ceiling is configured but is not a positive integer
    /// in range.
    InvalidCeiling,
}

/// Whether `b` is the encoding of a decimal digit.
pub open spec fn is_decimal_digit(b: u8) -> bool {
    48 <= b <= 57
}

/// The digit that `b` encodes.
pub open spec fn digit_value(b: u8) -> nat {
    (b - 48) as nat
}

/// Whether every byte of `s` encodes a decimal digit.
pub open spec fn all_digits(s: Seq<u8>) -> bool {
    forall|i: int| 0 <= i < s.len() ==> is_decimal_digit(#[trigger] s[i])
}

/// The number that the digit string `s` denotes, most significant digit
/// first.
pub open spec fn decimal_value(s: Seq<u8>) -> nat
    decreases s.len(),
{
    if s.len() == 0 {
        0
    } else {
        decimal_value(s.drop_last()) * 10 + digit_value(s.last())
    }
}

/// Whether `s` is an acceptable ceiling: a nonempty string of decimal
/// digits denoting a positive number that fits the counter's type.
pub open spec fn valid_ceiling_text(s: Seq<u8>) -> bool {
    &&& s.len() > 0
    &&& all_digits(s)
    &&& 1 <= decimal_value(s) <= u32::MAX
}

/// What parsing a configured ceiling yields: its value when the text is
/// acceptable, a fatal configuration error otherwise.
pub open spec fn spec_ceiling_of(s: Seq<u8>) -> Result<u32, ConfigError> {
    if valid_ceiling_text(s) {
        Result::Ok(decimal_value(s) as u32)
    } else {
        Result::Err(ConfigError::InvalidCeiling)
    }
}

/// A digit string denotes at least as much as any of its prefixes:
/// appending digits never shrinks the denoted number.
pub proof fn lemma_decimal_prefix_le(s: Seq<u8>, k: int)
    requires
        0 <= k <= s.len(),
    ensures
        decimal_value(s.take(k)) <= decimal_value(s),
    decreases s.len() - k,
{
    if k < s.len() {
        assert(s.drop_last().take(k) =~= s.take(k));
        lemma_decimal_prefix_le(s.drop_last(), k);
    } else {
        assert(s.take(k) =~= s);
    }
}

/// Parse a configured concurrency ceiling. Returns the denoted number
/// exactly when the text is a nonempty string of decimal digits whose value
/// is positive and fits the counter's type; any other text is a fatal
/// configuration error.
pub fn parse_ceiling(raw: &str) -> (r: Result<u32, ConfigError>)
    ensures
        r == spec_ceiling_of(raw.spec_bytes()),
{
    let bytes = raw.as_bytes();
    let n = bytes.len();
    if n == 0 {
        return Err(ConfigError::InvalidCeiling);
    }
    let mut acc: u64 = 0;
    let mut i: usize = 0;
    while i < n
        invariant
            0 <= i <= n,
            n == raw.spec_bytes().len(),
            bytes@ == raw.spec_bytes(),
            all_digits(bytes@.take(i as int)),
            acc == decimal_value(bytes@.take(i as int)),
            acc <= u32::MAX,
        decreases n - i,
    {
        let b = bytes[i];
        if b < 48 || b > 57 {
            proof {
                assert(!is_decimal_digit(bytes@[i as int]));
            }
            return Err(ConfigError::InvalidCeiling);
        }
        let next: u64 = acc * 10 + ((b - 48) as u64);
        proof {
            assert(bytes@.take(i as int + 1).drop_last() =~= bytes@.take(i as int));
            assert(bytes@.take(i as int + 1).last() == bytes@[i as int]);
        }
        if next > (u32::MAX as u64) {
            proof {
                if all_digits(raw.spec_bytes()) {
                    lemma_decimal_prefix_le(raw.spec_bytes(), i as int + 1);
                }
            }
            return Err(ConfigError::InvalidCeiling);
        }
        acc = next;
        i = i + 1;
    }
    proof {
        assert(bytes@.take(n as int) =~= bytes@);
    }
    if acc == 0 {
        return Err(ConfigError::InvalidCeiling);
    }
    Ok(acc as u32)
}

/// Resolve the concurrency ceiling from an optionally configured value:
/// the default when none is configured, the parsed value or a fatal error
/// otherwise.
pub fn ceiling_from_config(raw: Option<&str>) -> (r: Result<u32, ConfigError>)
    ensures
        raw is None ==> r == Result::<u32, ConfigError>::Ok(DEFAULT_CEILING),
        raw matches Some(s) ==> r == spec_ceiling_of(s.spec_bytes()),
        r matches Ok(c) ==> c >= 1,
{
    match raw {
        None => Ok(DEFAULT_CEILING),
        Some(s) => parse_ceiling(s),
    }
}

/// Resolve the service endpoint from an optionally configured value: the
/// value itself when one is configured, and a fatal error when none is —
/// the process must not proceed with an undefined endpoint.
pub fn endpoint_from_config(raw: Option<String>) -> (r: Result<String, ConfigError>)
    ensures
        raw matches Some(url) ==> r == Result::<String, ConfigError>::Ok(url),
        raw is None ==> r == Result::<String, ConfigError>::Err(ConfigError::MissingEndpoint),
{
    match raw {
        Some(url) => Ok(url),
        None => Err(ConfigError::MissingEndpoint),
    }
}

} // verus!
