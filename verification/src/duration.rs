//! Time spans and the textual form in which a timeout is given.

use vstd::prelude::*;
use vstd::string::*;
use crate::text::{decimal_value, is_digit, same_text, trim, trimmed};

verus! {

/// Nanoseconds in one second.
pub const NANOS_PER_SEC: u32 = 1_000_000_000;

/// A non-negative span of time with nanosecond resolution.
///
/// The two fields are kept in canonical form: the nanosecond part is always
/// below one second, so two spans are equal exactly when their fields are.
#[derive(Clone, Copy, Debug, PartialEq, Eq, Structural)]
pub struct TimeSpan {
    secs: u64,
    nanos: u32,
}

impl TimeSpan {
    #[verifier::type_invariant]
    spec fn canonical(self) -> bool {
        self.nanos < NANOS_PER_SEC
    }

    /// The whole span in nanoseconds.
    pub closed spec fn total_nanos(self) -> nat {
        (self.secs as nat) * (NANOS_PER_SEC as nat) + self.nanos as nat
    }

    /// Whole seconds of the span.
    pub closed spec fn spec_as_secs(self) -> nat {
        self.secs as nat
    }

    /// The part of the span below one second, in nanoseconds.
    pub closed spec fn spec_subsec_nanos(self) -> nat {
        self.nanos as nat
    }

    /// A span is fixed by its two parts, and the lower part is below a second.
    pub proof fn lemma_parts(self)
        ensures
            self.total_nanos() == self.spec_as_secs() * 1_000_000_000 + self.spec_subsec_nanos(),
    {
    }

    pub fn from_secs(secs: u64) -> (span: TimeSpan)
        ensures
            span.total_nanos() == secs as nat * 1_000_000_000,
            span.spec_as_secs() == secs,
            span.spec_subsec_nanos() == 0,
    {
        TimeSpan { secs, nanos: 0 }
    }

    pub fn from_millis(millis: u64) -> (span: TimeSpan)
        ensures
            span.total_nanos() == millis as nat * 1_000_000,
    {
        let sub: u32 = (millis % 1_000) as u32;
        TimeSpan { secs: millis / 1_000, nanos: sub * 1_000_000 }
    }

    pub fn from_micros(micros: u64) -> (span: TimeSpan)
        ensures
            span.total_nanos() == micros as nat * 1_000,
    {
        let sub: u32 = (micros % 1_000_000) as u32;
        TimeSpan { secs: micros / 1_000_000, nanos: sub * 1_000 }
    }

    pub fn from_nanos(nanos: u64) -> (span: TimeSpan)
        ensures
            span.total_nanos() == nanos as nat,
    {
        let sub: u32 = (nanos % 1_000_000_000) as u32;
        TimeSpan { secs: nanos / 1_000_000_000, nanos: sub }
    }

    pub fn as_secs(&self) -> (secs: u64)
        ensures
            secs == self.spec_as_secs(),
    {
        self.secs
    }

    pub fn subsec_nanos(&self) -> (nanos: u32)
        ensures
            nanos == self.spec_subsec_nanos(),
            nanos < NANOS_PER_SEC,
    {
        proof {
            use_type_invariant(self);
        }
        self.nanos
    }
}

/// The answer to a text that denotes no duration.
#[derive(Clone, Copy, Debug, PartialEq, Eq, Structural)]
pub struct InvalidDuration;

impl InvalidDuration {
    /// The words in which the rejection is reported.
    pub fn message(&self) -> (text: String)
        ensures
            text@ == "invalid duration"@,
    {
        String::from_str("invalid duration")
    }
}

/// How many ASCII digits `s` begins with.
pub open spec fn digit_prefix_len(s: Seq<char>) -> nat
    decreases s.len(),
{
    if s.len() > 0 && is_digit(s[0]) {
        1 + digit_prefix_len(s.drop_first())
    } else {
        0
    }
}

/// A duration text parted into its number and its unit: the number is the
/// longest run of leading digits, which must be non-empty and fit 64 bits,
/// and the unit is everything after it.
pub open spec fn split_point(s: Seq<char>) -> Option<(nat, Seq<char>)> {
    let n = digit_prefix_len(s) as int;
    if n == 0 || decimal_value(s.take(n)) > u64::MAX {
        None
    } else {
        Some((decimal_value(s.take(n)), s.skip(n)))
    }
}

/// `value * factor`, or the largest 64-bit number where that is exceeded.
pub open spec fn saturating_product(value: nat, factor: nat) -> nat {
    if value * factor > u64::MAX {
        u64::MAX as nat
    } else {
        value * factor
    }
}

/// The span in nanoseconds that `value` denotes under `unit`.
///
/// No unit and `s` mean seconds; `ns`, `us` and `ms` the decimal fractions
/// of a second; `m` and `h` minutes and hours, whose count of seconds stops
/// at the largest 64-bit number.
pub open spec fn span_nanos(value: nat, unit: Seq<char>) -> Option<nat> {
    if unit == Seq::<char>::empty() || unit == seq!['s'] {
        Some(value * 1_000_000_000)
    } else if unit == seq!['n', 's'] {
        Some(value)
    } else if unit == seq!['u', 's'] || unit == seq!['\u{c2}', '\u{b5}', 's'] {
        Some(value * 1_000)
    } else if unit == seq!['m', 's'] {
        Some(value * 1_000_000)
    } else if unit == seq!['m'] {
        Some(saturating_product(value, 60) * 1_000_000_000)
    } else if unit == seq!['h'] {
        Some(saturating_product(value, 3_600) * 1_000_000_000)
    } else {
        None
    }
}

/// The span in nanoseconds that a text denotes, if it denotes one: white
/// space at both ends is ignored, and what is left is a number and a unit.
pub open spec fn parsed_duration(s: Seq<char>) -> Option<nat> {
    match split_point(trimmed(s)) {
        Some((value, unit)) => span_nanos(value, unit),
        None => None,
    }
}

/// The digits counted by `digit_prefix_len` are digits, and the character
/// after them, if there is one, is none.
proof fn lemma_digit_prefix(s: Seq<char>, i: int)
    requires
        0 <= i <= s.len(),
        forall|k: int| 0 <= k < i ==> is_digit(s[k]),
        i < s.len() ==> !is_digit(s[i]),
    ensures
        digit_prefix_len(s) == i,
    decreases i,
{
    if i > 0 {
        let rest = s.drop_first();
        assert forall|k: int| 0 <= k < i - 1 implies is_digit(rest[k]) by {
            assert(rest[k] == s[k + 1]);
        }
        lemma_digit_prefix(rest, i - 1);
    }
}

/// Parts a duration text into its number and its unit.
pub fn split_duration(s: &str) -> (parts: Result<(u64, &str), InvalidDuration>)
    ensures
        match split_point(s@) {
            Some((value, unit)) => parts matches Ok((v, u)) && v == value && u@ == unit,
            None => parts is Err,
        },
{
    let n = s.unicode_len();
    let mut i: usize = 0;
    let mut value: u64 = 0;
    let mut overflow = false;
    assert(s@.take(0) =~= Seq::<char>::empty());
    while i < n
        invariant
            n == s@.len(),
            i <= n,
            forall|k: int| 0 <= k < i ==> is_digit(s@[k]),
            !overflow ==> value == decimal_value(s@.take(i as int)),
            overflow ==> decimal_value(s@.take(i as int)) > u64::MAX,
        ensures
            i < n ==> !is_digit(s@[i as int]),
        decreases n - i,
    {
        let c = s.get_char(i);
        if !('0' <= c && c <= '9') {
            break;
        }
        let d: u64 = (c as u32 - '0' as u32) as u64;
        proof {
            assert(s@.take(i as int + 1).drop_last() =~= s@.take(i as int));
            assert(s@.take(i as int + 1).last() == c);
        }
        if !overflow {
            if value > (u64::MAX - d) / 10 {
                overflow = true;
            } else {
                value = value * 10 + d;
            }
        }
        i += 1;
    }
    proof {
        lemma_digit_prefix(s@, i as int);
    }
    if i == 0 || overflow {
        return Err(InvalidDuration);
    }
    Ok((value, s.substring_char(i, n)))
}

/// Reads a duration such as `5s`, `250ms` or `2h`.
pub fn parse_duration(s: &str) -> (span: Result<TimeSpan, InvalidDuration>)
    ensures
        match parsed_duration(s@) {
            Some(nanos) => span matches Ok(d) && d.total_nanos() == nanos,
            None => span is Err,
        },
{
    let (value, unit) = match split_duration(trim(s)) {
        Ok(parts) => parts,
        Err(e) => {
            return Err(e);
        },
    };
    proof {
        reveal_strlit("");
        reveal_strlit("s");
        reveal_strlit("ns");
        reveal_strlit("us");
        reveal_strlit("\u{c2}\u{b5}s");
        reveal_strlit("ms");
        reveal_strlit("m");
        reveal_strlit("h");
        assert(""@ =~= Seq::<char>::empty());
        assert("s"@ =~= seq!['s']);
        assert("ns"@ =~= seq!['n', 's']);
        assert("us"@ =~= seq!['u', 's']);
        assert("\u{c2}\u{b5}s"@ =~= seq!['\u{c2}', '\u{b5}', 's']);
        assert("ms"@ =~= seq!['m', 's']);
        assert("m"@ =~= seq!['m']);
        assert("h"@ =~= seq!['h']);
    }
    if same_text(unit, "") || same_text(unit, "s") {
        Ok(TimeSpan::from_secs(value))
    } else if same_text(unit, "ns") {
        Ok(TimeSpan::from_nanos(value))
    } else if same_text(unit, "us") || same_text(unit, "\u{c2}\u{b5}s") {
        Ok(TimeSpan::from_micros(value))
    } else if same_text(unit, "ms") {
        Ok(TimeSpan::from_millis(value))
    } else if same_text(unit, "m") {
        Ok(TimeSpan::from_secs(saturating_mul_u64(value, 60)))
    } else if same_text(unit, "h") {
        Ok(TimeSpan::from_secs(saturating_mul_u64(value, 3_600)))
    } else {
        Err(InvalidDuration)
    }
}

/// `value * factor`, stopping at the largest 64-bit number.
fn saturating_mul_u64(value: u64, factor: u64) -> (product: u64)
    requires
        factor > 0,
    ensures
        product == saturating_product(value as nat, factor as nat),
{
    if value > u64::MAX / factor {
        assert(value * factor > u64::MAX) by (nonlinear_arith)
            requires
                value > u64::MAX / factor,
                factor > 0,
        ;
        u64::MAX
    } else {
        assert(value * factor <= u64::MAX) by (nonlinear_arith)
            requires
                value <= u64::MAX / factor,
                factor > 0,
        ;
        value * factor
    }
}

} // verus!
