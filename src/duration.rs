//! Turning a configuration value into a whole number of seconds.
use vstd::prelude::*;
use vstd::string::StrSliceExecFns;

verus! {

/// Why a configuration value is not a duration.
#[derive(Clone, Copy, Debug, PartialEq, Eq, Structural)]
pub enum DurationError {
    /// The count is not a decimal number that fits in a `u64`.
    InvalidNumber,
    /// The text names a unit other than `h`, `m` or `s`.
    UnsupportedUnit,
    /// The count is negative, or too large once scaled to seconds.
    OutOfRange,
    /// The value is neither a string nor a number.
    WrongType,
}

/// A configuration value, as far as duration parsing reads it.
/// Fractional numbers are converted by the caller.
#[derive(Debug)]
pub enum ConfigValue {
    Text(String),
    Integer(i64),
    Other,
}

pub open spec fn is_digit(c: char) -> bool {
    '0' <= c && c <= '9'
}

pub open spec fn digit_value(c: char) -> nat {
    (c as u32 - '0' as u32) as nat
}

/// The number written by a string of decimal digits.
pub open spec fn decimal_value(s: Seq<char>) -> nat
    decreases s.len(),
{
    if s.len() == 0 {
        0
    } else {
        decimal_value(s.drop_last()) * 10 + digit_value(s.last())
    }
}

/// The digits of an unsigned number, past an optional leading `+`.
pub open spec fn unsigned_digits(s: Seq<char>) -> Seq<char> {
    if s.len() > 0 && s[0] == '+' {
        s.drop_first()
    } else {
        s
    }
}

/// The `u64` that a text denotes, as `u64`'s `FromStr` reads it.
pub open spec fn count_of(s: Seq<char>) -> Option<u64> {
    let d = unsigned_digits(s);
    if d.len() > 0 && (forall|i: int| 0 <= i < d.len() ==> is_digit(#[trigger] d[i]))
        && decimal_value(d) <= u64::MAX {
        Some(decimal_value(d) as u64)
    } else {
        None
    }
}

/// Seconds in one of a unit, for the units that a duration may name.
pub open spec fn unit_factor(unit: Seq<char>) -> Option<nat> {
    if unit == seq!['h'] {
        Some(3600)
    } else if unit == seq!['m'] {
        Some(60)
    } else if unit == seq!['s'] {
        Some(1)
    } else {
        None
    }
}

/// A count scaled by a factor, as seconds that must fit in a `u64`.
pub open spec fn scaled_seconds(count: Option<u64>, factor: nat) -> Result<u64, DurationError> {
    match count {
        None => Err(DurationError::InvalidNumber),
        Some(n) => if n * factor <= u64::MAX {
            Ok((n * factor) as u64)
        } else {
            Err(DurationError::OutOfRange)
        },
    }
}

/// A count and a unit given apart: the unit is checked first.
pub open spec fn seconds_with_unit(count: Seq<char>, unit: Seq<char>) -> Result<u64, DurationError> {
    match unit_factor(unit) {
        None => Err(DurationError::UnsupportedUnit),
        Some(f) => scaled_seconds(count_of(count), f),
    }
}

/// The index of the first space in `s`, or its length where it has none.
pub open spec fn space_index(s: Seq<char>) -> nat
    decreases s.len(),
{
    if s.len() == 0 {
        0
    } else if s[0] == ' ' {
        0
    } else {
        1 + space_index(s.drop_first())
    }
}

/// Seconds written by a text already in lower case: `"<count> <unit>"`,
/// split at the first space, or a bare count of seconds.
pub open spec fn lowered_text_seconds(t: Seq<char>) -> Result<u64, DurationError> {
    let i = space_index(t);
    if i < t.len() {
        seconds_with_unit(t.take(i as int), trim_of(t.skip(i + 1 as int)))
    } else {
        scaled_seconds(count_of(t), 1)
    }
}

/// Seconds denoted by a configuration value.
pub open spec fn value_seconds(v: ConfigValue) -> Result<u64, DurationError> {
    match v {
        ConfigValue::Text(s) => lowered_text_seconds(lower_of(s@)),
        ConfigValue::Integer(i) => if i >= 0 {
            Ok(i as u64)
        } else {
            Err(DurationError::OutOfRange)
        },
        ConfigValue::Other => Err(DurationError::WrongType),
    }
}

proof fn lemma_prefix_value_le(s: Seq<char>, j: int)
    requires
        0 <= j <= s.len(),
        forall|i: int| 0 <= i < s.len() ==> is_digit(#[trigger] s[i]),
    ensures
        decimal_value(s.take(j)) <= decimal_value(s),
    decreases s.len(),
{
    if j == s.len() {
        assert(s.take(j) =~= s);
    } else {
        let p = s.drop_last();
        assert(s.take(j) =~= p.take(j));
        lemma_prefix_value_le(p, j);
    }
}

/// Reads a decimal count as `u64`'s `FromStr` does: an optional `+`, then
/// one or more digits, with a value that fits.
pub fn parse_count(s: &str) -> (r: Option<u64>)
    ensures
        r == count_of(s@),
{
    let n = s.unicode_len();
    let start: usize = if n > 0 && s.get_char(0) == '+' { 1 } else { 0 };
    let ghost d = unsigned_digits(s@);
    assert(d =~= s@.skip(start as int));
    if start == n {
        return None;
    }
    let mut v: u64 = 0;
    let mut i: usize = start;
    while i < n
        invariant
            start <= i <= n,
            n == s@.len(),
            d =~= s@.skip(start as int),
            d == unsigned_digits(s@),
            forall|k: int| 0 <= k < i - start ==> is_digit(#[trigger] d[k]),
            v == decimal_value(d.take(i - start)),
        decreases n - i,
    {
        let c = s.get_char(i);
        if c < '0' || c > '9' {
            assert(!is_digit(d[i - start]));
            return None;
        }
        let dv = (c as u32 - '0' as u32) as u64;
        let k = i - start;
        assert(d.take(k + 1).drop_last() =~= d.take(k as int));
        assert(d.take(k + 1).last() == c);
        match v.checked_mul(10) {
            None => {
                proof { lemma_overflow_rejected(d, k as int); }
                return None;
            }
            Some(t) => match t.checked_add(dv) {
                None => {
                    proof { lemma_overflow_rejected(d, k as int); }
                    return None;
                }
                Some(w) => {
                    v = w;
                }
            }
        }
        i = i + 1;
    }
    assert(d.take(n - start) =~= d);
    Some(v)
}

proof fn lemma_overflow_rejected(d: Seq<char>, k: int)
    requires
        0 <= k < d.len(),
        decimal_value(d.take(k + 1)) > u64::MAX,
    ensures
        count_of_digits_none(d),
{
    if forall|i: int| 0 <= i < d.len() ==> is_digit(#[trigger] d[i]) {
        lemma_prefix_value_le(d, k + 1);
    }
}

spec fn count_of_digits_none(d: Seq<char>) -> bool {
    !(d.len() > 0 && (forall|i: int| 0 <= i < d.len() ==> is_digit(#[trigger] d[i]))
        && decimal_value(d) <= u64::MAX)
}

fn scale(count: Option<u64>, factor: u64) -> (r: Result<u64, DurationError>)
    ensures
        r == scaled_seconds(count, factor as nat),
{
    match count {
        None => Err(DurationError::InvalidNumber),
        Some(n) => match n.checked_mul(factor) {
            Some(v) => Ok(v),
            None => Err(DurationError::OutOfRange),
        },
    }
}

/// Seconds for a count and a unit given apart (`"5"` and `"m"` give 300).
pub fn parse_with_unit(count: &str, unit: &str) -> (r: Result<u64, DurationError>)
    ensures
        r == seconds_with_unit(count@, unit@),
{
    let len = unit.unicode_len();
    if len != 1 {
        assert(unit@ != seq!['h'] && unit@ != seq!['m'] && unit@ != seq!['s']);
        return Err(DurationError::UnsupportedUnit);
    }
    let u = unit.get_char(0);
    let factor: u64 = if u == 'h' {
        assert(unit@ =~= seq!['h']);
        3600
    } else if u == 'm' {
        assert(unit@ =~= seq!['m']);
        60
    } else if u == 's' {
        assert(unit@ =~= seq!['s']);
        1
    } else {
        assert(unit@ != seq!['h'] && unit@ != seq!['m'] && unit@ != seq!['s']);
        return Err(DurationError::UnsupportedUnit);
    };
    scale(parse_count(count), factor)
}

proof fn lemma_space_index(s: Seq<char>, i: int)
    requires
        0 <= i <= s.len(),
        forall|k: int| 0 <= k < i ==> #[trigger] s[k] != ' ',
        i < s.len() ==> s[i] == ' ',
    ensures
        space_index(s) == i,
    decreases i,
{
    if i > 0 {
        let t = s.drop_first();
        assert forall|k: int| 0 <= k < i - 1 implies #[trigger] t[k] != ' ' by {
            assert(t[k] == s[k + 1]);
        }
        lemma_space_index(t, i - 1);
        assert(s[0] != ' ');
    }
}

/// Seconds written by a text already in lower case: `"<count> <unit>"` with
/// the unit one of `h`, `m`, `s`, or a bare count of seconds.
pub fn parse_lowered(t: &str) -> (r: Result<u64, DurationError>)
    ensures
        r == lowered_text_seconds(t@),
{
    let n = t.unicode_len();
    let mut i: usize = 0;
    while i < n && t.get_char(i) != ' '
        invariant
            i <= n,
            n == t@.len(),
            forall|k: int| 0 <= k < i ==> #[trigger] t@[k] != ' ',
        decreases n - i,
    {
        i = i + 1;
    }
    proof { lemma_space_index(t@, i as int); }
    if i < n {
        let count = t.substring_char(0, i);
        let rest = t.substring_char(i + 1, n);
        assert(rest@ =~= t@.skip(i + 1 as int));
        assert(count@ =~= t@.take(i as int));
        parse_with_unit(count, trim(rest))
    } else {
        scale(parse_count(t), 1)
    }
}

/// Seconds written by a text, read without regard to case.
pub fn parse_text(s: &str) -> (r: Result<u64, DurationError>)
    ensures
        r == lowered_text_seconds(lower_of(s@)),
{
    let lowered = lowercase(s);
    parse_lowered(lowered.as_str())
}

/// Seconds denoted by a configuration value: a text as `parse_text` reads
/// it, or a whole number of seconds that must not be negative.
pub fn parse_duration(v: &ConfigValue) -> (r: Result<u64, DurationError>)
    ensures
        r == value_seconds(*v),
{
    match v {
        ConfigValue::Text(s) => parse_text(s.as_str()),
        ConfigValue::Integer(i) => if *i >= 0 {
            Ok(*i as u64)
        } else {
            Err(DurationError::OutOfRange)
        },
        ConfigValue::Other => Err(DurationError::WrongType),
    }
}

/// What `str::to_lowercase` makes of a text.
pub uninterp spec fn lower_of(s: Seq<char>) -> Seq<char>;

/// What `str::trim` makes of a text.
pub uninterp spec fn trim_of(s: Seq<char>) -> Seq<char>;

/// Relies on `str::to_lowercase`: the lower-case form of a text depends on
/// its characters alone.
#[verifier::external_body]
fn lowercase(s: &str) -> (r: String)
    ensures
        r@ == lower_of(s@),
{
    s.to_lowercase()
}

/// Relies on `str::trim`: the text without leading and trailing white space
/// depends on its characters alone.
#[verifier::external_body]
fn trim(s: &str) -> (r: &str)
    ensures
        r@ == trim_of(s@),
{
    s.trim()
}

} // verus!
