//! Small numeric helpers shared by the state model: conversions between
//! raw channel volumes and percentages, and decimal parsing for the
//! exact-volume input widget.

use vstd::prelude::*;

verus! {

/// The raw volume value that represents 100%.
pub const VOLUME_NORM: u32 = 65536;

/// The highest percentage the mixer will set.
pub const MAX_VOLUME_PERCENT: i16 = 150;

/// The raw volume a requested percentage maps to: clamped into
/// `0..=150` percent, then scaled so that 100% is `VOLUME_NORM`.
pub open spec fn spec_percent_to_volume(percent: int) -> int {
    if percent < 0 {
        0
    } else if percent > MAX_VOLUME_PERCENT {
        MAX_VOLUME_PERCENT * VOLUME_NORM / 100
    } else {
        percent * VOLUME_NORM / 100
    }
}

/// Converts a requested percentage to a raw volume value.
pub fn percent_to_volume(percent: i16) -> (r: u32)
    ensures
        r == spec_percent_to_volume(percent as int),
{
    if percent < 0 {
        0
    } else if percent > MAX_VOLUME_PERCENT {
        (MAX_VOLUME_PERCENT as u32) * VOLUME_NORM / 100
    } else {
        (percent as u32) * VOLUME_NORM / 100
    }
}

/// The percentage a raw volume displays as, saturated at `u16::MAX`.
pub open spec fn spec_volume_to_percent(volume: int) -> int {
    if volume * 100 / (VOLUME_NORM as int) > u16::MAX {
        u16::MAX as int
    } else {
        volume * 100 / (VOLUME_NORM as int)
    }
}

/// Converts a raw volume value to the percentage it displays as.
pub fn volume_to_percent(volume: u32) -> (r: u16)
    ensures
        r == spec_volume_to_percent(volume as int),
{
    let scaled: u64 = (volume as u64) * 100 / (VOLUME_NORM as u64);
    if scaled > u16::MAX as u64 {
        u16::MAX
    } else {
        scaled as u16
    }
}

/// True for the ten ASCII decimal digits.
pub open spec fn spec_is_digit(c: char) -> bool {
    48 <= c as int && c as int <= 57
}

/// The numeric value of a sequence of decimal digits, most significant
/// first.
pub open spec fn spec_digits_value(s: Seq<char>) -> int
    decreases s.len(),
{
    if s.len() == 0 {
        0
    } else {
        spec_digits_value(s.drop_last()) * 10 + (s.last() as int - 48)
    }
}

/// What decimal parsing of a character sequence yields: the value when
/// the text is one or more digits and fits in a `u16`, nothing
/// otherwise.
pub open spec fn spec_parse_u16(s: Seq<char>) -> Option<u16> {
    if s.len() > 0 && (forall|i: int| 0 <= i < s.len() ==> spec_is_digit(s[i]))
        && spec_digits_value(s) <= u16::MAX {
        Option::Some(spec_digits_value(s) as u16)
    } else {
        Option::None
    }
}

/// Once a digit prefix exceeds `u16::MAX`, the whole digit text does too.
proof fn lemma_digits_value_monotone(s: Seq<char>, k: int)
    requires
        0 < k <= s.len(),
        forall|i: int| 0 <= i < s.len() ==> spec_is_digit(s[i]),
        spec_digits_value(s.subrange(0, k)) > u16::MAX,
    ensures
        spec_digits_value(s) > u16::MAX,
    decreases s.len() - k,
{
    if k < s.len() {
        assert(s.subrange(0, k + 1).drop_last() =~= s.subrange(0, k));
        assert(spec_is_digit(s.subrange(0, k + 1).last()));
        lemma_digits_value_monotone(s, k + 1);
    } else {
        assert(s.subrange(0, k) =~= s);
    }
}

/// Parses a decimal number from text, accepting exactly the texts that
/// are one or more digits denoting a value that fits in a `u16`.
pub fn parse_u16(s: &String) -> (r: Option<u16>)
    ensures
        r == spec_parse_u16(s@),
{
    let n = s.as_str().unicode_len();
    if n == 0 {
        return Option::None;
    }
    let mut acc: u32 = 0;
    let mut i: usize = 0;
    while i < n
        invariant
            0 < n == s@.len(),
            0 <= i <= n,
            forall|j: int| 0 <= j < i ==> spec_is_digit(s@[j]),
            acc == spec_digits_value(s@.subrange(0, i as int)),
            acc <= u16::MAX,
        decreases n - i,
    {
        let c = s.as_str().get_char(i);
        let u = c as u32;
        if !(48 <= u && u <= 57) {
            proof {
                assert(!spec_is_digit(s@[i as int]));
            }
            return Option::None;
        }
        let d: u32 = u - 48;
        let next: u32 = acc * 10 + d;
        proof {
            assert(s@.subrange(0, i + 1).drop_last() =~= s@.subrange(0, i as int));
            assert(s@.subrange(0, i + 1).last() == s@[i as int]);
        }
        if next > u16::MAX as u32 {
            proof {
                if forall|j: int| 0 <= j < s@.len() ==> spec_is_digit(s@[j]) {
                    lemma_digits_value_monotone(s@, i + 1);
                }
            }
            return Option::None;
        }
        acc = next;
        i = i + 1;
    }
    proof {
        assert(s@.subrange(0, n as int) =~= s@);
    }
    Option::Some(acc as u16)
}

/// The decimal digit characters, least position last, of a
/// non-negative number.
pub open spec fn spec_u16_digits(n: int) -> Seq<char>
    decreases n,
{
    if n < 10 {
        seq!["0123456789"@[if 0 <= n { n } else { 0 }]]
    } else {
        spec_u16_digits(n / 10).push("0123456789"@[n % 10])
    }
}

/// One decimal digit as text.
fn digit_str(d: u16) -> (r: String)
    requires
        d < 10,
    ensures
        r@ == seq!["0123456789"@[d as int]],
{
    let digits = "0123456789";
    proof {
        reveal_strlit("0123456789");
    }
    let s = digits.substring_char(d as usize, d as usize + 1);
    proof {
        assert(s@ =~= seq!["0123456789"@[d as int]]);
    }
    String::from_str(s)
}

/// Renders a number in decimal.
pub fn u16_to_string(n: u16) -> (r: String)
    ensures
        r@ == spec_u16_digits(n as int),
    decreases n,
{
    if n < 10 {
        digit_str(n)
    } else {
        let mut s = u16_to_string(n / 10);
        let d = digit_str(n % 10);
        s.append(d.as_str());
        s
    }
}

} // verus!
