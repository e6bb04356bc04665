//! Conversion of a wind bearing, given as a decimal-degree string, to a
//! compass-point name.
//!
//! The bearing text is parsed as an optionally signed decimal number
//! (`sign? digits+ ('.' digits*)?`). Its value is normalized by modulo into
//! [0, 360) and mapped over sixteen sectors of 22.5 degrees each, centred on
//! the cardinal and intercardinal points; a bearing exactly on a sector
//! boundary resolves to the higher sector (round-half-up). The sector only
//! depends on the value truncated to hundredths of a degree, since every
//! boundary is a whole number of hundredths.

use vstd::arithmetic::div_mod::{
    lemma_add_mod_noop, lemma_fundamental_div_mod, lemma_mod_bound, lemma_mod_twice,
    lemma_mul_mod_noop_left, lemma_small_mod,
};
use vstd::prelude::*;

verus! {

/// Whether `c` is an ASCII decimal digit.
pub open spec fn is_bearing_digit(c: char) -> bool {
    '0' <= c && c <= '9'
}

/// Numeric value of an ASCII decimal digit.
pub open spec fn digit_value(c: char) -> int {
    c as int - '0' as int
}

/// Whether every character of `s` is a decimal digit.
pub open spec fn all_digits(s: Seq<char>) -> bool {
    forall|i: int| 0 <= i < s.len() ==> is_bearing_digit(s[i])
}

/// Length of the leading run of decimal digits of `s`.
pub open spec fn int_part_len(s: Seq<char>) -> int
    decreases s.len(),
{
    if s.len() == 0 || !is_bearing_digit(s[0]) {
        0
    } else {
        1 + int_part_len(s.drop_first())
    }
}

/// Value of a digit string read in base ten.
pub open spec fn digits_value(s: Seq<char>) -> int
    decreases s.len(),
{
    if s.len() == 0 {
        0
    } else {
        digits_value(s.drop_last()) * 10 + digit_value(s.last())
    }
}

/// Hundredths of a unit contributed by the fraction digits `s`; digits past
/// the second cannot move a bearing across a sector boundary and are dropped.
pub open spec fn frac_hundredths(s: Seq<char>) -> int {
    if s.len() == 0 {
        0
    } else if s.len() == 1 {
        10 * digit_value(s[0])
    } else {
        10 * digit_value(s[0]) + digit_value(s[1])
    }
}

/// Whether `s` (with no sign) is a well-formed decimal number:
/// one or more digits, optionally followed by a point and further digits.
pub open spec fn is_unsigned_bearing(s: Seq<char>) -> bool {
    let k = int_part_len(s);
    k >= 1 && (k == s.len() || (s[k] == '.' && all_digits(s.subrange(k + 1, s.len() as int))))
}

/// Value of a well-formed unsigned decimal string, in hundredths.
pub open spec fn unsigned_hundredths(s: Seq<char>) -> int {
    let k = int_part_len(s);
    digits_value(s.subrange(0, k)) * 100 + if k == s.len() {
        0
    } else {
        frac_hundredths(s.subrange(k + 1, s.len() as int))
    }
}

/// The bearing described by `s`, normalized into [0, 36000) hundredths of a
/// degree, or `None` when `s` is not a decimal number.
pub open spec fn bearing_hundredths(s: Seq<char>) -> Option<int> {
    let signed = s.len() > 0 && (s[0] == '-' || s[0] == '+');
    let body = if signed {
        s.drop_first()
    } else {
        s
    };
    if is_unsigned_bearing(body) {
        let raw = unsigned_hundredths(body) % 36000;
        Some(
            if s.len() > 0 && s[0] == '-' {
                (36000 - raw) % 36000
            } else {
                raw
            },
        )
    } else {
        None
    }
}

/// Sector index of a bearing in hundredths of a degree: sixteen sectors of
/// 2250 hundredths, each centred on its point, boundaries rounding up.
pub open spec fn compass_sector(h: int) -> int {
    ((h + 1125) / 2250) % 16
}

/// Name of the sector with index `i`, counted clockwise from north.
pub open spec fn sector_label(i: int) -> Seq<char> {
    if i == 0 {
        "N"@
    } else if i == 1 {
        "NNE"@
    } else if i == 2 {
        "NE"@
    } else if i == 3 {
        "ENE"@
    } else if i == 4 {
        "E"@
    } else if i == 5 {
        "ESE"@
    } else if i == 6 {
        "SE"@
    } else if i == 7 {
        "SSE"@
    } else if i == 8 {
        "S"@
    } else if i == 9 {
        "SSW"@
    } else if i == 10 {
        "SW"@
    } else if i == 11 {
        "WSW"@
    } else if i == 12 {
        "W"@
    } else if i == 13 {
        "WNW"@
    } else if i == 14 {
        "NW"@
    } else {
        "NNW"@
    }
}

/// Compass-point name of the bearing text `s`, or `None` when `s` does not
/// parse as a decimal number.
pub open spec fn compass_of_text(s: Seq<char>) -> Option<Seq<char>> {
    match bearing_hundredths(s) {
        Some(h) => Some(sector_label(compass_sector(h))),
        None => None,
    }
}

/// The sixteen sectors partition the circle into half-open ranges of equal
/// width, each centred on its point: a normalized bearing lands in sector `i`
/// exactly when it lies in [i*22.5 - 11.25, i*22.5 + 11.25) degrees — so a
/// bearing exactly on a boundary belongs to the higher sector (round-half-up),
/// and north's sector wraps around zero.
pub proof fn lemma_sector_ranges(h: int)
    requires
        0 <= h < 36000,
    ensures
        0 <= compass_sector(h) < 16,
        (compass_sector(h) == 0 <==> h < 1125 || 34875 <= h),
        forall|i: int|
            1 <= i < 16 ==> (compass_sector(h) == i <==> 2250 * i - 1125 <= h < #[trigger] (2250 * i)
                + 1125),
{
    let q = (h + 1125) / 2250;
    lemma_fundamental_div_mod(h + 1125, 2250);
    lemma_mod_bound(h + 1125, 2250);
    assert(0 <= q <= 16);
    lemma_mod_bound(q, 16);
    if q == 16 {
        assert(q % 16 == 0) by {
            lemma_fundamental_div_mod(q, 16);
        }
    } else {
        lemma_small_mod(q as nat, 16);
    }
}

proof fn lemma_digits_value_nonneg(s: Seq<char>)
    requires
        all_digits(s),
    ensures
        digits_value(s) >= 0,
    decreases s.len(),
{
    if s.len() > 0 {
        assert(all_digits(s.drop_last())) by {
            assert(forall|i: int|
                0 <= i < s.drop_last().len() ==> s.drop_last()[i] == s[i]);
        }
        lemma_digits_value_nonneg(s.drop_last());
        assert(is_bearing_digit(s.last()));
    }
}

/// `int_part_len` is determined by a witness: if all of `s[0..i]` are digits
/// and position `i` is a non-digit or the end, then the leading run is `i`.
proof fn lemma_int_part_len_characterization(s: Seq<char>, i: int)
    requires
        0 <= i <= s.len(),
        forall|j: int| 0 <= j < i ==> is_bearing_digit(s[j]),
        i < s.len() ==> !is_bearing_digit(s[i]),
    ensures
        int_part_len(s) == i,
    decreases s.len(),
{
    if s.len() != 0 && is_bearing_digit(s[0]) {
        assert forall|j: int| 0 <= j < i - 1 implies is_bearing_digit(s.drop_first()[j]) by {
            assert(s.drop_first()[j] == s[j + 1]);
        }
        lemma_int_part_len_characterization(s.drop_first(), i - 1);
    }
}

/// Appending one digit to a digit string multiplies its value by ten and adds
/// the digit, which carries through modulo 36000.
proof fn lemma_digits_step(s: Seq<char>, c: char)
    requires
        all_digits(s),
        is_bearing_digit(c),
    ensures
        digits_value(s.push(c)) % 36000 == ((digits_value(s) % 36000) * 10 + digit_value(c))
            % 36000,
{
    assert(s.push(c).drop_last() =~= s);
    assert(digits_value(s.push(c)) == digits_value(s) * 10 + digit_value(c));
    lemma_digits_value_nonneg(s);
    lemma_mul_mod_noop_left(digits_value(s), 10, 36000);
    lemma_add_mod_noop((digits_value(s) % 36000) * 10, digit_value(c), 36000);
    lemma_add_mod_noop(digits_value(s) * 10, digit_value(c), 36000);
    lemma_small_mod(digit_value(c) as nat, 36000);
}

/// Whether `c` is an ASCII decimal digit.
fn is_digit_char(c: char) -> (r: bool)
    ensures
        r == is_bearing_digit(c),
{
    '0' <= c && c <= '9'
}

/// Numeric value of an ASCII digit character.
fn digit_char_value(c: char) -> (d: u32)
    requires
        is_bearing_digit(c),
    ensures
        d == digit_value(c),
        d <= 9,
{
    (c as u32) - ('0' as u32)
}

/// Name of the sector with index `i`.
fn sector_name(i: u32) -> (r: String)
    requires
        i < 16,
    ensures
        r@ == sector_label(i as int),
{
    if i == 0 {
        String::from_str("N")
    } else if i == 1 {
        String::from_str("NNE")
    } else if i == 2 {
        String::from_str("NE")
    } else if i == 3 {
        String::from_str("ENE")
    } else if i == 4 {
        String::from_str("E")
    } else if i == 5 {
        String::from_str("ESE")
    } else if i == 6 {
        String::from_str("SE")
    } else if i == 7 {
        String::from_str("SSE")
    } else if i == 8 {
        String::from_str("S")
    } else if i == 9 {
        String::from_str("SSW")
    } else if i == 10 {
        String::from_str("SW")
    } else if i == 11 {
        String::from_str("WSW")
    } else if i == 12 {
        String::from_str("W")
    } else if i == 13 {
        String::from_str("WNW")
    } else if i == 14 {
        String::from_str("NW")
    } else {
        String::from_str("NNW")
    }
}

/// Parses `text` as a decimal bearing in degrees and returns the name of its
/// compass sector, or `None` when `text` is not a decimal number.
#[verifier::loop_isolation(false)]
pub fn bearing_to_compass(text: &str) -> (r: Option<String>)
    ensures
        (match r {
            Some(label) => Some(label@),
            None => None,
        }) == compass_of_text(text@),
{
    let len = text.unicode_len();
    let mut start: usize = 0;
    let mut negative = false;
    if len > 0 {
        let c0 = text.get_char(0);
        if c0 == '-' {
            negative = true;
            start = 1;
        } else if c0 == '+' {
            start = 1;
        }
    }
    let ghost body: Seq<char> = text@.subrange(start as int, len as int);
    proof {
        if start == 1 {
            assert(body =~= text@.drop_first());
        } else {
            assert(body =~= text@);
        }
    }

    // Integer part: a run of digits accumulated modulo 36000.
    let mut i: usize = start;
    let mut acc: u32 = 0;
    while i < len && is_digit_char(text.get_char(i))
        invariant
            start <= i <= len,
            forall|j: int| start <= j < i ==> is_bearing_digit(text@[j]),
            acc < 36000,
            acc == digits_value(text@.subrange(start as int, i as int)) % 36000,
        decreases len - i,
    {
        let d = digit_char_value(text.get_char(i));
        proof {
            let prefix = text@.subrange(start as int, i as int);
            assert(all_digits(prefix));
            lemma_digits_step(prefix, text@[i as int]);
            assert(text@.subrange(start as int, i as int + 1) =~= prefix.push(text@[i as int]));
            lemma_digits_value_nonneg(prefix.push(text@[i as int]));
        }
        acc = (acc * 10 + d) % 36000;
        i = i + 1;
    }
    proof {
        assert forall|j: int| 0 <= j < i - start implies is_bearing_digit(body[j]) by {
            assert(body[j] == text@[start + j]);
        }
        if i < len {
            assert(body[i - start] == text@[i as int]);
        }
        lemma_int_part_len_characterization(body, i - start);
    }
    if i == start {
        // No digits at all: not a decimal number.
        return None;
    }

    // Fraction part: a point followed by digits only; the first two carry value.
    let mut frac: u32 = 0;
    if i < len {
        let dot = text.get_char(i);
        if dot != '.' {
            return None;
        }
        let mut j: usize = i + 1;
        let mut seen: usize = 0;
        while j < len && is_digit_char(text.get_char(j))
            invariant
                i + 1 <= j <= len,
                seen == j - i - 1,
                forall|k: int| i + 1 <= k < j ==> is_bearing_digit(text@[k]),
                frac < 100,
                frac == frac_hundredths(text@.subrange(i as int + 1, j as int)),
            decreases len - j,
        {
            let d = digit_char_value(text.get_char(j));
            proof {
                let prefix = text@.subrange(i as int + 1, j as int);
                let longer = text@.subrange(i as int + 1, j as int + 1);
                assert(longer =~= prefix.push(text@[j as int]));
            }
            if seen == 0 {
                frac = 10 * d;
            } else if seen == 1 {
                frac = frac + d;
            }
            seen = seen + 1;
            j = j + 1;
        }
        if j < len {
            // A non-digit inside the fraction: not a decimal number.
            proof {
                let tail = body.subrange(i - start + 1, body.len() as int);
                assert(tail[j - i - 1] == text@[j as int]);
                assert(!is_bearing_digit(tail[j - i - 1]));
                assert(!all_digits(tail));
            }
            return None;
        }
        proof {
            assert(body.subrange(i - start + 1, body.len() as int) =~= text@.subrange(
                i as int + 1,
                len as int,
            ));
            let tail = body.subrange(i - start + 1, body.len() as int);
            assert forall|k: int| 0 <= k < tail.len() implies is_bearing_digit(#[trigger] tail[k]) by {
                assert(tail[k] == text@[i + 1 + k]);
            }
            assert(body[i - start] == text@[i as int]);
        }
    }
    proof {
        assert(body.subrange(0, i - start) =~= text@.subrange(start as int, i as int));
        assert(is_unsigned_bearing(body));
        lemma_digits_value_nonneg(body.subrange(0, i - start));
        let dv = digits_value(body.subrange(0, i - start));
        lemma_mul_mod_noop_left(dv, 100, 36000);
        lemma_add_mod_noop((dv % 36000) * 100, frac as int, 36000);
        lemma_add_mod_noop(dv * 100, frac as int, 36000);
        lemma_small_mod(frac as nat, 36000);
        lemma_mod_twice(dv * 100 + frac, 36000);
        assert((acc * 100 + frac) % 36000 == unsigned_hundredths(body) % 36000);
    }
    let mut total: u32 = (acc * 100 + frac) % 36000;
    if negative {
        total = (36000 - total) % 36000;
    }
    let sector = ((total + 1125) / 2250) % 16;
    Some(sector_name(sector))
}

} // verus!
