//! Reading numbers and fields out of the text that the outside tools
//! write. The text is taken as bytes; all that is looked for is ASCII.

use vstd::prelude::*;

verus! {

/// The byte is an ASCII digit.
pub open spec fn is_digit(b: u8) -> bool {
    48 <= b <= 57
}

/// The byte is ASCII white space: a blank, a tab, a line feed, a vertical
/// tab, a form feed or a carriage return.
pub open spec fn is_space(b: u8) -> bool {
    b == 32 || (9 <= b <= 13)
}

/// The number that a run of digits writes; nothing for the empty text and
/// for a text that holds anything but digits.
pub open spec fn digits_value(s: Seq<u8>) -> Option<nat>
    decreases s.len(),
{
    if s.len() == 0 {
        None
    } else if !is_digit(s.last()) {
        None
    } else if s.len() == 1 {
        Some((s.last() - 48) as nat)
    } else {
        match digits_value(s.drop_last()) {
            Some(front) => Some(front * 10 + (s.last() - 48) as nat),
            None => None,
        }
    }
}

/// The number that a text writes as an unsigned integer of at most `max`:
/// digits, with or without a plus sign before them. Nothing for any other
/// text and for a number above `max`.
pub open spec fn unsigned_value(s: Seq<u8>, max: u64) -> Option<u64> {
    let digits = if s.len() > 0 && s[0] == 43 {
        s.skip(1)
    } else {
        s
    };
    match digits_value(digits) {
        Some(v) => if v <= max {
            Some(v as u64)
        } else {
            None
        },
        None => None,
    }
}

/// The text without the white space at its start.
pub open spec fn trim_start(s: Seq<u8>) -> Seq<u8>
    decreases s.len(),
{
    if s.len() > 0 && is_space(s[0]) {
        trim_start(s.skip(1))
    } else {
        s
    }
}

/// The text without the white space at its end.
pub open spec fn trim_end(s: Seq<u8>) -> Seq<u8>
    decreases s.len(),
{
    if s.len() > 0 && is_space(s.last()) {
        trim_end(s.drop_last())
    } else {
        s
    }
}

/// The text without the white space at its start and at its end.
pub open spec fn trimmed(s: Seq<u8>) -> Seq<u8> {
    trim_end(trim_start(s))
}

/// `prefix` stands at the start of `s`.
pub open spec fn has_prefix(s: Seq<u8>, prefix: Seq<u8>) -> bool {
    prefix.len() <= s.len() && s.subrange(0, prefix.len() as int) == prefix
}

/// A run of digits that writes a number writes it again, times ten and one
/// digit more, when a digit is put behind it.
pub proof fn lemma_digits_push(s: Seq<u8>, b: u8)
    requires
        s.len() > 0,
    ensures
        digits_value(s.push(b)) == (match digits_value(s) {
            Some(v) => if is_digit(b) {
                Some(v * 10 + (b - 48) as nat)
            } else {
                None
            },
            None => None,
        }),
{
    assert(s.push(b).drop_last() =~= s);
    assert(s.push(b).last() == b);
}

/// Tells whether the byte is ASCII white space.
pub fn byte_is_space(b: u8) -> (space: bool)
    ensures
        space == is_space(b),
{
    b == 32 || (9 <= b && b <= 13)
}

/// Reads `text[start..end]` as a run of digits that writes a number of at
/// most `max`.
pub fn parse_digits(text: &[u8], start: usize, end: usize, max: u64) -> (value: Option<u64>)
    requires
        start <= end <= text@.len(),
    ensures
        value == (match digits_value(text@.subrange(start as int, end as int)) {
            Some(v) => if v <= max {
                Some(v as u64)
            } else {
                None
            },
            None => None,
        }),
{
    if start == end {
        assert(text@.subrange(start as int, end as int).len() == 0);
        return None;
    }
    let mut acc: u64 = 0;
    let mut k: usize = start;
    while k < end
        invariant
            start <= k <= end <= text@.len(),
            start < end,
            k == start ==> acc == 0,
            k > start ==> digits_value(text@.subrange(start as int, k as int)) == Some(acc as nat),
            k > start ==> acc <= max,
        ensures
            k == end,
            digits_value(text@.subrange(start as int, end as int)) == Some(acc as nat),
            acc <= max,
        decreases end - k,
    {
        let b = text[k];
        let ghost before = text@.subrange(start as int, k as int);
        let ghost grown = text@.subrange(start as int, k + 1);
        proof {
            assert(grown =~= before.push(b));
            if k > start {
                lemma_digits_push(before, b);
            } else {
                assert(grown.len() == 1);
                assert(grown.last() == b);
            }
        }
        if !(48 <= b && b <= 57) {
            proof {
                lemma_digits_stay_lost(text@, start as int, k + 1, end as int);
            }
            return None;
        }
        let next: u128 = (acc as u128) * 10 + ((b - 48) as u128);
        if next > max as u128 {
            proof {
                lemma_digits_stay_large(text@, start as int, k + 1, end as int, max as nat);
            }
            return None;
        }
        acc = next as u64;
        k += 1;
    }
    Some(acc)
}

/// Once a text is no run of digits, no longer text that starts with it is.
pub proof fn lemma_digits_stay_lost(text: Seq<u8>, start: int, mid: int, end: int)
    requires
        0 <= start < mid <= end <= text.len(),
        digits_value(text.subrange(start, mid)).is_none(),
    ensures
        digits_value(text.subrange(start, end)).is_none(),
    decreases end - mid,
{
    if mid < end {
        assert(text.subrange(start, mid + 1) =~= text.subrange(start, mid).push(text[mid]));
        lemma_digits_push(text.subrange(start, mid), text[mid]);
        lemma_digits_stay_lost(text, start, mid + 1, end);
    }
}

/// Once a run of digits writes a number above a bound, every longer text
/// that starts with it writes none or one above the bound.
pub proof fn lemma_digits_stay_large(text: Seq<u8>, start: int, mid: int, end: int, max: nat)
    requires
        0 <= start < mid <= end <= text.len(),
        digits_value(text.subrange(start, mid)) matches Some(v) && v > max,
    ensures
        digits_value(text.subrange(start, end)) matches Some(v) ==> v > max,
    decreases end - mid,
{
    if mid < end {
        assert(text.subrange(start, mid + 1) =~= text.subrange(start, mid).push(text[mid]));
        lemma_digits_push(text.subrange(start, mid), text[mid]);
        if digits_value(text.subrange(start, mid + 1)).is_some() {
            lemma_digits_stay_large(text, start, mid + 1, end, max);
        } else {
            lemma_digits_stay_lost(text, start, mid + 1, end);
        }
    }
}

/// Reads `text[start..end]` as an unsigned integer of at most `max`.
pub fn parse_unsigned(text: &[u8], start: usize, end: usize, max: u64) -> (value: Option<u64>)
    requires
        start <= end <= text@.len(),
    ensures
        value == unsigned_value(text@.subrange(start as int, end as int), max),
{
    let ghost s = text@.subrange(start as int, end as int);
    if start < end && text[start] == 43 {
        proof {
            assert(s.skip(1) =~= text@.subrange(start + 1, end as int));
        }
        parse_digits(text, start + 1, end, max)
    } else {
        parse_digits(text, start, end, max)
    }
}

/// Finds where `text[start..end]` begins once the white space at its start
/// is left out.
pub fn skip_spaces(text: &[u8], start: usize, end: usize) -> (first: usize)
    requires
        start <= end <= text@.len(),
    ensures
        start <= first <= end,
        text@.subrange(first as int, end as int) == trim_start(
            text@.subrange(start as int, end as int),
        ),
{
    let mut k: usize = start;
    while k < end && byte_is_space(text[k])
        invariant
            start <= k <= end <= text@.len(),
            trim_start(text@.subrange(k as int, end as int)) == trim_start(
                text@.subrange(start as int, end as int),
            ),
        decreases end - k,
    {
        proof {
            assert(text@.subrange(k as int, end as int).skip(1) =~= text@.subrange(
                k + 1,
                end as int,
            ));
        }
        k += 1;
    }
    k
}

/// Finds where `text[start..end]` ends once the white space at its end is
/// left out.
pub fn drop_spaces(text: &[u8], start: usize, end: usize) -> (last: usize)
    requires
        start <= end <= text@.len(),
    ensures
        start <= last <= end,
        text@.subrange(start as int, last as int) == trim_end(
            text@.subrange(start as int, end as int),
        ),
{
    let mut k: usize = end;
    while k > start && byte_is_space(text[k - 1])
        invariant
            start <= k <= end <= text@.len(),
            trim_end(text@.subrange(start as int, k as int)) == trim_end(
                text@.subrange(start as int, end as int),
            ),
        decreases k - start,
    {
        proof {
            assert(text@.subrange(start as int, k as int).drop_last() =~= text@.subrange(
                start as int,
                k - 1,
            ));
        }
        k -= 1;
    }
    k
}

/// Tells whether `prefix` stands at the start of `text[start..end]`.
pub fn starts_with(text: &[u8], start: usize, end: usize, prefix: &[u8]) -> (found: bool)
    requires
        start <= end <= text@.len(),
    ensures
        found == has_prefix(text@.subrange(start as int, end as int), prefix@),
{
    if prefix.len() > end - start {
        return false;
    }
    let ghost s = text@.subrange(start as int, end as int);
    let mut k: usize = 0;
    while k < prefix.len()
        invariant
            k <= prefix@.len() <= end - start,
            start <= end <= text@.len(),
            s == text@.subrange(start as int, end as int),
            s.subrange(0, k as int) == prefix@.subrange(0, k as int),
        decreases prefix@.len() - k,
    {
        if text[start + k] != prefix[k] {
            proof {
                assert(s.subrange(0, prefix@.len() as int)[k as int] != prefix@[k as int]);
            }
            return false;
        }
        proof {
            assert(s.subrange(0, k + 1) =~= s.subrange(0, k as int).push(s[k as int]));
            assert(prefix@.subrange(0, k + 1) =~= prefix@.subrange(0, k as int).push(
                prefix@[k as int],
            ));
        }
        k += 1;
    }
    proof {
        assert(prefix@.subrange(0, k as int) =~= prefix@);
    }
    true
}


/// Where the first decimal point of a text stands, or its length where it
/// has none.
pub open spec fn point_index(s: Seq<u8>) -> int
    decreases s.len(),
{
    if s.len() == 0 {
        0
    } else if s[0] == 46 {
        0
    } else {
        1 + point_index(s.skip(1))
    }
}

/// The digit at place `i` of a text, zero where the text ends before it.
pub open spec fn digit_at(s: Seq<u8>, i: int) -> nat {
    if 0 <= i < s.len() {
        (s[i] - 48) as nat
    } else {
        0
    }
}

/// The digits behind the first decimal point of a text.
pub open spec fn fraction_of(s: Seq<u8>) -> Seq<u8> {
    let point = point_index(s);
    if point < s.len() {
        s.skip(point + 1)
    } else {
        Seq::empty()
    }
}

/// The whole part of the number that a text writes as a decimal fraction:
/// digits, a decimal point and digits, where either run of digits may be
/// missing but not both; or digits alone. Nothing for any other text.
pub open spec fn units_of(s: Seq<u8>) -> Option<nat> {
    let whole = s.take(point_index(s));
    let fraction = fraction_of(s);
    if whole.len() == 0 && fraction.len() == 0 {
        None
    } else if whole.len() > 0 && digits_value(whole).is_none() {
        None
    } else if fraction.len() > 0 && digits_value(fraction).is_none() {
        None
    } else if whole.len() == 0 {
        Some(0)
    } else {
        digits_value(whole)
    }
}

/// The number that a text writes as a decimal fraction, in hundredths and
/// rounded down. Nothing for a text that writes no number and for a number
/// whose hundredths exceed `u32::MAX`.
pub open spec fn hundredths_value(s: Seq<u8>) -> Option<u32> {
    match units_of(s) {
        Some(units) => {
            let fraction = fraction_of(s);
            let value = units * 100 + digit_at(fraction, 0) * 10 + digit_at(fraction, 1);
            if value <= u32::MAX {
                Some(value as u32)
            } else {
                None
            }
        },
        None => None,
    }
}

/// The number that a text writes as a decimal fraction, in millionths and
/// rounded down. Nothing for a text that writes no number and for a number
/// whose millionths exceed `u64::MAX`.
pub open spec fn millionths_value(s: Seq<u8>) -> Option<u64> {
    match units_of(s) {
        Some(units) => {
            let fraction = fraction_of(s);
            let value = units * 1_000_000 + digit_at(fraction, 0) * 100_000 + digit_at(
                fraction,
                1,
            ) * 10_000 + digit_at(fraction, 2) * 1_000 + digit_at(fraction, 3) * 100 + digit_at(
                fraction,
                4,
            ) * 10 + digit_at(fraction, 5);
            if value <= u64::MAX {
                Some(value as u64)
            } else {
                None
            }
        },
        None => None,
    }
}

/// Finds the first decimal point in `text[start..end]`.
pub fn find_point(text: &[u8], start: usize, end: usize) -> (point: usize)
    requires
        start <= end <= text@.len(),
    ensures
        start <= point <= end,
        point - start == point_index(text@.subrange(start as int, end as int)),
{
    let mut k: usize = start;
    while k < end && text[k] != 46
        invariant
            start <= k <= end <= text@.len(),
            point_index(text@.subrange(start as int, end as int)) == (k - start) + point_index(
                text@.subrange(k as int, end as int),
            ),
        decreases end - k,
    {
        proof {
            assert(text@.subrange(k as int, end as int).skip(1) =~= text@.subrange(
                k + 1,
                end as int,
            ));
        }
        k += 1;
    }
    k
}

/// Reads the whole part of the decimal fraction `text[start..end]`, where
/// it is at most `max_units`, and finds where the digits of its fraction
/// begin.
pub fn parse_units(text: &[u8], start: usize, end: usize, max_units: u64) -> (parts: Option<
    (u64, usize),
>)
    requires
        start <= end <= text@.len(),
    ensures
        ({
            let s = text@.subrange(start as int, end as int);
            match units_of(s) {
                Some(units) => if units <= max_units {
                    &&& parts matches Some((found, fraction_start))
                    &&& found == units
                    &&& start <= fraction_start <= end
                    &&& text@.subrange(fraction_start as int, end as int) == fraction_of(s)
                    &&& forall|i: int| fraction_start <= i < end ==> is_digit(#[trigger] text@[i])
                } else {
                    parts.is_none()
                },
                None => parts.is_none(),
            }
        }),
{
    let ghost s = text@.subrange(start as int, end as int);
    let point = find_point(text, start, end);
    let ghost whole = s.take(point - start);
    let ghost fraction = fraction_of(s);
    proof {
        assert(whole =~= text@.subrange(start as int, point as int));
        if point < end {
            assert(fraction =~= text@.subrange(point + 1, end as int));
        }
    }
    let fraction_start = if point < end {
        point + 1
    } else {
        end
    };
    proof {
        assert(fraction =~= text@.subrange(fraction_start as int, end as int));
    }
    if point == start && fraction_start == end {
        return None;
    }
    if fraction_start < end {
        if !digits_only(text, fraction_start, end) {
            return None;
        }
        proof {
            lemma_long_digits(fraction);
            assert forall|i: int| fraction_start <= i < end implies is_digit(
                #[trigger] text@[i],
            ) by {
                assert(fraction[i - fraction_start] == text@[i]);
            }
        }
    }
    if point == start {
        Some((0, fraction_start))
    } else {
        match parse_digits(text, start, point, max_units) {
            Some(units) => Some((units, fraction_start)),
            None => None,
        }
    }
}

/// The digit at `text[at]`, or zero where `at` is not before `end`.
pub fn digit_or_zero(text: &[u8], at: usize, end: usize) -> (digit: u64)
    requires
        end <= text@.len(),
        forall|i: int| at <= i < end ==> is_digit(#[trigger] text@[i]),
    ensures
        digit <= 9,
        digit == (if at < end {
            (text@[at as int] - 48) as nat
        } else {
            0nat
        }),
{
    if at < end {
        assert(is_digit(text@[at as int]));
        (text[at] - 48) as u64
    } else {
        0
    }
}

/// Reads `text[start..end]` as a decimal fraction, in hundredths.
pub fn parse_hundredths(text: &[u8], start: usize, end: usize) -> (value: Option<u32>)
    requires
        start <= end <= text@.len(),
    ensures
        value == hundredths_value(text@.subrange(start as int, end as int)),
{
    match parse_units(text, start, end, 0xffff_ffff) {
        Some((units, f)) => {
            let ghost fraction = text@.subrange(f as int, end as int);
            let tenths = digit_or_zero(text, f, end);
            let cents = if f < end {
                digit_or_zero(text, f + 1, end)
            } else {
                0
            };
            proof {
                assert(digit_at(fraction, 0) == tenths);
                assert(digit_at(fraction, 1) == cents);
            }
            let value: u64 = units * 100 + tenths * 10 + cents;
            if value <= 0xffff_ffff {
                Some(value as u32)
            } else {
                None
            }
        },
        None => None,
    }
}

/// Reads `text[start..end]` as a decimal fraction, in millionths.
pub fn parse_millionths(text: &[u8], start: usize, end: usize) -> (value: Option<u64>)
    requires
        start <= end <= text@.len(),
    ensures
        value == millionths_value(text@.subrange(start as int, end as int)),
{
    match parse_units(text, start, end, 18_446_744_073_709) {
        Some((units, f)) => {
            let ghost fraction = text@.subrange(f as int, end as int);
            let d0 = digit_or_zero(text, f, end);
            let d1 = if end - f > 1 {
                digit_or_zero(text, f + 1, end)
            } else {
                0
            };
            let d2 = if end - f > 2 {
                digit_or_zero(text, f + 2, end)
            } else {
                0
            };
            let d3 = if end - f > 3 {
                digit_or_zero(text, f + 3, end)
            } else {
                0
            };
            let d4 = if end - f > 4 {
                digit_or_zero(text, f + 4, end)
            } else {
                0
            };
            let d5 = if end - f > 5 {
                digit_or_zero(text, f + 5, end)
            } else {
                0
            };
            proof {
                assert(digit_at(fraction, 0) == d0);
                assert(digit_at(fraction, 1) == d1);
                assert(digit_at(fraction, 2) == d2);
                assert(digit_at(fraction, 3) == d3);
                assert(digit_at(fraction, 4) == d4);
                assert(digit_at(fraction, 5) == d5);
            }
            let value: u128 = (units as u128) * 1_000_000 + (d0 as u128) * 100_000 + (d1 as u128)
                * 10_000 + (d2 as u128) * 1_000 + (d3 as u128) * 100 + (d4 as u128) * 10 + (
            d5 as u128);
            if value <= u64::MAX as u128 {
                Some(value as u64)
            } else {
                None
            }
        },
        None => None,
    }
}

/// Where the first byte `b` of a text stands, or its length where it has
/// none.
pub open spec fn index_of(s: Seq<u8>, b: u8) -> int
    decreases s.len(),
{
    if s.len() == 0 {
        0
    } else if s[0] == b {
        0
    } else {
        1 + index_of(s.skip(1), b)
    }
}

/// Finds the first byte `b` in `text[start..end]`.
pub fn find_byte(text: &[u8], start: usize, end: usize, b: u8) -> (at: usize)
    requires
        start <= end <= text@.len(),
    ensures
        start <= at <= end,
        at - start == index_of(text@.subrange(start as int, end as int), b),
{
    let mut k: usize = start;
    while k < end && text[k] != b
        invariant
            start <= k <= end <= text@.len(),
            index_of(text@.subrange(start as int, end as int), b) == (k - start) + index_of(
                text@.subrange(k as int, end as int),
                b,
            ),
        decreases end - k,
    {
        proof {
            assert(text@.subrange(k as int, end as int).skip(1) =~= text@.subrange(
                k + 1,
                end as int,
            ));
        }
        k += 1;
    }
    k
}

/// A text is a run of digits exactly when it is not empty and holds digits
/// only.
pub proof fn lemma_long_digits(s: Seq<u8>)
    ensures
        digits_value(s).is_some() <==> (s.len() > 0 && forall|i: int|
            0 <= i < s.len() ==> is_digit(#[trigger] s[i])),
    decreases s.len(),
{
    if s.len() > 1 {
        lemma_long_digits(s.drop_last());
        if digits_value(s).is_some() {
            assert forall|i: int| 0 <= i < s.len() implies is_digit(#[trigger] s[i]) by {
                if i < s.len() - 1 {
                    assert(s.drop_last()[i] == s[i]);
                }
            }
        } else if is_digit(s.last()) {
            let i = choose|i: int| 0 <= i < s.len() - 1 && !is_digit(#[trigger] s.drop_last()[i]);
            assert(!is_digit(s[i]));
        }
    }
}

/// Tells whether `text[start..end]` is a run of digits, however long.
pub fn digits_only(text: &[u8], start: usize, end: usize) -> (yes: bool)
    requires
        start <= end <= text@.len(),
    ensures
        yes == digits_value(text@.subrange(start as int, end as int)).is_some(),
{
    let ghost s = text@.subrange(start as int, end as int);
    proof {
        lemma_long_digits(s);
    }
    if start == end {
        return false;
    }
    let mut k: usize = start;
    while k < end
        invariant
            start <= k <= end <= text@.len(),
            s == text@.subrange(start as int, end as int),
            forall|i: int| 0 <= i < k - start ==> is_digit(#[trigger] s[i]),
        decreases end - k,
    {
        if !(48 <= text[k] && text[k] <= 57) {
            proof {
                lemma_long_digits(s);
                assert(!is_digit(s[k - start]));
            }
            return false;
        }
        k += 1;
    }
    proof {
        lemma_long_digits(s);
    }
    true
}

} // verus!
