//! Text helpers shared by the rest of the library: comparison and search on
//! strings, decimal formatting, and building lists of owned strings.

use vstd::prelude::*;

verus! {

/// `needle` occurs in `hay` as a contiguous run of characters.
pub open spec fn has_substring(hay: Seq<char>, needle: Seq<char>) -> bool {
    exists|i: int|
        0 <= i && i + needle.len() <= hay.len() && #[trigger] hay.subrange(
            i,
            i + needle.len(),
        ) == needle
}

/// The lowercase form that `str::to_lowercase` gives for a text.
pub uninterp spec fn lowercase_of(s: Seq<char>) -> Seq<char>;

/// The uppercase form that `str::to_uppercase` gives for a text.
pub uninterp spec fn uppercase_of(s: Seq<char>) -> Seq<char>;

/// The lines of a text, as `str::lines` gives them: split at line feeds,
/// without the line ends, and without an empty line after a final line end.
pub uninterp spec fn line_texts(s: Seq<char>) -> Seq<Seq<char>>;

/// The lines joined again, with a line feed between each two.
pub open spec fn join_lines(lines: Seq<Seq<char>>) -> Seq<char>
    decreases lines.len(),
{
    if lines.len() == 0 {
        Seq::empty()
    } else if lines.len() == 1 {
        lines[0]
    } else {
        join_lines(lines.drop_last()) + seq!['\n'] + lines.last()
    }
}

/// The last `count` lines, or all of them where there are fewer.
pub open spec fn last_lines(lines: Seq<Seq<char>>, count: nat) -> Seq<Seq<char>> {
    if lines.len() <= count {
        lines
    } else {
        lines.skip(lines.len() - count)
    }
}

/// Trusted: `str::lines` depends on the text alone; each line is copied as
/// it is handed out.
#[verifier::external_body]
pub(crate) fn lines_of(text: &str) -> (lines: Vec<String>)
    ensures
        lines.deep_view() == line_texts(text@),
{
    let mut lines: Vec<String> = Vec::new();
    for line in text.lines() {
        lines.push(line.to_string());
    }
    lines
}

/// Joins `lines[from..]` with a line feed between each two.
pub fn join_from(lines: &Vec<String>, from: usize) -> (joined: String)
    requires
        from <= lines@.len(),
    ensures
        joined@ == join_lines(lines.deep_view().skip(from as int)),
{
    let ghost all = lines.deep_view();
    let mut joined = String::new();
    let mut k: usize = from;
    proof {
        reveal_strlit("\n");
        assert(all.subrange(from as int, from as int) =~= Seq::<Seq<char>>::empty());
    }
    while k < lines.len()
        invariant
            from <= k <= lines@.len(),
            all == lines.deep_view(),
            joined@ == join_lines(all.subrange(from as int, k as int)),
            "\n"@ == seq!['\n'],
        decreases lines@.len() - k,
    {
        proof {
            assert(all.subrange(from as int, k + 1).drop_last() =~= all.subrange(
                from as int,
                k as int,
            ));
            assert(all.subrange(from as int, k + 1).last() == lines@[k as int]@);
        }
        if k > from {
            joined.append("\n");
        }
        joined.append(lines[k].as_str());
        proof {
            if k == from {
                assert(joined@ =~= lines@[k as int]@);
            }
        }
        k += 1;
    }
    proof {
        assert(all.subrange(from as int, k as int) =~= all.skip(from as int));
    }
    joined
}

/// The text without the white space at its start and at its end, as
/// `str::trim` gives it.
pub uninterp spec fn trimmed_text(s: Seq<char>) -> Seq<char>;

/// Trusted: `str::trim` depends on the text alone; its result is named, not
/// described.
#[verifier::external_body]
pub(crate) fn str_trim(text: &str) -> (trimmed: String)
    ensures
        trimmed@ == trimmed_text(text@),
{
    text.trim().to_string()
}

/// Trusted: `str::eq` compares two string slices character by character.
#[verifier::external_body]
pub(crate) fn str_eq(a: &str, b: &str) -> (same: bool)
    ensures
        same == (a@ == b@),
{
    a == b
}

/// Trusted: `str::contains` with a string pattern tells whether the pattern
/// occurs anywhere in the text.
#[verifier::external_body]
pub(crate) fn str_contains(hay: &str, needle: &str) -> (found: bool)
    ensures
        found == has_substring(hay@, needle@),
{
    hay.contains(needle)
}

/// Trusted: `str::to_lowercase` depends on its argument alone; its result is
/// named, not described.
#[verifier::external_body]
pub(crate) fn to_lowercase(s: &str) -> (lower: String)
    ensures
        lower@ == lowercase_of(s@),
{
    s.to_lowercase()
}

/// Trusted: `str::to_uppercase` depends on its argument alone; its result is
/// named, not described.
#[verifier::external_body]
pub(crate) fn to_uppercase(s: &str) -> (upper: String)
    ensures
        upper@ == uppercase_of(s@),
{
    s.to_uppercase()
}

/// The character that stands for a digit below ten.
pub open spec fn digit_char(d: nat) -> char {
    if d == 0 {
        '0'
    } else if d == 1 {
        '1'
    } else if d == 2 {
        '2'
    } else if d == 3 {
        '3'
    } else if d == 4 {
        '4'
    } else if d == 5 {
        '5'
    } else if d == 6 {
        '6'
    } else if d == 7 {
        '7'
    } else if d == 8 {
        '8'
    } else {
        '9'
    }
}

/// The decimal digits of a number, most significant first, without padding.
pub open spec fn decimal(n: nat) -> Seq<char>
    decreases n,
{
    if n < 10 {
        seq![digit_char(n)]
    } else {
        decimal(n / 10).push(digit_char(n % 10))
    }
}

/// The decimal digits of a number, padded with one zero to two places.
pub open spec fn decimal_two(n: nat) -> Seq<char> {
    if n < 10 {
        seq!['0'] + decimal(n)
    } else {
        decimal(n)
    }
}

/// A number of tenths written with one decimal place.
pub open spec fn one_decimal(tenths: nat) -> Seq<char> {
    decimal(tenths / 10) + "."@ + decimal(tenths % 10)
}

/// A number of hundredths written with two decimal places.
pub open spec fn two_decimals(hundredths: nat) -> Seq<char> {
    decimal(hundredths / 100) + "."@ + decimal_two(hundredths % 100)
}

/// A number of thousandths written with three decimal places.
pub open spec fn three_decimals(thousandths: nat) -> Seq<char> {
    decimal(thousandths / 1000) + "."@ + decimal(thousandths / 100 % 10) + decimal(
        thousandths / 10 % 10,
    ) + decimal(thousandths % 10)
}

fn digit_str(d: u64) -> (s: &'static str)
    requires
        d < 10,
    ensures
        s@ == seq![digit_char(d as nat)],
{
    proof {
        reveal_strlit("0");
        reveal_strlit("1");
        reveal_strlit("2");
        reveal_strlit("3");
        reveal_strlit("4");
        reveal_strlit("5");
        reveal_strlit("6");
        reveal_strlit("7");
        reveal_strlit("8");
        reveal_strlit("9");
    }
    let s = if d == 0 {
        "0"
    } else if d == 1 {
        "1"
    } else if d == 2 {
        "2"
    } else if d == 3 {
        "3"
    } else if d == 4 {
        "4"
    } else if d == 5 {
        "5"
    } else if d == 6 {
        "6"
    } else if d == 7 {
        "7"
    } else if d == 8 {
        "8"
    } else {
        "9"
    };
    assert(s@ =~= seq![digit_char(d as nat)]);
    s
}

/// Writes a number in decimal.
pub fn decimal_string(n: u64) -> (s: String)
    ensures
        s@ == decimal(n as nat),
    decreases n,
{
    if n < 10 {
        digit_str(n).to_string()
    } else {
        let mut s = decimal_string(n / 10);
        s.append(digit_str(n % 10));
        assert(s@ =~= decimal((n / 10) as nat).push(digit_char((n % 10) as nat)));
        s
    }
}

/// Writes a number in decimal, with a leading zero below ten.
pub fn decimal_string_two(n: u64) -> (s: String)
    ensures
        s@ == decimal_two(n as nat),
{
    if n < 10 {
        proof {
            reveal_strlit("0");
        }
        let mut s = "0".to_string();
        let d = decimal_string(n);
        s.append(d.as_str());
        assert(s@ =~= seq!['0'] + decimal(n as nat));
        s
    } else {
        decimal_string(n)
    }
}

/// Writes a number of tenths with one decimal place.
pub fn one_decimal_string(tenths: u64) -> (s: String)
    ensures
        s@ == one_decimal(tenths as nat),
{
    let mut s = decimal_string(tenths / 10);
    s.append(".");
    s.append(decimal_string(tenths % 10).as_str());
    s
}

/// Writes a number of hundredths with two decimal places.
pub fn two_decimals_string(hundredths: u64) -> (s: String)
    ensures
        s@ == two_decimals(hundredths as nat),
{
    let mut s = decimal_string(hundredths / 100);
    s.append(".");
    s.append(decimal_string_two(hundredths % 100).as_str());
    s
}

/// Writes a number of thousandths with three decimal places.
pub fn three_decimals_string(thousandths: u64) -> (s: String)
    ensures
        s@ == three_decimals(thousandths as nat),
{
    let mut s = decimal_string(thousandths / 1000);
    s.append(".");
    s.append(decimal_string(thousandths / 100 % 10).as_str());
    s.append(decimal_string(thousandths / 10 % 10).as_str());
    s.append(decimal_string(thousandths % 10).as_str());
    s
}

/// Joins two texts into a new string.
pub fn concat(a: &str, b: &str) -> (s: String)
    ensures
        s@ == a@ + b@,
{
    let mut s = a.to_string();
    s.append(b);
    s
}

/// Appends one owned copy of `s` to a list of strings.
pub fn push_str(list: &mut Vec<String>, s: &str)
    ensures
        final(list).deep_view() == old(list).deep_view().push(s@),
{
    list.push(s.to_string());
    assert(list.deep_view() =~= old(list).deep_view().push(s@));
}

/// Appends a string to a list of strings.
pub fn push_string(list: &mut Vec<String>, s: String)
    ensures
        final(list).deep_view() == old(list).deep_view().push(s@),
{
    list.push(s);
    assert(list.deep_view() =~= old(list).deep_view().push(s@));
}

/// The texts of a list of string slices, in order.
pub open spec fn texts(items: Seq<&str>) -> Seq<Seq<char>> {
    Seq::new(items.len(), |i: int| items[i]@)
}

/// Owned copies of a list of string slices, in order.
pub fn strings_of(items: &[&str]) -> (list: Vec<String>)
    ensures
        list.deep_view() == texts(items@),
{
    let mut list: Vec<String> = Vec::new();
    let mut k: usize = 0;
    assert(list.deep_view() =~= texts(items@.take(0)));
    while k < items.len()
        invariant
            k <= items@.len(),
            list.deep_view() == texts(items@.take(k as int)),
        decreases items@.len() - k,
    {
        push_str(&mut list, items[k]);
        k += 1;
        assert(list.deep_view() =~= texts(items@.take(k as int)));
    }
    assert(items@.take(k as int) =~= items@);
    list
}

/// Moves all strings of `more` to the end of `list`, in order.
pub fn extend_strings(list: &mut Vec<String>, more: Vec<String>)
    ensures
        final(list).deep_view() == old(list).deep_view() + more.deep_view(),
{
    let mut more = more;
    let ghost added = more.deep_view();
    list.append(&mut more);
    assert(list.deep_view() =~= old(list).deep_view() + added);
}

} // verus!
