//! Small verified text helpers: character-exact string equality, ASCII
//! upper-casing, decimal rendering, and the title-casing used for photo
//! page headings.

use vstd::prelude::*;

verus! {

/// Relies on `String::push`: appends the given character to the end of the
/// string, leaving everything before it unchanged.
#[verifier::external_body]
pub fn push_char(s: &mut String, c: char)
    ensures
        final(s)@ == old(s)@.push(c),
{
    s.push(c)
}

/// Character-wise equality of two string slices.
pub fn str_eq(a: &str, b: &str) -> (r: bool)
    ensures
        r == (a@ == b@),
{
    let a_owned: String = a.to_owned();
    let b_owned: String = b.to_owned();
    a_owned == b_owned
}

/// The ASCII upper-case image of a character; anything outside `a..=z` is
/// left alone.
pub open spec fn spec_upper_char(c: char) -> char {
    if 97 <= c as int && c as int <= 122 {
        (((c as int) - 32) as u8) as char
    } else {
        c
    }
}

/// Upper-cases one ASCII character.
pub fn upper_char(c: char) -> (r: char)
    ensures
        r == spec_upper_char(c),
{
    let u = c as u32;
    if 97 <= u && u <= 122 {
        ((u - 32) as u8) as char
    } else {
        c
    }
}

/// Upper-cases every character that starts the string or follows a space.
///
/// On strings whose space-separated words are all non-empty this is exactly
/// "split on spaces, capitalize each word, join with spaces".
pub open spec fn spec_title_case(s: Seq<char>) -> Seq<char> {
    Seq::new(s.len(), |i: int| if i == 0 || s[i - 1] == ' ' { spec_upper_char(s[i]) } else { s[i] })
}

/// Title-cases a heading: the first character of every space-separated word
/// is upper-cased.
pub fn title_case(string: &str) -> (r: String)
    ensures
        r@ == spec_title_case(string@),
{
    let n = string.unicode_len();
    let mut out = String::new();
    for i in 0..n
        invariant
            n == string@.len(),
            out@.len() == i,
            forall|j: int| 0 <= j < i ==> out@[j] == spec_title_case(string@)[j],
    {
        let c = string.get_char(i);
        let at_word_start = if i == 0 { true } else { string.get_char(i - 1) == ' ' };
        let c_out = if at_word_start { upper_char(c) } else { c };
        push_char(&mut out, c_out);
    }
    proof {
        assert(out@ =~= spec_title_case(string@));
    }
    out
}

/// The decimal digit character for a value below ten.
pub open spec fn spec_digit_char(d: int) -> char {
    ((48 + d) as u8) as char
}

/// The decimal rendering of a non-negative integer, most significant digit
/// first, with no leading zeros (a lone zero renders as "0").
pub open spec fn spec_dec(n: int) -> Seq<char>
    decreases n,
{
    if n < 10 {
        seq![spec_digit_char(n)]
    } else {
        spec_dec(n / 10).push(spec_digit_char(n % 10))
    }
}

fn digit_char(d: u64) -> (c: char)
    requires
        d < 10,
    ensures
        c == spec_digit_char(d as int),
{
    ((48 + d) as u8) as char
}

/// Renders a number in decimal.
pub fn u64_to_string(n: u64) -> (r: String)
    ensures
        r@ == spec_dec(n as int),
    decreases n,
{
    if n < 10 {
        let mut s = String::new();
        push_char(&mut s, digit_char(n));
        proof {
            assert(s@ =~= spec_dec(n as int));
        }
        s
    } else {
        let mut s = u64_to_string(n / 10);
        push_char(&mut s, digit_char(n % 10));
        s
    }
}

} // verus!
