//! Small verified helpers for building the strings the crate hands out:
//! error messages, debug renderings of stored values, and quoted paths.

use vstd::prelude::*;

verus! {

/// Relies on std's `String::push`: appends exactly one character.
#[verifier::external_body]
pub fn string_push(s: &mut String, c: char)
    ensures
        final(s)@ == old(s)@.push(c),
{
    s.push(c);
}

/// The decimal digit `d` as a character; meaningful for `0 <= d <= 9`.
pub open spec fn spec_digit_char(d: int) -> char {
    if d == 0 {
        '0'
    } else if d == 1 {
        '1'
    } else if d == 2 {
        '2'
    } else if d == 3 {
        '3'
    } else if d == 4 {
        '4'
    } else if d == 5 {
        '5'
    } else if d == 6 {
        '6'
    } else if d == 7 {
        '7'
    } else if d == 8 {
        '8'
    } else {
        '9'
    }
}

/// The usual decimal rendering of a natural number, most significant
/// digit first, with no leading zeros (except for zero itself).
pub open spec fn spec_udec(n: nat) -> Seq<char>
    decreases n,
{
    if n < 10 {
        seq![spec_digit_char(n as int)]
    } else {
        spec_udec(n / 10) + seq![spec_digit_char((n % 10) as int)]
    }
}

/// The decimal rendering of an integer: a minus sign for negative values,
/// then the digits of the absolute value.
pub open spec fn spec_idec(i: int) -> Seq<char> {
    if i >= 0 {
        spec_udec(i as nat)
    } else {
        seq!['-'] + spec_udec((-i) as nat)
    }
}

fn digit_char(d: u64) -> (c: char)
    requires
        d <= 9,
    ensures
        c == spec_digit_char(d as int),
{
    match d {
        0 => '0',
        1 => '1',
        2 => '2',
        3 => '3',
        4 => '4',
        5 => '5',
        6 => '6',
        7 => '7',
        8 => '8',
        _ => '9',
    }
}

/// Render an unsigned number in decimal.
pub fn u64_to_string(n: u64) -> (r: String)
    ensures
        r@ == spec_udec(n as nat),
    decreases n,
{
    if n < 10 {
        let mut s = String::new();
        string_push(&mut s, digit_char(n));
        assert(s@ =~= spec_udec(n as nat));
        s
    } else {
        let mut s = u64_to_string(n / 10);
        string_push(&mut s, digit_char(n % 10));
        assert(s@ =~= spec_udec(n as nat));
        s
    }
}

/// Render a signed number in decimal.
pub fn i64_to_string(i: i64) -> (r: String)
    ensures
        r@ == spec_idec(i as int),
{
    if i >= 0 {
        u64_to_string(i as u64)
    } else {
        // Compute the magnitude without overflowing on i64::MIN.
        let magnitude: u64 = ((-(i + 1)) as u64) + 1;
        let mut s = String::new();
        string_push(&mut s, '-');
        let digits = u64_to_string(magnitude);
        s.append(digits.as_str());
        assert(s@ =~= spec_idec(i as int));
        s
    }
}

/// One character of the quoted rendering: a backslash or double quote is
/// escaped with a backslash, anything else stands for itself.
pub open spec fn spec_escaped_char(c: char) -> Seq<char> {
    if c == '"' || c == '\\' {
        seq!['\\', c]
    } else {
        seq![c]
    }
}

pub open spec fn spec_escaped(s: Seq<char>) -> Seq<char>
    decreases s.len(),
{
    if s.len() == 0 {
        Seq::empty()
    } else {
        spec_escaped_char(s[0]) + spec_escaped(s.skip(1))
    }
}

/// The string in double quotes, with embedded quotes and backslashes
/// escaped, as a debug rendering shows it.
pub open spec fn spec_quoted(s: Seq<char>) -> Seq<char> {
    seq!['"'] + spec_escaped(s) + seq!['"']
}

proof fn lemma_escaped_snoc(s: Seq<char>, i: int)
    requires
        0 <= i < s.len(),
    ensures
        spec_escaped(s.take(i + 1)) == spec_escaped(s.take(i)) + spec_escaped_char(s[i]),
    decreases i,
{
    let a = s.take(i + 1);
    let b = s.take(i);
    if i == 0 {
        assert(a =~= seq![s[0]]);
        assert(a.skip(1) =~= Seq::<char>::empty());
        assert(b =~= Seq::<char>::empty());
        assert(spec_escaped(a) =~= spec_escaped(b) + spec_escaped_char(s[0]));
    } else {
        assert(a.skip(1) =~= s.skip(1).take(i));
        assert(b.skip(1) =~= s.skip(1).take(i - 1));
        assert(a[0] == s[0] && b[0] == s[0]);
        lemma_escaped_snoc(s.skip(1), i - 1);
        assert(s.skip(1)[i - 1] == s[i]);
        assert(spec_escaped(a) =~= spec_escaped(b) + spec_escaped_char(s[i]));
    }
}

/// Quote a string the way a debug rendering would: wrapped in `"` with
/// embedded quotes and backslashes escaped.
pub fn quoted(s: &str) -> (r: String)
    ensures
        r@ == spec_quoted(s@),
{
    let len = s.unicode_len();
    let mut out = String::new();
    string_push(&mut out, '"');
    let mut i: usize = 0;
    while i < len
        invariant
            0 <= i <= len,
            len == s@.len(),
            out@ == seq!['"'] + spec_escaped(s@.take(i as int)),
        decreases len - i,
    {
        let c = s.get_char(i);
        if c == '"' || c == '\\' {
            string_push(&mut out, '\\');
            string_push(&mut out, c);
        } else {
            string_push(&mut out, c);
        }
        proof {
            lemma_escaped_snoc(s@, i as int);
            assert(out@ =~= seq!['"'] + spec_escaped(s@.take(i + 1)));
        }
        i += 1;
    }
    proof {
        assert(s@.take(len as int) =~= s@);
    }
    string_push(&mut out, '"');
    proof {
        assert(out@ =~= spec_quoted(s@));
    }
    out
}

} // verus!
