//! Canonicalization of free-text fields and small string-building helpers.
//!
//! Titles, author names and venues are normalized before any similarity is
//! computed: lowercased, punctuation stripped, whitespace collapsed to single
//! separators. The raw values are kept separately for display.

use vstd::prelude::*;

verus! {

/// Whether `c` is kept by normalization: an ASCII letter or digit, or any
/// character outside the ASCII range (so non-English names survive).
pub open spec fn is_word_char(c: char) -> bool {
    let u = c as u32;
    (97 <= u && u <= 122) || (65 <= u && u <= 90) || (48 <= u && u <= 57) || u > 127
}

/// Whether `c` is whitespace for normalization purposes.
pub open spec fn is_space_char(c: char) -> bool {
    c == ' ' || c == '\t' || c == '\n' || c == '\r'
}

/// ASCII lowercase of a character; characters outside `A`..`Z` are unchanged.
pub open spec fn lower_char(c: char) -> char {
    match c {
        'A' => 'a',
        'B' => 'b',
        'C' => 'c',
        'D' => 'd',
        'E' => 'e',
        'F' => 'f',
        'G' => 'g',
        'H' => 'h',
        'I' => 'i',
        'J' => 'j',
        'K' => 'k',
        'L' => 'l',
        'M' => 'm',
        'N' => 'n',
        'O' => 'o',
        'P' => 'p',
        'Q' => 'q',
        'R' => 'r',
        'S' => 's',
        'T' => 't',
        'U' => 'u',
        'V' => 'v',
        'W' => 'w',
        'X' => 'x',
        'Y' => 'y',
        'Z' => 'z',
        _ => c,
    }
}

/// ASCII lowercase of a whole string.
pub open spec fn lower_seq(s: Seq<char>) -> Seq<char> {
    s.map_values(|c: char| lower_char(c))
}

/// One step of normalization: fold the next character `c` into the output
/// built so far. `pending` records that a separator is owed before the next
/// kept character.
pub open spec fn norm_step(acc: Seq<char>, pending: bool, c: char) -> (Seq<char>, bool) {
    if is_word_char(c) {
        if pending && acc.len() > 0 {
            (acc.push(' ').push(lower_char(c)), false)
        } else {
            (acc.push(lower_char(c)), false)
        }
    } else if is_space_char(c) {
        (acc, true)
    } else {
        (acc, pending)
    }
}

/// Normalization folded over the first `i` characters of `s`.
pub open spec fn norm_prefix(s: Seq<char>, i: int) -> (Seq<char>, bool)
    decreases i,
{
    if i <= 0 {
        (Seq::<char>::empty(), false)
    } else {
        let prev = norm_prefix(s, i - 1);
        norm_step(prev.0, prev.1, s[i - 1])
    }
}

/// The canonical comparable form of `s`: lowercased, punctuation dropped,
/// whitespace runs collapsed to single spaces, no leading or trailing space.
pub open spec fn normalized(s: Seq<char>) -> Seq<char> {
    norm_prefix(s, s.len() as int).0
}

/// Relies on `String::push` from std: appends the given character to the
/// end of the string.
#[verifier::external_body]
pub(crate) fn push_char(s: &mut String, c: char)
    ensures
        final(s)@ == old(s)@.push(c),
{
    s.push(c);
}

fn is_word_char_x(c: char) -> (r: bool)
    ensures
        r == is_word_char(c),
{
    let u = c as u32;
    (97 <= u && u <= 122) || (65 <= u && u <= 90) || (48 <= u && u <= 57) || u > 127
}

fn is_space_char_x(c: char) -> (r: bool)
    ensures
        r == is_space_char(c),
{
    c == ' ' || c == '\t' || c == '\n' || c == '\r'
}

fn lower_char_x(c: char) -> (r: char)
    ensures
        r == lower_char(c),
{
    match c {
        'A' => 'a',
        'B' => 'b',
        'C' => 'c',
        'D' => 'd',
        'E' => 'e',
        'F' => 'f',
        'G' => 'g',
        'H' => 'h',
        'I' => 'i',
        'J' => 'j',
        'K' => 'k',
        'L' => 'l',
        'M' => 'm',
        'N' => 'n',
        'O' => 'o',
        'P' => 'p',
        'Q' => 'q',
        'R' => 'r',
        'S' => 's',
        'T' => 't',
        'U' => 'u',
        'V' => 'v',
        'W' => 'w',
        'X' => 'x',
        'Y' => 'y',
        'Z' => 'z',
        _ => c,
    }
}

/// Canonicalize free text for similarity comparison.
pub fn normalize_string(s: &str) -> (r: String)
    ensures
        r@ == normalized(s@),
{
    let n = s.unicode_len();
    let mut r = String::new();
    let mut pending: bool = false;
    let mut i: usize = 0;
    while i < n
        invariant
            n == s@.len(),
            i <= n,
            r@ == norm_prefix(s@, i as int).0,
            pending == norm_prefix(s@, i as int).1,
        decreases n - i,
    {
        let c = s.get_char(i);
        if is_word_char_x(c) {
            if pending && !r.as_str().is_empty() {
                push_char(&mut r, ' ');
            }
            push_char(&mut r, lower_char_x(c));
            pending = false;
        } else if is_space_char_x(c) {
            pending = true;
        }
        i = i + 1;
    }
    r
}

/// The suffix of `s` after its last space: the final token of a normalized
/// name. Empty when `s` is empty or ends in a space.
pub open spec fn last_token(s: Seq<char>) -> Seq<char>
    decreases s.len(),
{
    if s.len() == 0 {
        Seq::<char>::empty()
    } else if s[s.len() - 1] == ' ' {
        Seq::<char>::empty()
    } else {
        last_token(s.drop_last()).push(s[s.len() - 1])
    }
}

/// The final space-delimited token of a normalized name, used for the
/// abbreviated-author rule ("John Smith" vs "J. Smith").
pub fn last_token_of(s: &str) -> (r: String)
    ensures
        r@ == last_token(s@),
{
    let n = s.unicode_len();
    let mut r = String::new();
    let mut i: usize = 0;
    while i < n
        invariant
            n == s@.len(),
            i <= n,
            r@ == last_token(s@.subrange(0, i as int)),
        decreases n - i,
    {
        let c = s.get_char(i);
        if c == ' ' {
            r = String::new();
        } else {
            push_char(&mut r, c);
        }
        i = i + 1;
        proof {
            let pre = s@.subrange(0, i - 1);
            let cur = s@.subrange(0, i as int);
            assert(cur.drop_last() =~= pre);
            assert(cur[cur.len() - 1] == s@[i - 1]);
        }
    }
    proof {
        assert(s@.subrange(0, n as int) =~= s@);
    }
    r
}

/// Whether two strings are equal once both are ASCII-lowercased, the sense
/// in which identifiers such as DOIs are compared.
pub fn eq_ignore_case(a: &str, b: &str) -> (r: bool)
    ensures
        r == (lower_seq(a@) == lower_seq(b@)),
{
    let na = a.unicode_len();
    let nb = b.unicode_len();
    if na != nb {
        proof {
            assert(lower_seq(a@).len() == a@.len());
            assert(lower_seq(b@).len() == b@.len());
        }
        return false;
    }
    let mut i: usize = 0;
    while i < na
        invariant
            na == a@.len(),
            na == b@.len(),
            i <= na,
            forall|k: int| 0 <= k < i ==> lower_char(a@[k]) == lower_char(b@[k]),
        decreases na - i,
    {
        if lower_char_x(a.get_char(i)) != lower_char_x(b.get_char(i)) {
            proof {
                assert(lower_seq(a@)[i as int] == lower_char(a@[i as int]));
                assert(lower_seq(b@)[i as int] == lower_char(b@[i as int]));
            }
            return false;
        }
        i = i + 1;
    }
    proof {
        assert(lower_seq(a@) =~= lower_seq(b@));
    }
    true
}

/// The decimal digit character for `d`.
pub open spec fn dec_digit(d: int) -> char {
    if d == 0 {
        '0'
    } else if d == 1 {
        '1'
    } else if d == 2 {
        '2'
    } else if d == 3 {
        '3'
    } else if d == 4 {
        '4'
    } else if d == 5 {
        '5'
    } else if d == 6 {
        '6'
    } else if d == 7 {
        '7'
    } else if d == 8 {
        '8'
    } else {
        '9'
    }
}

/// The decimal rendering of a non-negative integer, most significant digit
/// first and without leading zeros.
pub open spec fn dec_digits(n: int) -> Seq<char>
    decreases n,
{
    if n < 10 {
        Seq::<char>::empty().push(dec_digit(n))
    } else {
        dec_digits(n / 10).push(dec_digit(n % 10))
    }
}

/// The decimal rendering of an integer, with a leading minus sign when
/// negative.
pub open spec fn int_digits(n: int) -> Seq<char> {
    if n < 0 {
        seq!['-'] + dec_digits(-n)
    } else {
        dec_digits(n)
    }
}

fn digit_char_x(d: u64) -> (c: char)
    requires
        d < 10,
    ensures
        c == dec_digit(d as int),
{
    match d {
        0 => '0',
        1 => '1',
        2 => '2',
        3 => '3',
        4 => '4',
        5 => '5',
        6 => '6',
        7 => '7',
        8 => '8',
        _ => '9',
    }
}

/// Appends the decimal rendering of `n` to `s`.
pub(crate) fn push_dec_u64(s: &mut String, n: u64)
    ensures
        final(s)@ == old(s)@ + dec_digits(n as int),
    decreases n,
{
    if n < 10 {
        push_char(s, digit_char_x(n));
        proof {
            assert(old(s)@.push(dec_digit(n as int)) =~= old(s)@ + dec_digits(n as int));
        }
    } else {
        push_dec_u64(s, n / 10);
        push_char(s, digit_char_x(n % 10));
        proof {
            assert((old(s)@ + dec_digits((n / 10) as int)).push(dec_digit((n % 10) as int))
                =~= old(s)@ + dec_digits(n as int));
        }
    }
}

/// The decimal rendering of `n` as a fresh string.
pub fn u64_to_string(n: u64) -> (r: String)
    ensures
        r@ == dec_digits(n as int),
{
    let mut r = String::new();
    push_dec_u64(&mut r, n);
    proof {
        assert(Seq::<char>::empty() + dec_digits(n as int) =~= dec_digits(n as int));
    }
    r
}

/// The decimal rendering of `n` as a fresh string, signed.
pub fn i32_to_string(n: i32) -> (r: String)
    ensures
        r@ == int_digits(n as int),
{
    let mut r = String::new();
    if n < 0 {
        push_char(&mut r, '-');
        let m: u64 = (-(n as i64)) as u64;
        push_dec_u64(&mut r, m);
        proof {
            assert(Seq::<char>::empty().push('-') + dec_digits(m as int) =~= int_digits(n as int));
        }
    } else {
        push_dec_u64(&mut r, n as u64);
        proof {
            assert(Seq::<char>::empty() + dec_digits(n as int) =~= int_digits(n as int));
        }
    }
    r
}

/// Appends the signed decimal rendering of `n` to `s`.
pub(crate) fn push_dec_i32(s: &mut String, n: i32)
    ensures
        final(s)@ == old(s)@ + int_digits(n as int),
{
    if n < 0 {
        push_char(s, '-');
        let m: u64 = (-(n as i64)) as u64;
        push_dec_u64(s, m);
        proof {
            assert(old(s)@.push('-') + dec_digits(m as int) =~= old(s)@ + int_digits(n as int));
        }
    } else {
        push_dec_u64(s, n as u64);
    }
}

} // verus!
