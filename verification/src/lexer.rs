//! Executable primitive lexers — blank runs, integer literals, identifiers —
//! each proved to return exactly what the corresponding specification
//! function in [`crate::grammar`] says, together with the character-level
//! plumbing between `&str`, `Vec<char>` and `String`.

use vstd::prelude::*;
use vstd::string::StrSliceExecFns;

use crate::grammar::digit_run_end;
use crate::grammar::digit_val;
use crate::grammar::digits_val;
use crate::grammar::ident_end;
use crate::grammar::is_digit;
use crate::grammar::is_ident_cont;
use crate::grammar::is_ident_start;
use crate::grammar::is_space;
use crate::grammar::spec_ident;
use crate::grammar::spec_uint;
use crate::grammar::ws_end;

verus! {

/// The characters of `input`, in order, as a vector.
pub fn to_chars(input: &str) -> (v: Vec<char>)
    ensures
        v@ == input@,
{
    let n = input.unicode_len();
    let mut v: Vec<char> = Vec::new();
    let mut i: usize = 0;
    while i < n
        invariant
            i <= n == input@.len(),
            v@ == input@.subrange(0, i as int),
        decreases n - i,
    {
        v.push(input.get_char(i));
        i = i + 1;
        assert(v@ =~= input@.subrange(0, i as int));
    }
    assert(v@ =~= input@);
    v
}

/// Relies on `String` implementing `FromIterator<char>`: collecting
/// characters yields a string holding exactly those characters in order.
#[verifier::external_body]
pub(crate) fn chars_to_string(v: &Vec<char>) -> (r: String)
    ensures
        r@ == v@,
{
    v.iter().collect()
}

/// The characters `s[i..j]` as a string.
pub fn seq_to_string(s: &Vec<char>, i: usize, j: usize) -> (r: String)
    requires
        i <= j <= s@.len(),
    ensures
        r@ == s@.subrange(i as int, j as int),
{
    let mut v: Vec<char> = Vec::new();
    let mut k = i;
    while k < j
        invariant
            i <= k <= j <= s@.len(),
            v@ == s@.subrange(i as int, k as int),
        decreases j - k,
    {
        v.push(s[k]);
        k = k + 1;
        assert(v@ =~= s@.subrange(i as int, k as int));
    }
    chars_to_string(&v)
}

/// Executable form of [`is_space`].
pub fn is_space_exec(c: char) -> (r: bool)
    ensures
        r == is_space(c),
{
    c == ' ' || c == '\t' || c == '\n' || c == '\r'
}

/// Executable form of [`is_digit`].
pub fn is_digit_exec(c: char) -> (r: bool)
    ensures
        r == is_digit(c),
{
    let u = c as u32;
    48 <= u && u <= 57
}

/// Executable form of [`is_ident_start`].
pub fn is_ident_start_exec(c: char) -> (r: bool)
    ensures
        r == is_ident_start(c),
{
    let u = c as u32;
    (97 <= u && u <= 122) || (65 <= u && u <= 90) || c == '_'
}

/// Executable form of [`is_ident_cont`].
pub fn is_ident_cont_exec(c: char, relaxed: bool) -> (r: bool)
    ensures
        r == is_ident_cont(c, relaxed),
{
    is_ident_start_exec(c) || is_digit_exec(c) || (relaxed && c == '\'')
}

/// Skip blanks: the end of the run of blank characters starting at `i`.
pub fn skip_spaces(s: &Vec<char>, i: usize) -> (r: usize)
    requires
        i <= s@.len(),
    ensures
        r as int == ws_end(s@, i as int),
        i <= r <= s@.len(),
{
    let mut k = i;
    while k < s.len() && is_space_exec(s[k])
        invariant
            i <= k <= s@.len(),
            ws_end(s@, i as int) == ws_end(s@, k as int),
        decreases s@.len() - k,
    {
        k = k + 1;
    }
    k
}

/// The run of a digit run: `digit_run_end` stays between `i` and the input
/// length.
proof fn lemma_digit_run_end_bounds(s: Seq<char>, i: int)
    requires
        0 <= i <= s.len(),
    ensures
        i <= digit_run_end(s, i) <= s.len(),
    decreases s.len() - i,
{
    if i < s.len() && is_digit(s[i]) {
        lemma_digit_run_end_bounds(s, i + 1);
    }
}

/// Digit values only grow as a run extends to the right.
proof fn lemma_digits_val_mono(s: Seq<char>, i: int, k: int, j: int)
    requires
        i <= k <= j,
    ensures
        digits_val(s, i, k) <= digits_val(s, i, j),
    decreases j - k,
{
    if k < j {
        lemma_digits_val_mono(s, i, k, j - 1);
        assert(digits_val(s, i, j) == digits_val(s, i, j - 1) * 10 + digit_val(s[j - 1]));
        assert(digits_val(s, i, j - 1) * 10 >= digits_val(s, i, j - 1));
    }
}

/// An unsigned decimal literal at `i`, with the value and the position just
/// past it, exactly as [`spec_uint`] gives them.
pub fn parse_uint(s: &Vec<char>, i: usize) -> (r: Option<(usize, usize)>)
    requires
        i <= s@.len(),
    ensures
        match r {
            Option::Some((v, j)) => spec_uint(s@, i as int) == Option::Some((v, j as int)) && i
                < j <= s@.len(),
            Option::None => spec_uint(s@, i as int) is None,
        },
{
    if i < s.len() && s[i] == '0' {
        return Option::Some((0, i + 1));
    }
    if i == s.len() || !is_digit_exec(s[i]) {
        return Option::None;
    }
    proof {
        lemma_digit_run_end_bounds(s@, i as int);
    }
    let ghost run = digit_run_end(s@, i as int);
    let mut k = i;
    let mut acc: usize = 0;
    while k < s.len() && is_digit_exec(s[k])
        invariant
            i <= k <= s@.len(),
            run == digit_run_end(s@, k as int),
            i <= run <= s@.len(),
            acc == digits_val(s@, i as int, k as int),
        decreases s@.len() - k,
    {
        proof {
            lemma_digit_run_end_bounds(s@, k + 1);
        }
        let d = (s[k] as u32 - 48) as usize;
        let stepped = match acc.checked_mul(10) {
            Option::Some(m) => m.checked_add(d),
            Option::None => Option::None,
        };
        match stepped {
            Option::Some(a) => {
                acc = a;
                k = k + 1;
            },
            Option::None => {
                proof {
                    assert(digits_val(s@, i as int, k + 1) == acc * 10 + digit_val(s@[k as int]));
                    assert(digits_val(s@, i as int, k + 1) > usize::MAX);
                    assert(k + 1 <= run);
                    lemma_digits_val_mono(s@, i as int, k + 1, run);
                }
                return Option::None;
            },
        }
    }
    Option::Some((acc, k))
}

/// An identifier at `i`, with the position just past it, exactly as
/// [`spec_ident`] gives them.
pub fn parse_ident(s: &Vec<char>, i: usize, relaxed: bool) -> (r: Option<(String, usize)>)
    requires
        i <= s@.len(),
    ensures
        match r {
            Option::Some((id, j)) => spec_ident(s@, i as int, relaxed) == Option::Some(
                (id@, j as int),
            ) && i < j <= s@.len(),
            Option::None => spec_ident(s@, i as int, relaxed) is None,
        },
{
    if i == s.len() || !is_ident_start_exec(s[i]) {
        return Option::None;
    }
    let mut k = i + 1;
    while k < s.len() && is_ident_cont_exec(s[k], relaxed)
        invariant
            i + 1 <= k <= s@.len(),
            ident_end(s@, i + 1, relaxed) == ident_end(s@, k as int, relaxed),
        decreases s@.len() - k,
    {
        k = k + 1;
    }
    Option::Some((seq_to_string(s, i, k), k))
}

} // verus!
