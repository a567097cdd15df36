//! The interpolation grammar, stated mathematically.
//!
//! Every function here is a specification function over a `Seq<char>` and a
//! character position. Each mirrors one sub-grammar: it returns the parsed
//! value together with the position just past what it consumed, or `None`
//! where the sub-grammar does not match. Ordered choice is written out as
//! nested matches, first alternative first. The executable parser in
//! [`crate::parser`] is proved to agree with [`spec_parse`] on every input.

use vstd::prelude::*;

use crate::ast::Align;
use crate::ast::ErrorKind;
use crate::ast::Expected;
use crate::ast::FormatSpecV;
use crate::ast::PaddingV;
use crate::ast::ParamV;
use crate::ast::ParseError;
use crate::ast::Style;
use crate::ast::TokenV;
use crate::ast::VarNameV;

verus! {

/// A decimal digit.
pub open spec fn is_digit(c: char) -> bool {
    48 <= c as u32 && c as u32 <= 57
}

/// The numeric value of a decimal digit.
pub open spec fn digit_val(c: char) -> nat {
    ((c as u32) - 48) as nat
}

/// A character that may open an identifier: an ASCII letter or `_`.
pub open spec fn is_ident_start(c: char) -> bool {
    ||| 97 <= c as u32 && c as u32 <= 122
    ||| 65 <= c as u32 && c as u32 <= 90
    ||| c == '_'
}

/// A character that may continue an identifier. The relaxed identifier
/// class additionally admits an apostrophe.
pub open spec fn is_ident_cont(c: char, relaxed: bool) -> bool {
    is_ident_start(c) || is_digit(c) || (relaxed && c == '\'')
}

/// Blank characters that may stand between a placeholder's content and its
/// closing `}`: space, tab, line feed, carriage return.
pub open spec fn is_space(c: char) -> bool {
    c == ' ' || c == '\t' || c == '\n' || c == '\r'
}

/// One of the three alignment symbols.
pub open spec fn is_align(c: char) -> bool {
    c == '<' || c == '^' || c == '>'
}

/// The alignment a symbol denotes.
pub open spec fn align_of(c: char) -> Align {
    if c == '^' {
        Align::Center
    } else if c == '>' {
        Align::Right
    } else {
        Align::Left
    }
}

/// The end of the run of blank characters starting at `i`.
pub open spec fn ws_end(s: Seq<char>, i: int) -> int
    decreases s.len() - i,
{
    if 0 <= i && i < s.len() && is_space(s[i]) {
        ws_end(s, i + 1)
    } else {
        i
    }
}

/// The end of the run of decimal digits starting at `i`.
pub open spec fn digit_run_end(s: Seq<char>, i: int) -> int
    decreases s.len() - i,
{
    if 0 <= i && i < s.len() && is_digit(s[i]) {
        digit_run_end(s, i + 1)
    } else {
        i
    }
}

/// The value of the decimal digits `s[i..j]`.
pub open spec fn digits_val(s: Seq<char>, i: int, j: int) -> nat
    decreases j - i,
{
    if i < j {
        digits_val(s, i, j - 1) * 10 + digit_val(s[j - 1])
    } else {
        0
    }
}

/// An unsigned decimal integer without leading zeroes: either the single
/// digit `0`, or a nonzero digit followed by any further digits. A leading
/// zero is an integer on its own; the zero-padding shorthand depends on
/// that. A literal whose value exceeds `usize::MAX` does not parse.
pub open spec fn spec_uint(s: Seq<char>, i: int) -> Option<(usize, int)> {
    if 0 <= i && i < s.len() && s[i] == '0' {
        Option::Some((0usize, i + 1))
    } else if 0 <= i && i < s.len() && is_digit(s[i]) {
        let j = digit_run_end(s, i);
        if digits_val(s, i, j) <= usize::MAX {
            Option::Some((digits_val(s, i, j) as usize, j))
        } else {
            Option::None
        }
    } else {
        Option::None
    }
}

/// The end of the run of identifier-continuation characters starting at `i`.
pub open spec fn ident_end(s: Seq<char>, i: int, relaxed: bool) -> int
    decreases s.len() - i,
{
    if 0 <= i && i < s.len() && is_ident_cont(s[i], relaxed) {
        ident_end(s, i + 1, relaxed)
    } else {
        i
    }
}

/// An identifier: an identifier-start character followed by any
/// identifier-continuation characters.
pub open spec fn spec_ident(s: Seq<char>, i: int, relaxed: bool) -> Option<(Seq<char>, int)> {
    if 0 <= i && i < s.len() && is_ident_start(s[i]) {
        let j = ident_end(s, i + 1, relaxed);
        Option::Some((s.subrange(i, j), j))
    } else {
        Option::None
    }
}

/// An argument reference: an index, an identifier, or — consuming nothing —
/// no explicit reference. The alternatives are tried in that order, so this
/// never fails; at worst it fails to progress.
pub open spec fn spec_varname(s: Seq<char>, i: int, relaxed: bool) -> (VarNameV, int) {
    match spec_uint(s, i) {
        Option::Some((n, j)) => (VarNameV::Index(n), j),
        Option::None => match spec_ident(s, i, relaxed) {
            Option::Some((id, j)) => (VarNameV::Ident(id), j),
            Option::None => (VarNameV::Next, i),
        },
    }
}

/// A width parameter: `<uint>$` (dynamic, by index), `<ident>$` (dynamic,
/// by name), or a bare integer (constant). The dynamic forms win over the
/// constant form exactly when the `$` follows.
pub open spec fn spec_width_param(s: Seq<char>, i: int, relaxed: bool) -> Option<(ParamV, int)> {
    match spec_uint(s, i) {
        Option::Some((n, j)) => if j < s.len() && s[j] == '$' {
            Option::Some((ParamV::Dynamic(VarNameV::Index(n)), j + 1))
        } else {
            Option::Some((ParamV::Const(n), j))
        },
        Option::None => match spec_ident(s, i, relaxed) {
            Option::Some((id, j)) => if j < s.len() && s[j] == '$' {
                Option::Some((ParamV::Dynamic(VarNameV::Ident(id)), j + 1))
            } else {
                Option::None
            },
            Option::None => Option::None,
        },
    }
}

/// A precision parameter: the width forms, plus a bare `*` meaning "take
/// the next positional argument's value".
pub open spec fn spec_prec_param(s: Seq<char>, i: int, relaxed: bool) -> Option<(ParamV, int)> {
    match spec_width_param(s, i, relaxed) {
        Option::Some(r) => Option::Some(r),
        Option::None => if 0 <= i && i < s.len() && s[i] == '*' {
            Option::Some((ParamV::Dynamic(VarNameV::Next), i + 1))
        } else {
            Option::None
        },
    }
}

/// The optional precision directive: `.` followed by a precision parameter.
/// Where no parameter follows the `.`, nothing is consumed — not even the
/// `.` — and no precision is recorded.
pub open spec fn spec_precision(s: Seq<char>, i: int, relaxed: bool) -> (Option<ParamV>, int) {
    if 0 <= i && i < s.len() && s[i] == '.' {
        match spec_prec_param(s, i + 1, relaxed) {
            Option::Some((p, j)) => (Option::Some(p), j),
            Option::None => (Option::None, i),
        }
    } else {
        (Option::None, i)
    }
}

/// A single optional flag character.
pub open spec fn spec_flag(s: Seq<char>, i: int, flag: char) -> (bool, int) {
    if 0 <= i && i < s.len() && s[i] == flag {
        (true, i + 1)
    } else {
        (false, i)
    }
}

/// The trailing type specifier; absence means `Display`.
pub open spec fn spec_style(s: Seq<char>, i: int) -> (Style, int) {
    if 0 <= i && i < s.len() && s[i] == '?' {
        (Style::Debug, i + 1)
    } else if 0 <= i && i < s.len() && s[i] == 'x' {
        (Style::LowerHex, i + 1)
    } else if 0 <= i && i < s.len() && s[i] == 'X' {
        (Style::UpperHex, i + 1)
    } else if 0 <= i && i < s.len() && s[i] == 'b' {
        (Style::Binary, i + 1)
    } else if 0 <= i && i < s.len() && s[i] == 'o' {
        (Style::Octal, i + 1)
    } else {
        (Style::Display, i)
    }
}

/// The text-padding sub-grammar: an optional fill character, an alignment
/// symbol, and a width parameter. A candidate fill character counts only
/// when an alignment symbol follows it; a lone alignment symbol keeps the
/// default fill (space); with neither, the fill is a space and the
/// alignment is `Left`. The width parameter is mandatory: without one there
/// is no text padding at all.
pub open spec fn spec_text_padding(s: Seq<char>, i: int, relaxed: bool) -> Option<
    (PaddingV, int),
> {
    let (ch, align, j) = if 0 <= i && i + 1 < s.len() && is_align(s[i + 1]) {
        (s[i], align_of(s[i + 1]), i + 2)
    } else if 0 <= i && i < s.len() && is_align(s[i]) {
        (' ', align_of(s[i]), i + 1)
    } else {
        (' ', Align::Left, i)
    };
    match spec_width_param(s, j, relaxed) {
        Option::Some((w, k)) => Option::Some(
            (PaddingV::TextPadding { ch, align, width: w }, k),
        ),
        Option::None => Option::None,
    }
}

/// The zero-padding shorthand: a literal `0` immediately followed by an
/// integer literal, the width. The width of this form is never dynamic.
pub open spec fn spec_zero_padding(s: Seq<char>, i: int) -> Option<(PaddingV, int)> {
    if 0 <= i && i < s.len() && s[i] == '0' {
        match spec_uint(s, i + 1) {
            Option::Some((w, j)) => Option::Some((PaddingV::ZeroPadding { width: w }, j)),
            Option::None => Option::None,
        }
    } else {
        Option::None
    }
}

/// A format spec that may carry text padding but no zero padding: optional
/// text padding, then the `+` and `#` flags, the precision, the style,
/// blanks, and the closing `}`. `i` stands just past the `:`; the returned
/// position stands past the `}`.
pub open spec fn spec_var_text_form(s: Seq<char>, i: int, relaxed: bool) -> Option<
    (FormatSpecV, int),
> {
    let (padding, j1) = match spec_text_padding(s, i, relaxed) {
        Option::Some((p, k)) => (Option::Some(p), k),
        Option::None => (Option::None, i),
    };
    let (sign, j2) = spec_flag(s, j1, '+');
    let (pretty, j3) = spec_flag(s, j2, '#');
    let (precision, j4) = spec_precision(s, j3, relaxed);
    let (style, j5) = spec_style(s, j4);
    let j6 = ws_end(s, j5);
    if j6 < s.len() && s[j6] == '}' {
        Option::Some((FormatSpecV { padding, precision, style, pretty, sign }, j6 + 1))
    } else {
        Option::None
    }
}

/// A format spec that may carry zero padding but no text padding: the `+`
/// and `#` flags first, then optional zero padding, the precision, the
/// style, blanks, and the closing `}`. The flags come first because the
/// zero-padding shorthand can only be recognized once they are out of the
/// way, whereas text padding starts right after the `:`.
pub open spec fn spec_var_zero_form(s: Seq<char>, i: int, relaxed: bool) -> Option<
    (FormatSpecV, int),
> {
    let (sign, j1) = spec_flag(s, i, '+');
    let (pretty, j2) = spec_flag(s, j1, '#');
    let (padding, j3) = match spec_zero_padding(s, j2) {
        Option::Some((p, k)) => (Option::Some(p), k),
        Option::None => (Option::None, j2),
    };
    let (precision, j4) = spec_precision(s, j3, relaxed);
    let (style, j5) = spec_style(s, j4);
    let j6 = ws_end(s, j5);
    if j6 < s.len() && s[j6] == '}' {
        Option::Some((FormatSpecV { padding, precision, style, pretty, sign }, j6 + 1))
    } else {
        Option::None
    }
}

/// The format spec of a placeholder: the text-padding form where it
/// matches, else the zero-padding form, in that order.
pub open spec fn spec_format_spec(s: Seq<char>, i: int, relaxed: bool) -> Option<
    (FormatSpecV, int),
> {
    match spec_var_text_form(s, i, relaxed) {
        Option::Some(r) => Option::Some(r),
        Option::None => spec_var_zero_form(s, i, relaxed),
    }
}

/// The format spec every simple placeholder carries: all directives at
/// their defaults.
pub open spec fn default_format_spec() -> FormatSpecV {
    FormatSpecV {
        padding: Option::None,
        precision: Option::None,
        style: Style::Display,
        pretty: false,
        sign: false,
    }
}

/// The token a placeholder with the given reference and directives parses
/// to.
pub open spec fn variable_token(name: VarNameV, f: FormatSpecV) -> TokenV {
    TokenV::Variable {
        name,
        padding: f.padding,
        precision: f.precision,
        style: f.style,
        pretty: f.pretty,
        sign: f.sign,
    }
}

/// A variable placeholder, `i` standing on its opening `{`: the argument
/// reference, then either — after optional blanks — the closing `}` (a
/// simple placeholder, all directives at their defaults), or a `:` and a
/// format spec.
pub open spec fn spec_variable(s: Seq<char>, i: int, relaxed: bool) -> Option<(TokenV, int)> {
    let (name, p) = spec_varname(s, i + 1, relaxed);
    let q = ws_end(s, p);
    if q < s.len() && s[q] == '}' {
        Option::Some((variable_token(name, default_format_spec()), q + 1))
    } else if p < s.len() && s[p] == ':' {
        match spec_format_spec(s, p + 1, relaxed) {
            Option::Some((f, j)) => Option::Some((variable_token(name, f), j)),
            Option::None => Option::None,
        }
    } else {
        Option::None
    }
}

/// One element of a text run: any character other than a brace, or one of
/// the two-character escapes `{{` and `}}`, already unescaped.
pub open spec fn text_elem(s: Seq<char>, k: int) -> Option<(char, int)> {
    if 0 <= k && k < s.len() && s[k] != '{' && s[k] != '}' {
        Option::Some((s[k], k + 1))
    } else if 0 <= k && k + 1 < s.len() && s[k] == '{' && s[k + 1] == '{' {
        Option::Some(('{', k + 2))
    } else if 0 <= k && k + 1 < s.len() && s[k] == '}' && s[k + 1] == '}' {
        Option::Some(('}', k + 2))
    } else {
        Option::None
    }
}

/// The longest text run starting at `k`: its unescaped content and its end
/// position. May be empty.
pub open spec fn text_run(s: Seq<char>, k: int) -> (Seq<char>, int)
    decreases s.len() - k,
{
    match text_elem(s, k) {
        Option::Some((c, k2)) => if k < k2 && k2 <= s.len() {
            let rest = text_run(s, k2);
            (seq![c] + rest.0, rest.1)
        } else {
            (Seq::empty(), k)
        },
        Option::None => (Seq::empty(), k),
    }
}

/// One token at position `i`: a nonempty text run if there is one, else a
/// variable placeholder if `{` opens one, else nothing.
pub open spec fn spec_token(s: Seq<char>, i: int, relaxed: bool) -> Option<(TokenV, int)> {
    let t = text_run(s, i);
    if t.1 > i {
        Option::Some((TokenV::Text(t.0), t.1))
    } else if 0 <= i && i < s.len() && s[i] == '{' {
        spec_variable(s, i, relaxed)
    } else {
        Option::None
    }
}

/// The token sequence from `i` to the end of the input, or `None` where
/// some position matches no token.
pub open spec fn spec_tokens(s: Seq<char>, i: int, relaxed: bool) -> Option<Seq<TokenV>>
    decreases s.len() - i,
{
    if i >= s.len() {
        Option::Some(Seq::empty())
    } else {
        match spec_token(s, i, relaxed) {
            Option::Some((t, j)) => if i < j && j <= s.len() {
                match spec_tokens(s, j, relaxed) {
                    Option::Some(rest) => Option::Some(seq![t] + rest),
                    Option::None => Option::None,
                }
            } else {
                Option::None
            },
            Option::None => Option::None,
        }
    }
}

/// What the whole input means: its token sequence, or `None` where it has a
/// syntax error.
pub open spec fn spec_parse(s: Seq<char>, relaxed: bool) -> Option<Seq<TokenV>> {
    spec_tokens(s, 0, relaxed)
}

/// The position where parsing stops: the first position, walking whole
/// tokens from the start, that matches no token. Equal to the input length
/// exactly when the whole input parses.
pub open spec fn fail_pos(s: Seq<char>, i: int, relaxed: bool) -> int
    decreases s.len() - i,
{
    if i >= s.len() {
        i
    } else {
        match spec_token(s, i, relaxed) {
            Option::Some((t, j)) => if i < j && j <= s.len() {
                fail_pos(s, j, relaxed)
            } else {
                i
            },
            Option::None => i,
        }
    }
}

/// The first `}` at or after `q`, if any.
pub open spec fn close_scan(s: Seq<char>, q: int) -> Option<int>
    decreases s.len() - q,
{
    if 0 <= q && q < s.len() {
        if s[q] == '}' {
            Option::Some(q)
        } else {
            close_scan(s, q + 1)
        }
    } else {
        Option::None
    }
}

/// The structured error a failed parse reports. A stray `}` is an
/// unexpected token of its own width. A placeholder that went wrong is an
/// unexpected token spanning from its `{` through the `}` that would close
/// it; where no `}` remains before the input ends, the `{` is an unclosed
/// delimiter and the span runs to the end of the input.
pub open spec fn spec_error(s: Seq<char>, relaxed: bool) -> ParseError {
    let p = fail_pos(s, 0, relaxed);
    if 0 <= p && p < s.len() && s[p] == '}' {
        ParseError {
            start: p as usize,
            end: (p + 1) as usize,
            kind: ErrorKind::UnexpectedToken,
            expected: Expected::TokenStart,
        }
    } else if 0 <= p && p < s.len() && s[p] == '{' {
        match close_scan(s, p + 1) {
            Option::Some(q) => ParseError {
                start: p as usize,
                end: (q + 1) as usize,
                kind: ErrorKind::UnexpectedToken,
                expected: Expected::CloseBrace,
            },
            Option::None => ParseError {
                start: p as usize,
                end: s.len() as usize,
                kind: ErrorKind::Unclosed { open: p as usize },
                expected: Expected::CloseBrace,
            },
        }
    } else {
        ParseError {
            start: s.len() as usize,
            end: s.len() as usize,
            kind: ErrorKind::UnexpectedEof,
            expected: Expected::TokenStart,
        }
    }
}

} // verus!
