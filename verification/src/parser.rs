//! The executable parser: recursive descent with explicit positions and
//! bounded lookahead, each function proved to return exactly what the
//! corresponding specification function in [`crate::grammar`] says.

use vstd::prelude::*;

use crate::ast::Align;
use crate::ast::ErrorKind;
use crate::ast::Expected;
use crate::ast::FormatSpecV;
use crate::ast::Padding;
use crate::ast::Param;
use crate::ast::ParseError;
use crate::ast::Style;
use crate::ast::Token;
use crate::ast::VarName;
use crate::grammar::align_of;
use crate::grammar::close_scan;
use crate::grammar::fail_pos;
use crate::grammar::is_align;
use crate::grammar::spec_error;
use crate::grammar::spec_flag;
use crate::grammar::spec_format_spec;
use crate::grammar::spec_parse;
use crate::grammar::spec_prec_param;
use crate::grammar::spec_precision;
use crate::grammar::spec_style;
use crate::grammar::spec_text_padding;
use crate::grammar::spec_token;
use crate::grammar::spec_tokens;
use crate::grammar::spec_var_text_form;
use crate::grammar::spec_var_zero_form;
use crate::grammar::spec_variable;
use crate::grammar::spec_varname;
use crate::grammar::spec_width_param;
use crate::grammar::spec_zero_padding;
use crate::grammar::text_elem;
use crate::grammar::text_run;
use crate::lexer::chars_to_string;
use crate::lexer::parse_ident;
use crate::lexer::parse_uint;
use crate::lexer::skip_spaces;
use crate::lexer::to_chars;

verus! {

/// Executable form of [`is_align`].
fn is_align_exec(c: char) -> (r: bool)
    ensures
        r == is_align(c),
{
    c == '<' || c == '^' || c == '>'
}

/// Executable form of [`align_of`].
fn align_of_exec(c: char) -> (r: Align)
    ensures
        r == align_of(c),
{
    if c == '^' {
        Align::Center
    } else if c == '>' {
        Align::Right
    } else {
        Align::Left
    }
}

impl VarName {
    /// The argument reference at `i`. Never fails: where neither an index
    /// nor an identifier stands, it consumes nothing and yields `Next`.
    pub fn parse(s: &Vec<char>, i: usize, relaxed: bool) -> (r: (VarName, usize))
        requires
            i <= s@.len(),
        ensures
            r.0@ == spec_varname(s@, i as int, relaxed).0,
            r.1 as int == spec_varname(s@, i as int, relaxed).1,
            i <= r.1 <= s@.len(),
    {
        match parse_uint(s, i) {
            Option::Some((n, j)) => (VarName::Index(n), j),
            Option::None => match parse_ident(s, i, relaxed) {
                Option::Some((id, j)) => (VarName::Ident(id), j),
                Option::None => (VarName::Next, i),
            },
        }
    }
}

/// A width parameter at `i`, exactly as [`spec_width_param`] gives it.
fn parse_width_param(s: &Vec<char>, i: usize, relaxed: bool) -> (r: Option<(Param, usize)>)
    requires
        i <= s@.len(),
    ensures
        match r {
            Option::Some((p, j)) => spec_width_param(s@, i as int, relaxed) == Option::Some(
                (p@, j as int),
            ) && i < j <= s@.len(),
            Option::None => spec_width_param(s@, i as int, relaxed) is None,
        },
{
    match parse_uint(s, i) {
        Option::Some((n, j)) => if j < s.len() && s[j] == '$' {
            Option::Some((Param::Dynamic(VarName::Index(n)), j + 1))
        } else {
            Option::Some((Param::Const(n), j))
        },
        Option::None => match parse_ident(s, i, relaxed) {
            Option::Some((id, j)) => if j < s.len() && s[j] == '$' {
                Option::Some((Param::Dynamic(VarName::Ident(id)), j + 1))
            } else {
                Option::None
            },
            Option::None => Option::None,
        },
    }
}

/// A precision parameter at `i`, exactly as [`spec_prec_param`] gives it.
fn parse_prec_param(s: &Vec<char>, i: usize, relaxed: bool) -> (r: Option<(Param, usize)>)
    requires
        i <= s@.len(),
    ensures
        match r {
            Option::Some((p, j)) => spec_prec_param(s@, i as int, relaxed) == Option::Some(
                (p@, j as int),
            ) && i < j <= s@.len(),
            Option::None => spec_prec_param(s@, i as int, relaxed) is None,
        },
{
    match parse_width_param(s, i, relaxed) {
        Option::Some(r) => Option::Some(r),
        Option::None => if i < s.len() && s[i] == '*' {
            Option::Some((Param::Dynamic(VarName::Next), i + 1))
        } else {
            Option::None
        },
    }
}

/// The optional precision directive at `i`, exactly as [`spec_precision`]
/// gives it.
fn parse_precision(s: &Vec<char>, i: usize, relaxed: bool) -> (r: (Option<Param>, usize))
    requires
        i <= s@.len(),
    ensures
        r.0.deep_view() == spec_precision(s@, i as int, relaxed).0,
        r.1 as int == spec_precision(s@, i as int, relaxed).1,
        i <= r.1 <= s@.len(),
{
    if i < s.len() && s[i] == '.' {
        match parse_prec_param(s, i + 1, relaxed) {
            Option::Some((p, j)) => (Option::Some(p), j),
            Option::None => (Option::None, i),
        }
    } else {
        (Option::None, i)
    }
}

/// A single optional flag character at `i`, exactly as [`spec_flag`] gives
/// it.
fn parse_flag(s: &Vec<char>, i: usize, flag: char) -> (r: (bool, usize))
    requires
        i <= s@.len(),
    ensures
        r.0 == spec_flag(s@, i as int, flag).0,
        r.1 as int == spec_flag(s@, i as int, flag).1,
        i <= r.1 <= s@.len(),
{
    if i < s.len() && s[i] == flag {
        (true, i + 1)
    } else {
        (false, i)
    }
}

impl Style {
    /// The type specifier at `i`. Never fails: absence means `Display`.
    pub fn parse(s: &Vec<char>, i: usize) -> (r: (Style, usize))
        requires
            i <= s@.len(),
        ensures
            r.0 == spec_style(s@, i as int).0,
            r.1 as int == spec_style(s@, i as int).1,
            i <= r.1 <= s@.len(),
    {
        if i < s.len() && s[i] == '?' {
            (Style::Debug, i + 1)
        } else if i < s.len() && s[i] == 'x' {
            (Style::LowerHex, i + 1)
        } else if i < s.len() && s[i] == 'X' {
            (Style::UpperHex, i + 1)
        } else if i < s.len() && s[i] == 'b' {
            (Style::Binary, i + 1)
        } else if i < s.len() && s[i] == 'o' {
            (Style::Octal, i + 1)
        } else {
            (Style::Display, i)
        }
    }
}

impl Padding {
    /// The zero-padding shorthand at `i`, exactly as [`spec_zero_padding`]
    /// gives it.
    pub fn parse_zero(s: &Vec<char>, i: usize) -> (r: Option<(Padding, usize)>)
        requires
            i <= s@.len(),
        ensures
            match r {
                Option::Some((p, j)) => spec_zero_padding(s@, i as int) == Option::Some(
                    (p@, j as int),
                ) && i < j <= s@.len(),
                Option::None => spec_zero_padding(s@, i as int) is None,
            },
    {
        if i < s.len() && s[i] == '0' {
            match parse_uint(s, i + 1) {
                Option::Some((w, j)) => Option::Some((Padding::ZeroPadding { width: w }, j)),
                Option::None => Option::None,
            }
        } else {
            Option::None
        }
    }

    /// The text-padding sub-grammar at `i`, exactly as
    /// [`spec_text_padding`] gives it: a candidate fill character counts
    /// only when an alignment symbol follows it.
    pub fn parse_text(s: &Vec<char>, i: usize, relaxed: bool) -> (r: Option<(Padding, usize)>)
        requires
            i <= s@.len(),
        ensures
            match r {
                Option::Some((p, j)) => spec_text_padding(s@, i as int, relaxed)
                    == Option::Some((p@, j as int)) && i < j <= s@.len(),
                Option::None => spec_text_padding(s@, i as int, relaxed) is None,
            },
    {
        let (ch, align, j): (char, Align, usize) = if i < s.len() && s.len() - i > 1
            && is_align_exec(s[i + 1]) {
            (s[i], align_of_exec(s[i + 1]), i + 2)
        } else if i < s.len() && is_align_exec(s[i]) {
            (' ', align_of_exec(s[i]), i + 1)
        } else {
            (' ', Align::Left, i)
        };
        match parse_width_param(s, j, relaxed) {
            Option::Some((w, k)) => Option::Some(
                (Padding::TextPadding { ch, align, width: w }, k),
            ),
            Option::None => Option::None,
        }
    }
}

/// The format spec in its text-padding form, starting just past the `:`.
/// Yields the directives and the position past the closing `}`.
fn parse_var_text_form(s: &Vec<char>, i: usize, relaxed: bool) -> (r: Option<
    (Option<Padding>, Option<Param>, Style, bool, bool, usize),
>)
    requires
        i <= s@.len(),
    ensures
        match r {
            Option::Some((padding, precision, style, pretty, sign, j)) => spec_var_text_form(
                s@,
                i as int,
                relaxed,
            ) == Option::Some(
                (
                    FormatSpecV {
                        padding: padding.deep_view(),
                        precision: precision.deep_view(),
                        style,
                        pretty,
                        sign,
                    },
                    j as int,
                ),
            ) && i < j <= s@.len(),
            Option::None => spec_var_text_form(s@, i as int, relaxed) is None,
        },
{
    let (padding, j1): (Option<Padding>, usize) = match Padding::parse_text(s, i, relaxed) {
        Option::Some((p, k)) => (Option::Some(p), k),
        Option::None => (Option::None, i),
    };
    let (sign, j2) = parse_flag(s, j1, '+');
    let (pretty, j3) = parse_flag(s, j2, '#');
    let (precision, j4) = parse_precision(s, j3, relaxed);
    let (style, j5) = Style::parse(s, j4);
    let j6 = skip_spaces(s, j5);
    if j6 < s.len() && s[j6] == '}' {
        Option::Some((padding, precision, style, pretty, sign, j6 + 1))
    } else {
        Option::None
    }
}

/// The format spec in its zero-padding form, starting just past the `:`.
fn parse_var_zero_form(s: &Vec<char>, i: usize, relaxed: bool) -> (r: Option<
    (Option<Padding>, Option<Param>, Style, bool, bool, usize),
>)
    requires
        i <= s@.len(),
    ensures
        match r {
            Option::Some((padding, precision, style, pretty, sign, j)) => spec_var_zero_form(
                s@,
                i as int,
                relaxed,
            ) == Option::Some(
                (
                    FormatSpecV {
                        padding: padding.deep_view(),
                        precision: precision.deep_view(),
                        style,
                        pretty,
                        sign,
                    },
                    j as int,
                ),
            ) && i < j <= s@.len(),
            Option::None => spec_var_zero_form(s@, i as int, relaxed) is None,
        },
{
    let (sign, j1) = parse_flag(s, i, '+');
    let (pretty, j2) = parse_flag(s, j1, '#');
    let (padding, j3): (Option<Padding>, usize) = match Padding::parse_zero(s, j2) {
        Option::Some((p, k)) => (Option::Some(p), k),
        Option::None => (Option::None, j2),
    };
    let (precision, j4) = parse_precision(s, j3, relaxed);
    let (style, j5) = Style::parse(s, j4);
    let j6 = skip_spaces(s, j5);
    if j6 < s.len() && s[j6] == '}' {
        Option::Some((padding, precision, style, pretty, sign, j6 + 1))
    } else {
        Option::None
    }
}

/// The format spec of a placeholder: the text-padding form where it
/// matches, else the zero-padding form.
fn parse_format_spec(s: &Vec<char>, i: usize, relaxed: bool) -> (r: Option<
    (Option<Padding>, Option<Param>, Style, bool, bool, usize),
>)
    requires
        i <= s@.len(),
    ensures
        match r {
            Option::Some((padding, precision, style, pretty, sign, j)) => spec_format_spec(
                s@,
                i as int,
                relaxed,
            ) == Option::Some(
                (
                    FormatSpecV {
                        padding: padding.deep_view(),
                        precision: precision.deep_view(),
                        style,
                        pretty,
                        sign,
                    },
                    j as int,
                ),
            ) && i < j <= s@.len(),
            Option::None => spec_format_spec(s@, i as int, relaxed) is None,
        },
{
    match parse_var_text_form(s, i, relaxed) {
        Option::Some(r) => Option::Some(r),
        Option::None => parse_var_zero_form(s, i, relaxed),
    }
}

/// A variable placeholder whose `{` stands at `i`, exactly as
/// [`spec_variable`] gives it.
fn parse_variable(s: &Vec<char>, i: usize, relaxed: bool) -> (r: Option<(Token, usize)>)
    requires
        i < s@.len(),
        s@[i as int] == '{',
    ensures
        match r {
            Option::Some((t, j)) => spec_variable(s@, i as int, relaxed) == Option::Some(
                (t.deep_view(), j as int),
            ) && i < j <= s@.len(),
            Option::None => spec_variable(s@, i as int, relaxed) is None,
        },
{
    let n = s.len();
    let (name, p) = VarName::parse(s, i + 1, relaxed);
    let q = skip_spaces(s, p);
    if q < n && s[q] == '}' {
        return Option::Some(
            (
                Token::Variable {
                    name,
                    padding: Option::None,
                    precision: Option::None,
                    style: Style::Display,
                    pretty: false,
                    sign: false,
                },
                q + 1,
            ),
        );
    }
    if p < n && s[p] == ':' {
        match parse_format_spec(s, p + 1, relaxed) {
            Option::Some((padding, precision, style, pretty, sign, j)) => {
                return Option::Some(
                    (Token::Variable { name, padding, precision, style, pretty, sign }, j),
                );
            },
            Option::None => {
                return Option::None;
            },
        }
    }
    Option::None
}

/// One element of a text run at `k`, exactly as [`text_elem`] gives it.
fn text_elem_exec(s: &Vec<char>, k: usize) -> (r: Option<(char, usize)>)
    requires
        k <= s@.len(),
    ensures
        match r {
            Option::Some((c, k2)) => text_elem(s@, k as int) == Option::Some((c, k2 as int)) && k
                < k2 <= s@.len(),
            Option::None => text_elem(s@, k as int) is None,
        },
{
    if k < s.len() && s[k] != '{' && s[k] != '}' {
        Option::Some((s[k], k + 1))
    } else if k < s.len() && s.len() - k > 1 && s[k] == '{' && s[k + 1] == '{' {
        Option::Some(('{', k + 2))
    } else if k < s.len() && s.len() - k > 1 && s[k] == '}' && s[k + 1] == '}' {
        Option::Some(('}', k + 2))
    } else {
        Option::None
    }
}

/// The longest text run starting at `i`: its unescaped characters and its
/// end position, exactly as [`text_run`] gives them.
#[verifier::loop_isolation(true)]
fn parse_text_run(s: &Vec<char>, i: usize) -> (r: (Vec<char>, usize))
    requires
        i <= s@.len(),
    ensures
        r.0@ == text_run(s@, i as int).0,
        r.1 as int == text_run(s@, i as int).1,
        i <= r.1 <= s@.len(),
{
    let mut acc: Vec<char> = Vec::new();
    let mut k = i;
    loop
        invariant
            i <= k <= s@.len(),
            text_run(s@, i as int).0 == acc@ + text_run(s@, k as int).0,
            text_run(s@, i as int).1 == text_run(s@, k as int).1,
        ensures
            i <= k <= s@.len(),
            text_elem(s@, k as int) is None,
            text_run(s@, i as int).0 == acc@ + text_run(s@, k as int).0,
            text_run(s@, i as int).1 == text_run(s@, k as int).1,
        decreases s@.len() - k,
    {
        match text_elem_exec(s, k) {
            Option::Some((c, k2)) => {
                acc.push(c);
                proof {
                    assert(text_run(s@, i as int).0 =~= acc@ + text_run(s@, k2 as int).0);
                }
                k = k2;
            },
            Option::None => {
                break ;
            },
        }
    }
    proof {
        assert(text_run(s@, k as int).0 =~= Seq::<char>::empty());
        assert(acc@ + Seq::<char>::empty() =~= acc@);
    }
    (acc, k)
}

impl Token {
    /// The token at `i`: a nonempty text run if there is one, else a
    /// variable placeholder, exactly as [`spec_token`] gives it.
    pub fn parse(s: &Vec<char>, i: usize, relaxed: bool) -> (r: Option<(Token, usize)>)
        requires
            i <= s@.len(),
        ensures
            match r {
                Option::Some((t, j)) => spec_token(s@, i as int, relaxed) == Option::Some(
                    (t.deep_view(), j as int),
                ) && i < j <= s@.len(),
                Option::None => spec_token(s@, i as int, relaxed) is None,
            },
    {
        let (txt, e) = parse_text_run(s, i);
        if e > i {
            return Option::Some((Token::Text(chars_to_string(&txt)), e));
        }
        if i < s.len() && s[i] == '{' {
            return parse_variable(s, i, relaxed);
        }
        Option::None
    }
}

/// The first `}` at or after `q0`, exactly as [`close_scan`] gives it.
fn find_close(s: &Vec<char>, q0: usize) -> (r: Option<usize>)
    requires
        q0 <= s@.len(),
    ensures
        match r {
            Option::Some(q) => close_scan(s@, q0 as int) == Option::Some(q as int) && q0 <= q
                < s@.len(),
            Option::None => close_scan(s@, q0 as int) is None,
        },
{
    let mut q = q0;
    while q < s.len() && s[q] != '}'
        invariant
            q0 <= q <= s@.len(),
            close_scan(s@, q0 as int) == close_scan(s@, q as int),
        decreases s@.len() - q,
    {
        q = q + 1;
    }
    if q < s.len() {
        Option::Some(q)
    } else {
        Option::None
    }
}

/// Within bounds, a text run ends within bounds too.
proof fn lemma_text_run_bounds(s: Seq<char>, i: int)
    requires
        0 <= i <= s.len(),
    ensures
        i <= text_run(s, i).1 <= s.len(),
    decreases s.len() - i,
{
    match text_elem(s, i) {
        Option::Some((c, k2)) => {
            if i < k2 && k2 <= s.len() {
                lemma_text_run_bounds(s, k2);
            }
        },
        Option::None => {},
    }
}

/// The structured error for the failure position `pos`, exactly as
/// [`spec_error`] gives it.
fn build_error(s: &Vec<char>, pos: usize, relaxed: bool) -> (e: ParseError)
    requires
        pos < s@.len(),
        spec_token(s@, pos as int, relaxed) is None,
        fail_pos(s@, 0, relaxed) == pos,
    ensures
        e == spec_error(s@, relaxed),
{
    let n = s.len();
    proof {
        lemma_text_run_bounds(s@, pos as int);
        if text_elem(s@, pos as int) is Some {
            let (c, k2) = text_elem(s@, pos as int)->Some_0;
            lemma_text_run_bounds(s@, k2);
            assert(text_run(s@, pos as int).1 == text_run(s@, k2).1);
            assert(false);
        }
    }
    if s[pos] == '}' {
        ParseError {
            start: pos,
            end: pos + 1,
            kind: ErrorKind::UnexpectedToken,
            expected: Expected::TokenStart,
        }
    } else {
        match find_close(s, pos + 1) {
            Option::Some(q) => ParseError {
                start: pos,
                end: q + 1,
                kind: ErrorKind::UnexpectedToken,
                expected: Expected::CloseBrace,
            },
            Option::None => ParseError {
                start: pos,
                end: n,
                kind: ErrorKind::Unclosed { open: pos },
                expected: Expected::CloseBrace,
            },
        }
    }
}

/// Parse a whole character sequence into tokens, or report the one
/// structured error of the failure.
fn parse_chars(s: &Vec<char>, relaxed: bool) -> (r: Result<Vec<Token>, Vec<ParseError>>)
    ensures
        (r is Ok) == (spec_tokens(s@, 0, relaxed) is Some),
        r matches Result::Ok(toks) ==> spec_tokens(s@, 0, relaxed) == Option::Some(
            toks.deep_view(),
        ),
        r matches Result::Err(errs) ==> errs@ == seq![spec_error(s@, relaxed)],
{
    let mut toks: Vec<Token> = Vec::new();
    let mut pos: usize = 0;
    while pos < s.len()
        invariant
            pos <= s@.len(),
            spec_tokens(s@, 0, relaxed) == match spec_tokens(s@, pos as int, relaxed) {
                Option::Some(rest) => Option::Some(toks.deep_view() + rest),
                Option::None => Option::<Seq<crate::ast::TokenV>>::None,
            },
            fail_pos(s@, 0, relaxed) == fail_pos(s@, pos as int, relaxed),
        decreases s@.len() - pos,
    {
        match Token::parse(s, pos, relaxed) {
            Option::Some((t, j)) => {
                let ghost prior = toks.deep_view();
                let ghost tv = t.deep_view();
                toks.push(t);
                proof {
                    assert(toks.deep_view() =~= prior.push(tv));
                    if spec_tokens(s@, j as int, relaxed) is Some {
                        let rest = spec_tokens(s@, j as int, relaxed).unwrap();
                        assert(prior.push(tv) + rest =~= prior + (seq![tv] + rest));
                    }
                }
                pos = j;
            },
            Option::None => {
                let e = build_error(s, pos, relaxed);
                let mut errs: Vec<ParseError> = Vec::new();
                errs.push(e);
                proof {
                    assert(errs@ =~= seq![spec_error(s@, relaxed)]);
                }
                return Result::Err(errs);
            },
        }
    }
    proof {
        assert(toks.deep_view() + Seq::<crate::ast::TokenV>::empty() =~= toks.deep_view());
    }
    Result::Ok(toks)
}

/// Parse an interpolation string into its ordered token sequence.
///
/// Exactly the inputs the grammar accepts come back `Ok`, with exactly the
/// token sequence the grammar derives; every other input comes back `Err`
/// with the structured error of the failure position.
pub fn parse(input: &str) -> (r: Result<Vec<Token>, Vec<ParseError>>)
    ensures
        (r is Ok) == (spec_parse(input@, false) is Some),
        r matches Result::Ok(toks) ==> spec_parse(input@, false) == Option::Some(
            toks.deep_view(),
        ),
        r matches Result::Err(errs) ==> errs@ == seq![spec_error(input@, false)],
{
    let chars = to_chars(input);
    parse_chars(&chars, false)
}

/// Parse with the relaxed identifier class, which also admits an
/// apostrophe inside a name. Same contract as [`parse`] otherwise.
pub fn parse_relaxed(input: &str) -> (r: Result<Vec<Token>, Vec<ParseError>>)
    ensures
        (r is Ok) == (spec_parse(input@, true) is Some),
        r matches Result::Ok(toks) ==> spec_parse(input@, true) == Option::Some(
            toks.deep_view(),
        ),
        r matches Result::Err(errs) ==> errs@ == seq![spec_error(input@, true)],
{
    let chars = to_chars(input);
    parse_chars(&chars, true)
}

} // verus!
