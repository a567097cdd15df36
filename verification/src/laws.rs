//! General properties of the grammar, stated and proved once for all
//! inputs: brace-escaped literal text round-trips to a single text token, a
//! placeholder without a format spec carries only default directives, and
//! no placeholder ever carries two padding directives at once.

use vstd::prelude::*;

use crate::ast::PaddingV;
use crate::ast::Style;
use crate::ast::TokenV;
use crate::grammar::spec_parse;
use crate::grammar::spec_token;
use crate::grammar::spec_tokens;
use crate::grammar::spec_variable;
use crate::grammar::spec_varname;
use crate::grammar::text_elem;
use crate::grammar::text_run;
use crate::grammar::ws_end;

verus! {

/// Literal text with every brace doubled: a sequence of units, each either
/// a non-brace character or one of the escapes `{{` and `}}`.
pub open spec fn is_escaped_literal(s: Seq<char>) -> bool
    decreases s.len(),
{
    if s.len() == 0 {
        true
    } else if s[0] != '{' && s[0] != '}' {
        is_escaped_literal(s.skip(1))
    } else if s.len() >= 2 && s[1] == s[0] {
        is_escaped_literal(s.skip(2))
    } else {
        false
    }
}

/// The unescaping of such text: every `{{` replaced by `{` and every `}}`
/// by `}`, other characters kept as they are.
pub open spec fn unescape(s: Seq<char>) -> Seq<char>
    decreases s.len(),
{
    if s.len() == 0 {
        Seq::empty()
    } else if s[0] != '{' && s[0] != '}' {
        seq![s[0]] + unescape(s.skip(1))
    } else if s.len() >= 2 && s[1] == s[0] {
        seq![s[0]] + unescape(s.skip(2))
    } else {
        Seq::empty()
    }
}

/// On escaped literal text, the text run starting at `i` reaches the end of
/// the input and yields exactly the unescaped suffix.
proof fn lemma_text_run_escaped(s: Seq<char>, i: int)
    requires
        0 <= i <= s.len(),
        is_escaped_literal(s.skip(i)),
    ensures
        text_run(s, i).0 == unescape(s.skip(i)),
        text_run(s, i).1 == s.len(),
    decreases s.len() - i,
{
    let t = s.skip(i);
    if i == s.len() {
        assert(t.len() == 0);
        assert(text_elem(s, i) is None);
    } else {
        assert(t[0] == s[i]);
        if s[i] != '{' && s[i] != '}' {
            assert(t.skip(1) =~= s.skip(i + 1));
            lemma_text_run_escaped(s, i + 1);
            assert(text_elem(s, i) == Option::Some((s[i], i + 1)));
            assert(text_run(s, i).0 == seq![s[i]] + text_run(s, i + 1).0);
            assert(unescape(t) == seq![t[0]] + unescape(t.skip(1)));
        } else {
            assert(t.len() >= 2 && t[1] == t[0]);
            assert(t[1] == s[i + 1]);
            assert(t.skip(2) =~= s.skip(i + 2));
            lemma_text_run_escaped(s, i + 2);
            assert(text_elem(s, i) == Option::Some((s[i], i + 2)));
            assert(text_run(s, i).0 == seq![s[i]] + text_run(s, i + 2).0);
            assert(unescape(t) == seq![t[0]] + unescape(t.skip(2)));
        }
    }
}

/// Round-trip escaping: an input of literal text with every brace doubled —
/// and at least one character — parses, in either identifier mode, to a
/// single text token holding the input with every `{{` turned into `{` and
/// every `}}` into `}`.
pub proof fn lemma_round_trip_escaping(s: Seq<char>, relaxed: bool)
    requires
        is_escaped_literal(s),
        s.len() > 0,
    ensures
        spec_parse(s, relaxed) == Option::Some(seq![TokenV::Text(unescape(s))]),
{
    assert(s.skip(0) =~= s);
    lemma_text_run_escaped(s, 0);
    assert(spec_token(s, 0, relaxed) == Option::Some(
        (TokenV::Text(unescape(s)), s.len() as int),
    ));
    assert(spec_tokens(s, s.len() as int, relaxed) == Option::Some(Seq::<TokenV>::empty()));
    assert(seq![TokenV::Text(unescape(s))] + Seq::<TokenV>::empty() =~= seq![
        TokenV::Text(unescape(s)),
    ]);
}

/// Idempotent default fields: a placeholder with no format spec — `{`, an
/// argument reference, optional blanks, `}` — always parses to a variable
/// token with no padding, no precision, `Display` style, and both flags
/// cleared, whatever the reference and whatever stands around it.
pub proof fn lemma_simple_placeholder_defaults(s: Seq<char>, i: int, relaxed: bool)
    requires
        0 <= i < s.len(),
        s[i] == '{',
        ({
            let (name, p) = spec_varname(s, i + 1, relaxed);
            let q = ws_end(s, p);
            q < s.len() && s[q] == '}'
        }),
    ensures
        ({
            let (name, p) = spec_varname(s, i + 1, relaxed);
            let q = ws_end(s, p);
            spec_variable(s, i, relaxed) == Option::Some(
                (
                    TokenV::Variable {
                        name,
                        padding: Option::None,
                        precision: Option::None,
                        style: Style::Display,
                        pretty: false,
                        sign: false,
                    },
                    q + 1,
                ),
            )
        }),
{
}

/// Whether a token is a placeholder carrying the zero-padding directive.
pub open spec fn has_zero_padding(t: TokenV) -> bool {
    match t {
        TokenV::Variable { padding: Option::Some(PaddingV::ZeroPadding { .. }), .. } => true,
        _ => false,
    }
}

/// Whether a token is a placeholder carrying the text-padding directive.
pub open spec fn has_text_padding(t: TokenV) -> bool {
    match t {
        TokenV::Variable { padding: Option::Some(PaddingV::TextPadding { .. }), .. } => true,
        _ => false,
    }
}

/// Mutual exclusivity: no successfully parsed placeholder ever carries a
/// zero-padding and a text-padding directive at once — a token's one
/// optional padding is one or the other.
pub proof fn lemma_padding_mutually_exclusive(
    s: Seq<char>,
    relaxed: bool,
    toks: Seq<TokenV>,
    k: int,
)
    requires
        spec_parse(s, relaxed) == Option::Some(toks),
        0 <= k < toks.len(),
    ensures
        !(has_zero_padding(toks[k]) && has_text_padding(toks[k])),
{
}

} // verus!
