//! Interpolation strings from the standard `format!` documentation, parsed
//! and compared against their expected token sequences.

use fmtparse::parse;
use fmtparse::Align;
use fmtparse::Padding;
use fmtparse::Param;
use fmtparse::Style;
use fmtparse::Token;
use fmtparse::VarName;

fn check(input: &str, expected: Vec<Token>) {
    let tokens = parse(input).expect("input should parse");
    assert_eq!(tokens, expected);
}

fn text(s: &str) -> Token {
    Token::Text(String::from(s))
}

fn var() -> Token {
    Token::Variable {
        name: VarName::Next,
        padding: None,
        precision: None,
        style: Style::Display,
        pretty: false,
        sign: false,
    }
}

fn var_idx(i: usize) -> Token {
    Token::Variable {
        name: VarName::Index(i),
        padding: None,
        precision: None,
        style: Style::Display,
        pretty: false,
        sign: false,
    }
}

fn var_ident(name: &str) -> Token {
    Token::Variable {
        name: VarName::Ident(String::from(name)),
        padding: None,
        precision: None,
        style: Style::Display,
        pretty: false,
        sign: false,
    }
}

fn var_padded(name: VarName, padding: Padding) -> Token {
    Token::Variable {
        name,
        padding: Some(padding),
        precision: None,
        style: Style::Display,
        pretty: false,
        sign: false,
    }
}

fn text_padding(ch: char, align: Align, width: Param) -> Padding {
    Padding::TextPadding { ch, align, width }
}

#[test]
fn usage_1() {
    check("Hello", vec![text("Hello")]);
}

#[test]
fn usage_2() {
    check("Hello, {}!", vec![text("Hello, "), var(), text("!")]);
}

#[test]
fn usage_3() {
    check("The number is {}", vec![text("The number is "), var()]);
}

#[test]
fn usage_4() {
    check(
        "{:?}",
        vec![Token::Variable {
            name: VarName::Next,
            padding: None,
            precision: None,
            style: Style::Debug,
            pretty: false,
            sign: false,
        }],
    );
}

#[test]
fn usage_5() {
    check("{value}", vec![var_ident("value")]);
}

#[test]
fn usage_6() {
    check(
        "Hello {people}!",
        vec![text("Hello "), var_ident("people"), text("!")],
    );
}

#[test]
fn usage_7() {
    check("{} {}", vec![var(), text(" "), var()]);
}

#[test]
fn usage_8() {
    check(
        "{:04}",
        vec![var_padded(VarName::Next, Padding::ZeroPadding { width: 4 })],
    );
}

#[test]
fn usage_9() {
    check(
        "{:#?}",
        vec![Token::Variable {
            name: VarName::Next,
            padding: None,
            precision: None,
            style: Style::Debug,
            pretty: true,
            sign: false,
        }],
    );
}

#[test]
fn positional_parameters() {
    check(
        "{1} {} {0} {}",
        vec![
            var_idx(1),
            text(" "),
            var(),
            text(" "),
            var_idx(0),
            text(" "),
            var(),
        ],
    );
}

#[test]
fn named_parameters_1() {
    check("{argument}", vec![var_ident("argument")]);
}

#[test]
fn named_parameters_2() {
    check("{name} {}", vec![var_ident("name"), text(" "), var()]);
}

#[test]
fn named_parameters_3() {
    check(
        "{a} {c} {b}",
        vec![
            var_ident("a"),
            text(" "),
            var_ident("c"),
            text(" "),
            var_ident("b"),
        ],
    );
}

#[test]
fn width_1() {
    check(
        "Hello {:5}!",
        vec![
            text("Hello "),
            var_padded(
                VarName::Next,
                text_padding(' ', Align::Left, Param::Const(5)),
            ),
            text("!"),
        ],
    );
}

#[test]
fn width_2() {
    check(
        "Hello {:1$}!",
        vec![
            text("Hello "),
            var_padded(
                VarName::Next,
                text_padding(' ', Align::Left, Param::Dynamic(VarName::Index(1))),
            ),
            text("!"),
        ],
    );
}

#[test]
fn width_3() {
    check(
        "Hello {1:0$}!",
        vec![
            text("Hello "),
            var_padded(
                VarName::Index(1),
                text_padding(' ', Align::Left, Param::Dynamic(VarName::Index(0))),
            ),
            text("!"),
        ],
    );
}

#[test]
fn width_4() {
    check(
        "Hello {:width$}!",
        vec![
            text("Hello "),
            var_padded(
                VarName::Next,
                text_padding(
                    ' ',
                    Align::Left,
                    Param::Dynamic(VarName::Ident(String::from("width"))),
                ),
            ),
            text("!"),
        ],
    );
}

#[test]
fn fill_1() {
    check(
        "Hello {:<5}!",
        vec![
            text("Hello "),
            var_padded(
                VarName::Next,
                text_padding(' ', Align::Left, Param::Const(5)),
            ),
            text("!"),
        ],
    );
}

#[test]
fn fill_2() {
    check(
        "Hello {:-<5}!",
        vec![
            text("Hello "),
            var_padded(
                VarName::Next,
                text_padding('-', Align::Left, Param::Const(5)),
            ),
            text("!"),
        ],
    );
}

#[test]
fn fill_3() {
    check(
        "Hello {:^5}!",
        vec![
            text("Hello "),
            var_padded(
                VarName::Next,
                text_padding(' ', Align::Center, Param::Const(5)),
            ),
            text("!"),
        ],
    );
}

#[test]
fn fill_4() {
    check(
        "Hello {:>5}!",
        vec![
            text("Hello "),
            var_padded(
                VarName::Next,
                text_padding(' ', Align::Right, Param::Const(5)),
            ),
            text("!"),
        ],
    );
}

#[test]
fn sign_1() {
    check(
        "Hello {:+}!",
        vec![
            text("Hello "),
            Token::Variable {
                name: VarName::Next,
                padding: None,
                precision: None,
                style: Style::Display,
                pretty: false,
                sign: true,
            },
            text("!"),
        ],
    );
}

#[test]
fn sign_2() {
    check(
        "{:#x}!",
        vec![
            Token::Variable {
                name: VarName::Next,
                padding: None,
                precision: None,
                style: Style::LowerHex,
                pretty: true,
                sign: false,
            },
            text("!"),
        ],
    );
}

#[test]
fn sign_3() {
    check(
        "Hello {:05}!",
        vec![
            text("Hello "),
            var_padded(VarName::Next, Padding::ZeroPadding { width: 5 }),
            text("!"),
        ],
    );
}

#[test]
fn sign_4() {
    check(
        "{:#010x}!",
        vec![
            Token::Variable {
                name: VarName::Next,
                padding: Some(Padding::ZeroPadding { width: 10 }),
                precision: None,
                style: Style::LowerHex,
                pretty: true,
                sign: false,
            },
            text("!"),
        ],
    );
}

#[test]
fn escaping_1() {
    check("Hello {{}}", vec![text("Hello {}")]);
}

#[test]
fn escaping_2() {
    check("{{ Hello", vec![text("{ Hello")]);
}
