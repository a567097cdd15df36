//! Mixed placeholder/escape inputs, the relaxed identifier class, the
//! sub-parsers on their own, and the grammar's less-traveled directives.

use fmtparse::parse;
use fmtparse::parse_relaxed;
use fmtparse::Align;
use fmtparse::Padding;
use fmtparse::Param;
use fmtparse::Style;
use fmtparse::Token;
use fmtparse::VarName;

fn text(s: &str) -> Token {
    Token::Text(String::from(s))
}

fn simple_var(name: VarName) -> Token {
    Token::Variable {
        name,
        padding: None,
        precision: None,
        style: Style::Display,
        pretty: false,
        sign: false,
    }
}

#[test]
fn mix_vars_and_escaping() {
    let tokens = parse("{{{x}}}").expect("input should parse");
    assert_eq!(
        tokens,
        vec![
            text("{"),
            simple_var(VarName::Ident(String::from("x"))),
            text("}"),
        ]
    );
}

#[test]
fn test_relaxed_vars() {
    let tokens = parse_relaxed("{v'}").expect("input should parse");
    assert_eq!(
        tokens,
        vec![simple_var(VarName::Ident(String::from("v'")))]
    );
}

#[test]
fn padding_can_parse_uint() {
    let chars: Vec<char> = vec!['5'];
    let parsed = Padding::parse_text(&chars, 0, false);
    assert_eq!(
        parsed,
        Some((
            Padding::TextPadding {
                ch: ' ',
                align: Align::Left,
                width: Param::Const(5),
            },
            1,
        ))
    );
}

#[test]
fn relaxed_name_is_rejected_in_strict_mode() {
    assert!(parse("{v'}").is_err());
}

#[test]
fn empty_input_parses_to_no_tokens() {
    let tokens = parse("").expect("empty input should parse");
    assert_eq!(tokens, Vec::<Token>::new());
}

#[test]
fn blanks_before_closing_brace() {
    let tokens = parse("{name }").expect("input should parse");
    assert_eq!(tokens, vec![simple_var(VarName::Ident(String::from("name")))]);
}

#[test]
fn large_index_parses_exactly() {
    let tokens = parse("{250}").expect("input should parse");
    assert_eq!(tokens, vec![simple_var(VarName::Index(250))]);
}

#[test]
fn zero_padding_with_long_width() {
    let tokens = parse("{:0123}").expect("input should parse");
    assert_eq!(
        tokens,
        vec![Token::Variable {
            name: VarName::Next,
            padding: Some(Padding::ZeroPadding { width: 123 }),
            precision: None,
            style: Style::Display,
            pretty: false,
            sign: false,
        }]
    );
}

#[test]
fn precision_constant() {
    let tokens = parse("{:.3}").expect("input should parse");
    assert_eq!(
        tokens,
        vec![Token::Variable {
            name: VarName::Next,
            padding: None,
            precision: Some(Param::Const(3)),
            style: Style::Display,
            pretty: false,
            sign: false,
        }]
    );
}

#[test]
fn precision_from_next_argument() {
    let tokens = parse("{:.*}").expect("input should parse");
    assert_eq!(
        tokens,
        vec![Token::Variable {
            name: VarName::Next,
            padding: None,
            precision: Some(Param::Dynamic(VarName::Next)),
            style: Style::Display,
            pretty: false,
            sign: false,
        }]
    );
}

#[test]
fn precision_by_index() {
    let tokens = parse("{:.1$}").expect("input should parse");
    assert_eq!(
        tokens,
        vec![Token::Variable {
            name: VarName::Next,
            padding: None,
            precision: Some(Param::Dynamic(VarName::Index(1))),
            style: Style::Display,
            pretty: false,
            sign: false,
        }]
    );
}

#[test]
fn precision_by_name() {
    let tokens = parse("{:.prec$}").expect("input should parse");
    assert_eq!(
        tokens,
        vec![Token::Variable {
            name: VarName::Next,
            padding: None,
            precision: Some(Param::Dynamic(VarName::Ident(String::from("prec")))),
            style: Style::Display,
            pretty: false,
            sign: false,
        }]
    );
}

#[test]
fn style_upper_hex() {
    let tokens = parse("{:X}").expect("input should parse");
    assert_eq!(
        tokens,
        vec![Token::Variable {
            name: VarName::Next,
            padding: None,
            precision: None,
            style: Style::UpperHex,
            pretty: false,
            sign: false,
        }]
    );
}

#[test]
fn style_binary() {
    let tokens = parse("{:b}").expect("input should parse");
    assert_eq!(
        tokens,
        vec![Token::Variable {
            name: VarName::Next,
            padding: None,
            precision: None,
            style: Style::Binary,
            pretty: false,
            sign: false,
        }]
    );
}

#[test]
fn style_octal() {
    let tokens = parse("{:o}").expect("input should parse");
    assert_eq!(
        tokens,
        vec![Token::Variable {
            name: VarName::Next,
            padding: None,
            precision: None,
            style: Style::Octal,
            pretty: false,
            sign: false,
        }]
    );
}

#[test]
fn all_directives_at_once() {
    let tokens = parse("{2:+#08x}").expect("input should parse");
    assert_eq!(
        tokens,
        vec![Token::Variable {
            name: VarName::Index(2),
            padding: Some(Padding::ZeroPadding { width: 8 }),
            precision: None,
            style: Style::LowerHex,
            pretty: true,
            sign: true,
        }]
    );
}

#[test]
fn fill_with_width_and_precision() {
    let tokens = parse("{:*^6.2}").expect("input should parse");
    assert_eq!(
        tokens,
        vec![Token::Variable {
            name: VarName::Next,
            padding: Some(Padding::TextPadding {
                ch: '*',
                align: Align::Center,
                width: Param::Const(6),
            }),
            precision: Some(Param::Const(2)),
            style: Style::Display,
            pretty: false,
            sign: false,
        }]
    );
}
