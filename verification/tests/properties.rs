//! Concrete instances of the general properties the library proves: escaped
//! text round-trips to one text token, spec-less placeholders carry only
//! defaults, and a placeholder never carries two padding directives.

use fmtparse::parse;
use fmtparse::Padding;
use fmtparse::Style;
use fmtparse::Token;
use fmtparse::VarName;

#[test]
fn round_trip_doubled_braces() {
    let tokens = parse("a{{b}}c").expect("escaped text should parse");
    assert_eq!(tokens, vec![Token::Text(String::from("a{b}c"))]);

    let tokens = parse("{{}}{{").expect("escaped text should parse");
    assert_eq!(tokens, vec![Token::Text(String::from("{}{"))]);
}

#[test]
fn spec_less_placeholders_have_default_fields() {
    for input in ["{}", "{name}", "{3}"] {
        let tokens = parse(input).expect("placeholder should parse");
        assert_eq!(tokens.len(), 1);
        match &tokens[0] {
            Token::Variable { padding, precision, style, pretty, sign, .. } => {
                assert_eq!(*padding, None);
                assert_eq!(*precision, None);
                assert_eq!(*style, Style::Display);
                assert!(!*pretty);
                assert!(!*sign);
            }
            Token::Text(_) => panic!("expected a variable token"),
        }
    }
    let tokens = parse("{name}").expect("placeholder should parse");
    match &tokens[0] {
        Token::Variable { name, .. } => {
            assert_eq!(*name, VarName::Ident(String::from("name")));
        }
        Token::Text(_) => panic!("expected a variable token"),
    }
}

#[test]
fn padding_directives_never_coexist() {
    for input in ["{:04}", "{:-<5}", "{:5}", "{:#010x}", "{:*^6.2}"] {
        let tokens = parse(input).expect("placeholder should parse");
        for token in &tokens {
            if let Token::Variable { padding, .. } = token {
                // one optional padding: zero-fill or text-fill, never both
                match padding {
                    None => {}
                    Some(Padding::ZeroPadding { .. }) => {}
                    Some(Padding::TextPadding { .. }) => {}
                }
            }
        }
    }
    let tokens = parse("{:04}").expect("placeholder should parse");
    match &tokens[0] {
        Token::Variable { padding, .. } => {
            assert_eq!(*padding, Some(Padding::ZeroPadding { width: 4 }));
        }
        Token::Text(_) => panic!("expected a variable token"),
    }
}
