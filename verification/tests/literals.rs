use a2x::ast::constant::{Constant, CustomType};
use a2x::ast::operator::Operator;
use a2x::ast::split_dotted_string;
use a2x::errors::ParseError;
use a2x::grammar::{AlfaDocParser, Rule};
use a2x::syntax::{constant_from_token, process_operator};

fn constant_from_literal(text: &str) -> Result<Constant, ParseError> {
    let mut pairs = AlfaDocParser::parse(Rule::literal, text).map_err(|_| ParseError::AstConvertError)?;
    constant_from_token(pairs.next().ok_or(ParseError::AstConvertError)?)
}

/// Parsing a double-quoted string into a constant
#[test]
fn string_const_from_token() {
    let input = r#""test""#;
    let mut pairs = AlfaDocParser::parse(Rule::literal, input).unwrap();
    let c = constant_from_token(pairs.next().unwrap()).unwrap();
    assert_eq!(c, Constant::String("test".to_string()));
}

/// Parsing a double-quoted string into a constant
#[test]
fn double_esc_quote_string_const_from_token() {
    let input = "\"t\\\"est\"";
    let mut pairs = AlfaDocParser::parse(Rule::literal, input).unwrap();
    let c = constant_from_token(pairs.next().unwrap()).unwrap();
    assert_eq!(c, Constant::String("t\"est".to_string()));
}

/// Parsing a single-quoted string into a constant
#[test]
fn single_esc_quote_string_const_from_token() {
    let input = "'t\\'est'";
    let mut pairs = AlfaDocParser::parse(Rule::literal, input).unwrap();
    let c = constant_from_token(pairs.next().unwrap()).unwrap();
    assert_eq!(c, Constant::String("t'est".to_string()));
}

/// Parsing a single-quoted string into a constant
#[test]
fn string_sq_const_from_token() {
    let input = r"'test'";
    let mut pairs = AlfaDocParser::parse(Rule::literal, input).unwrap();
    let c = constant_from_token(pairs.next().unwrap()).unwrap();
    assert_eq!(c, Constant::String("test".to_string()));
}

/// Parsing a boolean into a constant
#[test]
fn bool_const_from_token() {
    let input = r"true";
    let mut pairs = AlfaDocParser::parse(Rule::literal, input).unwrap();
    let c = constant_from_token(pairs.next().unwrap()).unwrap();
    assert_eq!(c, Constant::Boolean(true));
    let input = r"false";
    let mut pairs = AlfaDocParser::parse(Rule::literal, input).unwrap();
    let c = constant_from_token(pairs.next().unwrap()).unwrap();
    assert_eq!(c, Constant::Boolean(false));
}

/// Parsing an integer into a constant
#[test]
fn int_const_from_token() {
    let input = r"42";
    let mut pairs = AlfaDocParser::parse(Rule::literal, input).unwrap();
    let c = constant_from_token(pairs.next().unwrap()).unwrap();
    assert_eq!(c, Constant::Integer("42".to_string()));
    let input = r"-42";
    let mut pairs = AlfaDocParser::parse(Rule::literal, input).unwrap();
    let c = constant_from_token(pairs.next().unwrap()).unwrap();
    assert_eq!(c, Constant::Integer("-42".to_string()));
}

/// Parsing a double into a constant
#[test]
fn double_const_from_token() {
    let input = r"0.42";
    let mut pairs = AlfaDocParser::parse(Rule::literal, input).unwrap();
    let c = constant_from_token(pairs.next().unwrap()).unwrap();
    assert_eq!(c, Constant::Double("0.42".to_string()));
    let input = r"-.42";
    let mut pairs = AlfaDocParser::parse(Rule::literal, input).unwrap();
    let c = constant_from_token(pairs.next().unwrap()).unwrap();
    assert_eq!(c, Constant::Double("-.42".to_string()));
    let input = r"-0.42";
    let mut pairs = AlfaDocParser::parse(Rule::literal, input).unwrap();
    let c = constant_from_token(pairs.next().unwrap()).unwrap();
    assert_eq!(c, Constant::Double("-0.42".to_string()));
}

/// Parsing a custom datatype into a constant
#[test]
fn custom_const_from_token() {
    let input = r#""127.0.0.1":ipAddress"#;
    let mut pairs = AlfaDocParser::parse(Rule::literal, input).unwrap();
    let c = constant_from_token(pairs.next().unwrap()).unwrap();
    assert_eq!(
        c,
        Constant::Custom(
            CustomType {
                name: "ipAddress".to_string()
            },
            "127.0.0.1".to_string()
        )
    );
}

/// Parsing a single-quoted custom datatype into a constant
#[test]
fn custom_sq_const_from_token() {
    let input = r"'127.0.0.1':ipAddress";
    let mut pairs = AlfaDocParser::parse(Rule::literal, input).unwrap();
    let c = constant_from_token(pairs.next().unwrap()).unwrap();
    assert_eq!(
        c,
        Constant::Custom(
            CustomType {
                name: "ipAddress".to_string()
            },
            "127.0.0.1".to_string()
        )
    );
}

/// Parsing a single-quoted custom datatype into a constant with spaces
#[test]
fn custom_sq_spaced_const_from_token() {
    let input = r"'127.0.0.1' :   ipAddress";
    let mut pairs = AlfaDocParser::parse(Rule::literal, input).unwrap();
    let c = constant_from_token(pairs.next().unwrap()).unwrap();
    assert_eq!(
        c,
        Constant::Custom(
            CustomType {
                name: "ipAddress".to_string()
            },
            "127.0.0.1".to_string()
        )
    );
}

#[test]
fn test_process_operator() {
    let input = "main.foo.bar.+/";
    let mut pairs = AlfaDocParser::parse(Rule::operator_identifier, input).unwrap();
    let op_pair = pairs.next().expect("no operator found");
    assert_eq!(
        process_operator(&op_pair).unwrap(),
        Operator {
            ns: vec!["main".to_string(), "foo".to_string(), "bar".to_string()],
            operator: "+/".to_string()
        }
    );
}

#[test]
fn escape_sequences_are_replaced() {
    // through the real unescaper: a line feed, a tab, a code point
    assert_eq!(
        constant_from_literal(r#""a\nb\tcA""#),
        Ok(Constant::String("a\nb\tcA".to_string()))
    );
    // the content of a typed literal stays as written
    assert_eq!(
        constant_from_literal(r#""a\nb":string"#),
        Ok(Constant::Custom(
            CustomType {
                name: "string".to_string()
            },
            "a\\nb".to_string()
        ))
    );
    // an escape sequence that is not well formed
    assert_eq!(constant_from_literal(r#""a\u12""#), Err(ParseError::AstConvertError));
    assert_eq!(constant_from_literal("nothing"), Err(ParseError::AstConvertError));
    assert_eq!(constant_from_literal(""), Err(ParseError::AstConvertError));
}

#[test]
fn split_at_the_dots() {
    assert_eq!(split_dotted_string(""), (vec![], "".to_string()));
    assert_eq!(split_dotted_string("a"), (vec![], "a".to_string()));
    assert_eq!(
        split_dotted_string("a.b.c"),
        (vec!["a".to_string(), "b".to_string()], "c".to_string())
    );
    assert_eq!(
        split_dotted_string("a..c."),
        (
            vec!["a".to_string(), "".to_string(), "c".to_string()],
            "".to_string()
        )
    );
}
