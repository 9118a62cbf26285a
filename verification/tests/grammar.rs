use a2x::grammar::{AlfaDocParser, Rule};

#[test]
fn test_parse_type_oneline_decl() {
    let input = "type string = \"foo\"";
    let _ = AlfaDocParser::parse(Rule::type_decl, input).unwrap();
}

#[test]
fn test_parse_type_multiline_decl() {
    let input = "type string = \n\"foo\"";
    let _ = AlfaDocParser::parse(Rule::type_decl, input).unwrap();
}

#[test]
fn test_parse_category_oneline_decl() {
    let input = r#"category subjectCat  = "urn:oasis:names:tc:xacml:1.0:subject-category:access-subject""#;
    let _ = AlfaDocParser::parse(Rule::cat_decl, input).unwrap();
}

#[test]
fn test_parse_category_multiline_decl() {
    let input = "category \n   subjectCat  \n= \n\n\t\"urn:oasis:names:tc:xacml:1.0:subject-category:access-subject\"";
    let _ = AlfaDocParser::parse(Rule::cat_decl, input).unwrap();
}

#[test]
fn test_parse_infix_no_mods() {
    let input = r#"infix (<) = {
    "urn:oasis:names:tc:xacml:1.0:function:integer-less-than" : integer integer -> boolean
    "urn:oasis:names:tc:xacml:1.0:function:double-less-than" : double double -> boolean
    }"#;
    let _ = AlfaDocParser::parse(Rule::infix_decl, input).unwrap();
}

#[test]
fn test_parse_infix_allowbags() {
    let input = r#"infix allowbags (<) = {
    "urn:oasis:names:tc:xacml:1.0:function:integer-less-than" : integer integer -> boolean
    "urn:oasis:names:tc:xacml:1.0:function:double-less-than" : double double -> boolean
    }"#;
    let _ = AlfaDocParser::parse(Rule::infix_decl, input).unwrap();
}

#[test]
fn test_parse_infix_multimodifiers() {
    let input = r#"infix allowbags comm (<) = {
    "urn:oasis:names:tc:xacml:1.0:function:integer-less-than" : integer integer -> boolean
    "urn:oasis:names:tc:xacml:1.0:function:double-less-than" : double double -> boolean
    }"#;
    let _ = AlfaDocParser::parse(Rule::infix_decl, input).unwrap();
    // the other order
    let input = r#"infix comm allowbags (<) = {
    "urn:oasis:names:tc:xacml:1.0:function:integer-less-than" : integer integer -> boolean
    "urn:oasis:names:tc:xacml:1.0:function:double-less-than" : double double -> boolean
    }"#;
    let _ = AlfaDocParser::parse(Rule::infix_decl, input).unwrap();
}

#[test]
fn test_numeric_literal() {
    let valid_numbers = vec!["0", "0.0", "9.2", "-1", "-23", "-1.0", ".3", "-.9", "-0"];
    for n in valid_numbers {
        let parsed = AlfaDocParser::parse(Rule::numeric_literal, n).unwrap();
        // the whole string was taken
        assert_eq!(parsed.as_str(), n);
    }
}

#[test]
fn test_boolean_literal() {
    let parsed = AlfaDocParser::parse(Rule::boolean_literal, "true").unwrap();
    assert_eq!(parsed.as_str(), "true");
    let parsed = AlfaDocParser::parse(Rule::boolean_literal, "false").unwrap();
    assert_eq!(parsed.as_str(), "false");
    let parsed = AlfaDocParser::parse(Rule::boolean_literal, "TRUE");
    assert!(parsed.is_err());
    let parsed = AlfaDocParser::parse(Rule::boolean_literal, "True");
    assert!(parsed.is_err());
}

/// Parse Advice declaration
#[test]
fn parse_advice_decl() {
    let input = r#"advice myAdvice1 = "http://example.com/advice/my-advice-1""#;
    assert!(AlfaDocParser::parse(Rule::advice_decl, input).is_ok());
    // comments
    let input =
        r#"advice /* comment */ myAdvice1 /* comment */ = "http://example.com/advice/my-advice-1""#;
    assert!(AlfaDocParser::parse(Rule::advice_decl, input).is_ok());
}

/// Parse Obligation declaration
#[test]
fn parse_oblig_decl() {
    let input = r#"obligation myOblig1 = "http://example.com/obligation/my-obligation-1""#;
    assert!(AlfaDocParser::parse(Rule::obligation_decl, input).is_ok());
    // comments
    let input = r#"obligation /* comment */ myOblig1 /* comment */ = /* comment */ "http://example.com/obligation/my-obligation-1""#;
    assert!(AlfaDocParser::parse(Rule::obligation_decl, input).is_ok());
}

/// Advice and Obligation valid names
#[test]
fn reject_invalid_advice_oblg_names() {
    // a name does not start with a digit
    let adv_input = r#"advice 1myAdvice /* comment */ = "http://example.com/advice/my-advice-1""#;
    assert!(AlfaDocParser::parse(Rule::advice_decl, adv_input).is_err());
    let obl_input =
        r#"obligation 1myOblig /* comment */ = "http://example.com/obligation/my-obligation-1""#;
    assert!(AlfaDocParser::parse(Rule::obligation_decl, obl_input).is_err());
    // nor with a symbol
    let adv_input = r#"advice -myAdvice /* comment */ = "http://example.com/advice/my-advice-1""#;
    assert!(AlfaDocParser::parse(Rule::advice_decl, adv_input).is_err());
    let obl_input =
        r#"obligation -myOblig /* comment */ = "http://example.com/obligation/my-obligation-1""#;
    assert!(AlfaDocParser::parse(Rule::obligation_decl, obl_input).is_err());
}

#[test]
fn a_rule_takes_the_longest_text_and_no_more() {
    let parsed = AlfaDocParser::parse(Rule::numeric_literal, "12.5abc").unwrap();
    assert_eq!(parsed.as_str(), "12.5");
    let parsed = AlfaDocParser::parse(Rule::numeric_literal, "7.").unwrap();
    assert_eq!(parsed.as_str(), "7");
    let parsed = AlfaDocParser::parse(Rule::identifier, "foo_1 bar").unwrap();
    assert_eq!(parsed.as_str(), "foo_1");
    let mut parsed = AlfaDocParser::parse(Rule::string_literal, r#""a\"b" rest"#).unwrap();
    let pair = parsed.next().unwrap();
    assert_eq!(pair.as_str(), r#""a\"b""#);
    assert_eq!(pair.as_rule(), Rule::string_literal);
    assert!(parsed.next().is_none());
    assert!(AlfaDocParser::parse(Rule::numeric_literal, "-").is_err());
    assert!(AlfaDocParser::parse(Rule::numeric_literal, ".").is_err());
    assert!(AlfaDocParser::parse(Rule::string_literal, "\"open").is_err());
}

#[test]
fn an_infix_declaration_may_name_its_inverse() {
    let input = "infix (<) = {\n \"urn:lt\" : integer integer -> boolean\n} inv >";
    let parsed = AlfaDocParser::parse(Rule::infix_decl, input).unwrap();
    assert_eq!(parsed.as_str(), input);
    // a line comment between the signatures
    let input = "infix (<) = { // first\n \"urn:lt\" : integer integer -> boolean\n}";
    let parsed = AlfaDocParser::parse(Rule::infix_decl, input).unwrap();
    assert_eq!(parsed.as_str(), input);
}
