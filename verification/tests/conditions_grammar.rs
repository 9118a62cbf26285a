use a2x::grammar::{AlfaDocParser, Rule};

/// Parse simple condition
#[test]
fn parse_condition_literal() {
    let input = "condition true";
    let pairs = AlfaDocParser::parse(Rule::condition_stmt, input);
    assert!(pairs.is_ok());
    let c = pairs.unwrap().next().unwrap();
    assert_eq!(input, c.as_str());
}

/// Parse simple condition
#[test]
fn parse_condition_simple_op() {
    let input = "condition 3 + 3";
    assert!(AlfaDocParser::parse(Rule::condition_stmt, input).is_ok());
}

/// Parse simple condition, but not too far
#[test]
fn parse_condition_stop_at_extra_op() {
    // an operator without an operand behind it is not part of the rule
    let input = "condition 3 + 3 +";
    let pairs = AlfaDocParser::parse(Rule::condition_stmt, input);
    assert!(pairs.is_ok());
    let c = pairs.unwrap().next().unwrap();
    assert_eq!("condition 3 + 3", c.as_str());
}

/// Parse simple identifier with parens
#[test]
fn parse_condition_simple_paren() {
    let input = "condition (3)";
    let pairs = AlfaDocParser::parse(Rule::condition_stmt, input);
    assert!(pairs.is_ok());
    let c = pairs.unwrap().next().unwrap();
    assert_eq!(input, c.as_str());
}

/// Parse simple identifier with parens and ops
#[test]
fn parse_condition_paren_ops() {
    let input = "condition (3)+(3)";
    let pairs = AlfaDocParser::parse(Rule::condition_stmt, input);
    assert!(pairs.is_ok());
    let c = pairs.unwrap().next().unwrap();
    assert_eq!(input, c.as_str());
}

/// Parse simple condition with function
#[test]
fn parse_condition_simple_fun() {
    let input = "condition fun(3)";
    let pairs = AlfaDocParser::parse(Rule::condition_stmt, input);
    assert!(pairs.is_ok());
    let c = pairs.unwrap().next().unwrap();
    assert_eq!(input, c.as_str());
}

/// Parse simple condition with function and multiple args
#[test]
fn parse_condition_simple_fun_many_args() {
    let input = "condition fun(1,2,3,4,5)";
    let pairs = AlfaDocParser::parse(Rule::condition_stmt, input);
    assert!(pairs.is_ok());
    let c = pairs.unwrap().next().unwrap();
    assert_eq!(input, c.as_str());
}

/// Parse simple condition with function and nested operators
#[test]
fn parse_condition_simple_fun_nested_ops() {
    let input = "condition fun(1+1)";
    let pairs = AlfaDocParser::parse(Rule::condition_stmt, input);
    assert!(pairs.is_ok());
    let c = pairs.unwrap().next().unwrap();
    assert_eq!(input, c.as_str());

    let input = "condition fun(1+1,2)";
    let pairs = AlfaDocParser::parse(Rule::condition_stmt, input);
    assert!(pairs.is_ok());
    let c = pairs.unwrap().next().unwrap();
    assert_eq!(input, c.as_str());

    let input = "condition fun(1,2-3,4-2)";
    let pairs = AlfaDocParser::parse(Rule::condition_stmt, input);
    assert!(pairs.is_ok());
    let c = pairs.unwrap().next().unwrap();
    assert_eq!(input, c.as_str());
}

#[test]
fn parse_condition_logical_and() {
    let input = "condition true && true && true";
    let pairs = AlfaDocParser::parse(Rule::condition_stmt, input);
    assert!(pairs.is_ok());
    let c = pairs.unwrap().next().unwrap();
    assert_eq!(input, c.as_str());
}

#[test]
fn parse_condition_complex_min() {
    let input = "condition booleanFromString(1)++bar";
    let pairs = AlfaDocParser::parse(Rule::condition_stmt, input);
    assert!(pairs.is_ok());
    let c = pairs.unwrap().next().unwrap();
    assert_eq!(input, c.as_str());
}

#[test]
fn parse_condition_complex() {
    let input = r#"condition booleanFromString ( stringSubString("foo", 4+3, 3--4)) && true"#;
    let pairs = AlfaDocParser::parse(Rule::condition_stmt, input);
    assert!(pairs.is_ok());
    let c = pairs.unwrap().next().unwrap();
    assert_eq!(input, c.as_str());
}

/// Varieties of attribute designator options, with everything else
#[test]
fn parse_condition_designator_attrib() {
    let input = r#"condition AttribDesig[mustbepresent issuer="foo"] +/ booleanFromString ( stringSubString("foo", AttribDesig[mustbepresent], AttribDesig[issuer="foo"],4+3, 3--4)) && true"#;
    let pairs = AlfaDocParser::parse(Rule::condition_stmt, input);
    assert!(pairs.is_ok());
    let c = pairs.unwrap().next().unwrap();
    assert_eq!(input, c.as_str());
}

#[test]
fn test_cond_display_empty() {
    let input = "condition ()";
    let parse = AlfaDocParser::parse(Rule::condition_stmt, input);
    // empty parentheses are no expression
    assert!(parse.is_err());
}

#[test]
fn an_operator_may_carry_its_namespace() {
    let parsed = AlfaDocParser::parse(Rule::operator_identifier, "main.foo.bar.+/").unwrap();
    assert_eq!(parsed.as_str(), "main.foo.bar.+/");
    let input = "condition 40 foo.>> subjectAge";
    let parsed = AlfaDocParser::parse(Rule::condition_stmt, input).unwrap();
    assert_eq!(parsed.as_str(), input);
    assert!(AlfaDocParser::parse(Rule::operator_identifier, "main.foo").is_err());
}

#[test]
fn literals_with_and_without_a_type() {
    for input in ["\"test\"", "'test'", "\"t\\\"est\"", "42", "-42", "0.42", "-.42", "true", "false"] {
        let parsed = AlfaDocParser::parse(Rule::literal, input).unwrap();
        assert_eq!(parsed.as_str(), input);
    }
    for input in [r#""127.0.0.1":ipAddress"#, "'127.0.0.1':ipAddress", "'127.0.0.1' :   ipAddress"] {
        let parsed = AlfaDocParser::parse(Rule::literal, input).unwrap();
        assert_eq!(parsed.as_str(), input);
    }
    // a colon without a name behind it is not taken
    let parsed = AlfaDocParser::parse(Rule::literal, "'a' : 3").unwrap();
    assert_eq!(parsed.as_str(), "'a'");
}

#[test]
fn a_condition_needs_its_keyword_and_an_operand() {
    assert!(AlfaDocParser::parse(Rule::condition_stmt, "condition").is_err());
    assert!(AlfaDocParser::parse(Rule::condition_stmt, "condition +").is_err());
    assert!(AlfaDocParser::parse(Rule::condition_stmt, "target true").is_err());
    assert!(AlfaDocParser::parse(Rule::condition_stmt, "condition (3").is_err());
    let parsed = AlfaDocParser::parse(Rule::condition_stmt, "condition /* why */ a.b(c.d, 'x') // rest\n").unwrap();
    // the blanks behind the last operand are taken along
    assert_eq!(parsed.as_str(), "condition /* why */ a.b(c.d, 'x') // rest\n");
    let parsed = AlfaDocParser::parse(Rule::cond_expr, "f() g").unwrap();
    assert_eq!(parsed.as_str(), "f() ");
}
