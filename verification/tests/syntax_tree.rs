use a2x::ast::condition::{CondExpression, Condition};
use a2x::ast::constant::Constant;
use a2x::ast::namespace::Namespace;
use a2x::ast::operator::Operator;
use a2x::ast::prescription::Prescription;
use a2x::ast::rule::Effect;
use a2x::collection::AlfaSyntaxTree;
use a2x::context::{Config, Context};
use a2x::errors::{ParseError, SrcLoc};
use a2x::grammar::{AlfaDocParser, Pair, Rule};
use a2x::syntax::{byte_position, place_in, process_condition, process_prescription};
use a2x::tree::{make_alfa_ast, parse_alfadoc};

fn condition_of(pair: Pair) -> Condition {
    let (src, node) = pair.into_parts();
    process_condition(src, &node.children, &SrcLoc::default(), vec![]).unwrap()
}

fn prescription_of(pair: Pair) -> Prescription {
    let (src, node) = pair.into_parts();
    process_prescription(src, &node, vec![]).unwrap()
}

fn tree(input: &str) -> Result<AlfaSyntaxTree, ParseError> {
    let mut ctx = Context::new(Config::default()).unwrap();
    make_alfa_ast(input, "", &mut ctx)
}

#[test]
fn test_cond_display_literal_string() {
    let input = r#"condition "foo""#;
    let mut pairs = AlfaDocParser::parse(Rule::condition_stmt, input).unwrap();
    let pair = pairs.next().expect("parsed condition has a first member");
    let cond = condition_of(pair);
    assert_eq!(cond.to_string(), "Condition: \"foo\"");
}

#[test]
fn test_cond_display_literal_int() {
    let input = "condition 3";
    let mut pairs = AlfaDocParser::parse(Rule::condition_stmt, input).unwrap();
    let pair = pairs.next().expect("parsed condition has a first member");
    let cond = condition_of(pair);
    assert_eq!(cond.to_string(), "Condition: 3");
}

#[test]
fn test_cond_display_literal_float() {
    let input = "condition 3.99";
    let mut pairs = AlfaDocParser::parse(Rule::condition_stmt, input).unwrap();
    let pair = pairs.next().expect("parsed condition has a first member");
    let cond = condition_of(pair);
    assert_eq!(cond.to_string(), "Condition: 3.99");
}

#[test]
fn test_cond_display_literal_bool() {
    let input = "condition true";
    let mut pairs = AlfaDocParser::parse(Rule::condition_stmt, input).unwrap();
    let pair = pairs.next().expect("parsed condition has a first member");
    let cond = condition_of(pair);
    assert_eq!(cond.to_string(), "Condition: true");
}

#[test]
fn test_cond_display_expr() {
    let input = "condition 3 + 3";
    let mut pairs = AlfaDocParser::parse(Rule::condition_stmt, input).unwrap();
    let pair = pairs.next().expect("parsed condition has a first member");
    let cond = condition_of(pair);
    assert_eq!(cond.to_string(), "Condition: (3 + 3)");
}

#[test]
fn test_cond_display_expr_paren() {
    let input = "condition (3 + 3)";
    let mut pairs = AlfaDocParser::parse(Rule::condition_stmt, input).unwrap();
    let pair = pairs.next().expect("parsed condition has a first member");
    let cond = condition_of(pair);
    assert_eq!(cond.to_string(), "Condition: (3 + 3)");
}

#[test]
fn test_cond_display_expr_mult_op_left_assoc() {
    // left associate operator
    let input = "condition 1 + 2 + 3";
    let mut pairs = AlfaDocParser::parse(Rule::condition_stmt, input).unwrap();
    let pair = pairs.next().expect("parsed condition has a first member");
    let cond = condition_of(pair);
    assert_eq!(cond.to_string(), "Condition: ((1 + 2) + 3)");
}

#[test]
fn test_cond_display_expr_mult_op_right_assoc() {
    // left associate operator
    let input = "condition 1 | 2 | 3";
    let mut pairs = AlfaDocParser::parse(Rule::condition_stmt, input).unwrap();
    let pair = pairs.next().expect("parsed condition has a first member");
    let cond = condition_of(pair);
    assert_eq!(cond.to_string(), "Condition: (1 | (2 | 3))");
}

#[test]
fn test_cond_display_expr_fn() {
    // left associate operator
    let input = r#"condition foo(1,2,"foo")"#;
    let mut pairs = AlfaDocParser::parse(Rule::condition_stmt, input).unwrap();
    let pair = pairs.next().expect("parsed condition has a first member");
    let cond = condition_of(pair);
    assert_eq!(cond.to_string(), r#"Condition: foo(1, 2, "foo")"#);
}

#[test]
fn test_cond_display_expr_fn_nested() {
    // left associate operator
    let input = "condition add(1,subtract(7,9))";
    let mut pairs = AlfaDocParser::parse(Rule::condition_stmt, input).unwrap();
    let pair = pairs.next().expect("parsed condition has a first member");
    let cond = condition_of(pair);
    assert_eq!(cond.to_string(), "Condition: add(1, subtract(7, 9))");
}

#[test]
fn test_cond_display_ops_and_fns() {
    // left associate operator
    let input = "condition foo(1) + bar(2)";
    let mut pairs = AlfaDocParser::parse(Rule::condition_stmt, input).unwrap();
    let pair = pairs.next().expect("parsed condition has a first member");
    let cond = condition_of(pair);
    assert_eq!(cond.to_string(), "Condition: (foo(1) + bar(2))");
}

#[test]
fn test_cond_display_simple_attr() {
    // left associate operator
    let input = "condition subjectName";
    let mut pairs = AlfaDocParser::parse(Rule::condition_stmt, input).unwrap();
    let pair = pairs.next().expect("parsed condition has a first member");
    let cond = condition_of(pair);
    assert_eq!(cond.to_string(), "Condition: subjectName");
}

#[test]
fn test_cond_display_simple_ns_attr() {
    // left associate operator
    let input = "condition main.subjectName";
    let mut pairs = AlfaDocParser::parse(Rule::condition_stmt, input).unwrap();
    let pair = pairs.next().expect("parsed condition has a first member");
    let cond = condition_of(pair);
    assert_eq!(cond.to_string(), "Condition: main.subjectName");
}

#[test]
fn test_cond_display_ns_attr_issuer() {
    // left associate operator
    let input = r#"condition main.subjectName[issuer="foo"]"#;
    let mut pairs = AlfaDocParser::parse(Rule::condition_stmt, input).unwrap();
    let pair = pairs.next().expect("parsed condition has a first member");
    let cond = condition_of(pair);
    assert_eq!(
        cond.to_string(),
        "Condition: main.subjectName[issuer=\"foo\"]"
    );
}

#[test]
fn test_cond_display_ns_attr_mustbepresent() {
    // left associate operator
    let input = "condition main.subjectName[mustbepresent]";
    let mut pairs = AlfaDocParser::parse(Rule::condition_stmt, input).unwrap();
    let pair = pairs.next().expect("parsed condition has a first member");
    let cond = condition_of(pair);
    assert_eq!(
        cond.to_string(),
        "Condition: main.subjectName[mustbepresent]"
    );
}

#[test]
fn test_cond_display_ns_attr_allopts() {
    // left associate operator
    let input = r#"condition main.subjectName[mustbepresent issuer="foo"]"#;
    let mut pairs = AlfaDocParser::parse(Rule::condition_stmt, input).unwrap();
    let pair = pairs.next().expect("parsed condition has a first member");
    let cond = condition_of(pair);
    assert_eq!(
        cond.to_string(),
        r#"Condition: main.subjectName[mustbepresent issuer="foo"]"#
    );
}

#[test]
fn test_cond_pratt_simple() {
    // 3 + 3
    let input = "condition 3 + 3";
    // parse the statement.
    let mut pairs = AlfaDocParser::parse(Rule::condition_stmt, input).unwrap();
    let pair = pairs.next().expect("parsed condition has a first member");
    // process the statement
    let parsed = condition_of(pair);
    // build the expected parse tree
    let arg3 = CondExpression::Lit(Constant::Integer("3".to_string()));
    let plus = Operator {
        ns: vec![],
        operator: "+".to_string(),
    };
    let exp = CondExpression::Infix(Box::new(arg3.clone()), plus, Box::new(arg3));
    assert_eq!(
        parsed,
        Condition {
            cond_expr: exp,
            ns: vec![],
            src_loc: parsed.src_loc.clone(),
        }
    );
}

// test associativity of a single operator (&).
// this tests against a full parse tree just to be very precise.
#[test]
fn test_cond_pratt_single_right_assoc() {
    // 3 + 3
    let input = "condition 1 & 2 & 3 & 4";
    // parse the statement.
    let mut pairs = AlfaDocParser::parse(Rule::condition_stmt, input).unwrap();
    let pair = pairs.next().expect("parsed condition has a first member");
    // process the statement
    let parsed = condition_of(pair);
    // build the expected parse tree
    let arg1 = CondExpression::Lit(Constant::Integer("1".to_string()));
    let arg2 = CondExpression::Lit(Constant::Integer("2".to_string()));
    let arg3 = CondExpression::Lit(Constant::Integer("3".to_string()));
    let arg4 = CondExpression::Lit(Constant::Integer("4".to_string()));
    let amp = Operator {
        ns: vec![],
        operator: "&".to_string(),
    };
    let exp = CondExpression::Infix(
        Box::new(arg1.clone()),
        amp.clone(),
        Box::new(CondExpression::Infix(
            Box::new(arg2.clone()),
            amp.clone(),
            Box::new(CondExpression::Infix(
                Box::new(arg3.clone()),
                amp.clone(),
                Box::new(arg4.clone()),
            )),
        )),
    );
    assert_eq!(
        parsed,
        Condition {
            cond_expr: exp,
            ns: vec![],
            src_loc: parsed.src_loc.clone(),
        }
    );
}

#[test]
fn test_empty_permit_obligation() {
    let input = "on permit { obligation foo { } }";
    // parse the statement.
    let mut pairs = AlfaDocParser::parse(Rule::on_effect, input).unwrap();
    let pair = pairs
        .next()
        .expect("parsed prescription has a first member");
    let parsed = prescription_of(pair);

    assert_eq!(parsed.effect, Effect::Permit);
    // one expression ("foo"), with no assignments
    assert_eq!(
        parsed.expressions.len(),
        1,
        "no expressions in this prescription"
    );
    assert_eq!(
        parsed
            .expressions
            .first()
            .expect("single expression")
            .assignments
            .len(),
        0,
        "no assignments in this expression"
    );
}

#[test]
fn test_empty_deny_obligation() {
    let input = "on deny { obligation foo { } }";
    // parse the statement.
    let mut pairs = AlfaDocParser::parse(Rule::on_effect, input).unwrap();
    let pair = pairs
        .next()
        .expect("parsed prescription has a first member");
    let parsed = prescription_of(pair);
    assert_eq!(parsed.effect, Effect::Deny);
    // one expression ("foo"), with no assignments
    assert_eq!(
        parsed.expressions.len(),
        1,
        "no expressions in this prescription"
    );
    assert_eq!(
        parsed
            .expressions
            .first()
            .expect("single expression")
            .assignments
            .len(),
        0,
        "no assignments in this expression"
    );
}

#[test]
fn test_empty_permit_advice() {
    let input = "on permit { advice foo { } }";
    // parse the statement.
    let mut pairs = AlfaDocParser::parse(Rule::on_effect, input).unwrap();
    let pair = pairs
        .next()
        .expect("parsed prescription has a first member");
    let parsed = prescription_of(pair);
    assert_eq!(parsed.effect, Effect::Permit);
    // one expression ("foo"), with no assignments
    assert_eq!(
        parsed.expressions.len(),
        1,
        "no expressions in this prescription"
    );
    assert_eq!(
        parsed
            .expressions
            .first()
            .expect("single expression")
            .assignments
            .len(),
        0,
        "no assignments in this expression"
    );
}

#[test]
fn test_empty_deny_advice() {
    let input = "on deny { advice foo { } }";
    // parse the statement.
    let mut pairs = AlfaDocParser::parse(Rule::on_effect, input).unwrap();
    let pair = pairs
        .next()
        .expect("parsed prescription has a first member");
    let parsed = prescription_of(pair);
    assert_eq!(parsed.effect, Effect::Deny);
    // one expression ("foo"), with no assignments
    assert_eq!(
        parsed.expressions.len(),
        1,
        "no expressions in this prescription"
    );
    assert_eq!(
        parsed
            .expressions
            .first()
            .expect("single expression")
            .assignments
            .len(),
        0,
        "no assignments in this expression"
    );
}

#[test]
fn test_permit_advice_expression_var() {
    // we'll assign an attribute the constant 42.
    let input = "on permit { advice foo { attributes.balance = 42 } }";
    // parse the statement.
    let mut pairs = AlfaDocParser::parse(Rule::on_effect, input).unwrap();
    let pair = pairs
        .next()
        .expect("parsed prescription has a first member");
    let parsed = prescription_of(pair);
    assert_eq!(parsed.effect, Effect::Permit);
    // one expression ("foo"), with one assignment
    assert_eq!(
        parsed.expressions.len(),
        1,
        "no expressions in this prescription"
    );
    assert_eq!(
        parsed
            .expressions
            .first()
            .expect("single expression")
            .assignments
            .len(),
        1,
        "no assignments in this expression"
    );
}

#[test]
fn test_nested_namespaces() {
    let input = "namespace main.foo { namespace bar { namespace baz.wham {} } }";
    parse_alfadoc(input).unwrap();
}

#[test]
fn test_no_leading_numeric_namespaces() {
    // leading number in a nested namespace
    let input = "namespace main.foo { namespace 9bar { namespace baz.wham {} } }";
    let input_parsed = parse_alfadoc(input);
    assert!(input_parsed.is_err());
    // leading zero inside second component of a top-level namespace
    let input = "namespace main.0foo { namespace 9bar { namespace baz.wham {} } }";
    let input_parsed = parse_alfadoc(input);
    assert!(input_parsed.is_err());
    // all numeric for top-level namespace
    let input = "namespace 444.foo { namespace 9bar { namespace baz.wham {} } }";
    let input_parsed = parse_alfadoc(input);
    assert!(input_parsed.is_err());
    // leading empty namespace
    let input = "namespace .foo { namespace 9bar { namespace baz.wham {} } }";
    let input_parsed = parse_alfadoc(input);
    assert!(input_parsed.is_err());
    // empty namespace
    let input = "namespace main..foo { namespace 9bar { namespace baz.wham {} } }";
    let input_parsed = parse_alfadoc(input);
    assert!(input_parsed.is_err());
}

#[test]
fn test_parse_alfadoc() {
    let input = "namespace foo { type string = \"foo\"}";
    parse_alfadoc(input).unwrap();
}

/// Parse a document with a single namespace.
#[test]
fn test_parse_namespace() {
    let ast = tree("namespace simple {}").unwrap();
    let namespaces = ast.namespaces;
    // there is a single top-level namespace.
    assert!(namespaces.len() == 1);
    // that namespaces has a name of "simple"
    assert_eq!(
        *namespaces.first().unwrap(),
        Namespace::new_root("simple".to_string())
    );
}

/// Parse a document with a single multi-component namespace.
#[test]
fn test_parse_multicomp_namespace() {
    let ast = tree("namespace foo.bar {}").unwrap();
    let namespaces = ast.namespaces;
    // there is a single top-level namespace.
    assert!(namespaces.len() == 1);
    // that namespaces has a name of [foo, bar]"
    assert_eq!(
        *namespaces.first().unwrap(),
        Namespace::from_components(vec!["foo".to_string(), "bar".to_string()])
    );
}

/// Parse a document with a nested namespace.
#[test]
fn test_parse_nested_namespace() {
    let ast = tree("namespace foo { namespace bar {}}").unwrap();
    let namespaces = ast.namespaces;
    // there is a single top-level namespace.
    assert!(namespaces.len() == 1);
    // check first top-level namespace
    let toplevel_ns = namespaces.first().unwrap();
    // check that there is a single nested namespace
    let child_ns = &toplevel_ns.namespaces;
    assert_eq!(child_ns.len(), 1);
}

/// Parse a document with a multi-part infix operator
#[test]
fn test_multipart_infix_op() {
    let _ast = tree(
        r#"
namespace foo {
  infix allowbags (>>) = {
        "urn:oasis:names:tc:xacml:1.0:function:integer-greater-than" : integer integer -> boolean
    }
}
namespace main {
  attribute subjectAge {
    id = "urn:oasis:names:tc:xacml:1.0:subject:subject-age"
    type = integer
    category = subjectCat
  }
  // named rule
  policy main {
    apply firstApplicable
    target clause 40 foo.>> subjectAge
  }
}
"#,
    )
    .unwrap();
}

#[test]
fn places_are_counted_in_bytes_and_end_before_white_space() {
    let src = "é /* ü */ policy p  \n{ }";
    assert_eq!(byte_position(src, 0), 0);
    assert_eq!(byte_position(src, 1), 2);
    assert_eq!(byte_position(src, 10), 12);
    assert_eq!(byte_position(src, 1000), 0);
    let base = SrcLoc::new("a.alfa", 0, 0);
    // from `policy` to the line feed, in characters
    let loc = place_in(src, &base, 10, 21);
    assert_eq!(loc, SrcLoc::new("a.alfa", 12, 8));
    // an end before the start gives the empty place
    let loc = place_in(src, &base, 10, 3);
    assert_eq!(loc.get_span().0, 12);
}

#[test]
fn a_policy_without_apply_is_pointed_at() {
    let e = tree("namespace main {\n  policy p {\n    target\n  }\n}").unwrap_err();
    assert_eq!(e.kind(), a2x::errors::ErrorKind::MissingApplyStatement);
    let loc = e.location().unwrap();
    assert_eq!(loc.get_span(), (26, 1));
}
