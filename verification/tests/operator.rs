use a2x::ast::operator::Operator;

#[test]
fn test_qualified_name_no_ns() {
    let o = Operator {
        ns: vec![],
        operator: "++".to_string(),
    };
    assert_eq!(o.qualified_name(), "++".to_string());
}

#[test]
fn test_qualified_name_with_ns() {
    let o = Operator {
        ns: vec!["foo".to_string(), "bar".to_string()],
        operator: "++".to_string(),
    };
    assert_eq!(o.qualified_name(), "foo.bar.++".to_string());
}
