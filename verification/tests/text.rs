use a2x::text::join_strings;
use a2x::text::numbered_name;

#[test]
fn join_two_parts_with_a_dot() {
    let parts = vec!["foo".to_string(), "bar".to_string()];
    assert_eq!(join_strings(&parts, "."), "foo.bar");
}

#[test]
fn join_nothing_is_empty() {
    let parts: Vec<String> = vec![];
    assert_eq!(join_strings(&parts, "."), "");
}

#[test]
fn numbered_name_writes_decimal() {
    assert_eq!(numbered_name("policy_", 0), "policy_0");
    assert_eq!(numbered_name("policy_", 10), "policy_10");
    assert_eq!(numbered_name("policyset_", 1234), "policyset_1234");
}
