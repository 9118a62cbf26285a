use a2x::ast::comment_cleanup;

#[test]
fn test_single_line_comment_cleanup() {
    let c = "// foo\n";
    assert_eq!(comment_cleanup(c), "foo");
}

#[test]
fn test_multi_line_comment_cleanup() {
    let c = "/* foo bar */";
    assert_eq!(comment_cleanup(c), "foo bar");
}

#[test]
fn test_multi_line_nl_comment_cleanup() {
    let c = "/*\n foo\n new line\n */";
    assert_eq!(comment_cleanup(c), "foo\n new line");
}

#[test]
fn test_multi_line_star_comment_cleanup() {
    let c = "/**** foo ********/";
    assert_eq!(comment_cleanup(c), "foo");
}

#[test]
fn test_multi_line_nl_star_comment_cleanup() {
    let c = "/**** foo\n* bar ********/";
    assert_eq!(comment_cleanup(c), "foo\n* bar");
}

#[test]
fn text_without_markers_stays() {
    assert_eq!(comment_cleanup(" plain "), " plain ");
    assert_eq!(comment_cleanup(""), "");
}

#[test]
fn comment_of_stars_and_blanks_is_empty() {
    assert_eq!(comment_cleanup("/** **/"), "");
    assert_eq!(comment_cleanup("/**/"), "");
    assert_eq!(comment_cleanup("//\n"), "");
}
