use ftd::utils::{
    full_data_id, function_name_to_js_function, js_reference_name, name_with_id, node_change_id,
    to_key, trim_all_lines, trim_brackets, trim_end_once, trim_start_once,
};

#[test]
fn trims_every_line() {
    assert_eq!(trim_all_lines("  a  \n b\n\nc  "), "a\nb\n\nc");
    assert_eq!(trim_all_lines(""), "");
    assert_eq!(trim_all_lines("x\n"), "x\n");
}

#[test]
fn trims_start_once() {
    assert_eq!(trim_start_once("a.b.c", "."), "b.c");
    assert_eq!(trim_start_once("abc", "."), "abc");
    assert_eq!(trim_start_once("a--b--c", "--"), "b--c");
}

#[test]
fn trims_end_once() {
    assert_eq!(trim_end_once("a.b.c", "."), "a.b");
    assert_eq!(trim_end_once("abc", "."), "abc");
}

#[test]
fn trims_brackets() {
    assert_eq!(trim_brackets("(a + b)"), "a + b");
    assert_eq!(trim_brackets("(a + b"), "(a + b");
    assert_eq!(trim_brackets("()"), "");
    assert_eq!(trim_brackets("("), "(");
}

#[test]
fn builds_identifiers() {
    assert_eq!(name_with_id("foo", "1,2"), "foo:1,2");
    assert_eq!(node_change_id("id", "color"), "id__color");
    assert_eq!(full_data_id("x", ""), "x");
    assert_eq!(full_data_id("x", "  "), "x");
    assert_eq!(full_data_id("x", "d"), "d:x");
}

#[test]
fn writes_script_names() {
    assert_eq!(function_name_to_js_function("foo/bar#my-fn"), "foo_bar__my_fn");
    assert_eq!(function_name_to_js_function("a:b,c.d"), "a___b$c_d");
    assert_eq!(function_name_to_js_function("a\\\\b\\c"), "a_b_c");
    assert_eq!(js_reference_name("a\\\\b\\c"), "a/b/c");
}

#[test]
fn names_keys() {
    assert_eq!(to_key("ctrl"), "Control");
    assert_eq!(to_key("dash"), "-");
    assert_eq!(to_key("space"), " ");
    assert_eq!(to_key("a"), "a");
}
