use ips_analyzer::symbol_query::{
    method_from_groups,
    objc_query, parse_objc_method, plain_query, symbol_query, ObjcMethod,
};

#[test]
fn cold_method_is_taken_apart() {
    let parsed = parse_objc_method("-[MyClass myMethod].cold.1").unwrap().unwrap();
    assert_eq!(parsed.class_name, "MyClass");
    assert_eq!(parsed.selector_name, "myMethod");
    assert_eq!(parsed.block_invoke, None);
    assert_eq!(parsed.cold, Some(String::from("cold.1")));
    assert_eq!(objc_query(&parsed), "is ~MyClass~myMethod]~!block_invoke~cold.1[2]");
}

#[test]
fn method_without_markers_excludes_both() {
    let parsed = parse_objc_method("+[Foo bar_baz]").unwrap().unwrap();
    assert_eq!(parsed.class_name, "Foo");
    assert_eq!(parsed.selector_name, "bar_baz");
    assert_eq!(parsed.block_invoke, None);
    assert_eq!(parsed.cold, None);
    assert_eq!(
        symbol_query("+[Foo bar_baz]"),
        Ok(Some(String::from("is ~Foo~bar_baz]~!block_invoke~!cold[2]")))
    );
}

#[test]
fn plain_name_excludes_block_bodies() {
    assert_eq!(plain_query("my_c_function"), "is ~my_c_function~!block_invoke[2]:0");
    assert_eq!(
        plain_query("my_c_function.block_invoke"),
        "is ~my_c_function.block_invoke~block_invoke[2]:0"
    );
}

#[test]
fn query_is_built_from_given_parts() {
    let method = ObjcMethod {
        class_name: String::from("A"),
        selector_name: String::from("b:"),
        block_invoke: Some(String::from("block_invoke_2")),
        cold: None,
    };
    assert_eq!(objc_query(&method), "is ~A~b:]~block_invoke_2~!cold[2]");
}

#[test]
fn block_body_of_a_method_is_looked_up_as_such() {
    assert_eq!(
        symbol_query("__41-[Foo bar:baz:]_block_invoke_2"),
        Ok(Some(String::from("is ~Foo~bar:baz:]~block_invoke_2~!cold[2]")))
    );
    let parsed = parse_objc_method("-[Foo bar]_block_invoke").unwrap().unwrap();
    assert_eq!(parsed.block_invoke, Some(String::from("block_invoke")));
    assert_eq!(parsed.cold, None);
}

#[test]
fn cold_path_of_a_block_body_keeps_both_markers() {
    let parsed = parse_objc_method("-[Foo bar:]_block_invoke_2.cold.1").unwrap().unwrap();
    assert_eq!(parsed.class_name, "Foo");
    assert_eq!(parsed.selector_name, "bar:");
    assert_eq!(parsed.block_invoke, Some(String::from("block_invoke_2")));
    assert_eq!(parsed.cold, Some(String::from("cold.1")));
    assert_eq!(objc_query(&parsed), "is ~Foo~bar:]~block_invoke_2~cold.1[2]");
}

#[test]
fn bracket_without_a_method_has_no_query() {
    assert!(parse_objc_method("table[4]").unwrap().is_none());
    assert_eq!(symbol_query("table[4]"), Ok(None));
    assert_eq!(symbol_query("-[NoSelector]"), Ok(None));
    assert!(parse_objc_method("plain_name").unwrap().is_none());
}

#[test]
fn name_without_bracket_always_has_a_query() {
    assert_eq!(
        symbol_query("my_c_function"),
        Ok(Some(String::from("is ~my_c_function~!block_invoke[2]:0")))
    );
    assert_eq!(
        symbol_query("my_c_function.block_invoke"),
        Ok(Some(String::from("is ~my_c_function.block_invoke~block_invoke[2]:0")))
    );
    assert_eq!(symbol_query(""), Ok(Some(String::from("is ~~!block_invoke[2]:0"))));
}

#[test]
fn method_is_read_from_the_capture_groups() {
    let groups = vec![
        Some(String::from("-[A b].cold.1")),
        Some(String::from("A")),
        Some(String::from("b")),
        None,
        Some(String::from("cold.1")),
    ];
    let method = method_from_groups(&groups).unwrap();
    assert_eq!(method.class_name, "A");
    assert_eq!(method.selector_name, "b");
    assert_eq!(method.block_invoke, None);
    assert_eq!(method.cold, Some(String::from("cold.1")));
    assert_eq!(objc_query(&method), "is ~A~b]~!block_invoke~cold.1[2]");
}

#[test]
fn groups_without_class_or_selector_name_no_method() {
    assert!(method_from_groups(&vec![]).is_none());
    assert!(method_from_groups(&vec![Some(String::from("x")), Some(String::from("A"))]).is_none());
    assert!(method_from_groups(&vec![Some(String::from("x")), None, Some(String::from("b"))]).is_none());
    assert!(method_from_groups(&vec![Some(String::from("x")), Some(String::from("A")), None]).is_none());
    let short = vec![Some(String::from("x")), Some(String::from("A")), Some(String::from("b"))];
    let method = method_from_groups(&short).unwrap();
    assert_eq!(method.block_invoke, None);
    assert_eq!(method.cold, None);
    assert!(method_from_groups(&vec![None, None, None]).is_none());
}
