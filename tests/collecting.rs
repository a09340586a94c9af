use imagi::collector::{create_payload_json, parse_source_file, remove_comments, SourceFile};

#[test]
fn line_comment_becomes_space_and_keeps_newline() {
    assert_eq!(remove_comments("int a; // note\nint b;"), "int a;  \nint b;");
}

#[test]
fn block_comment_opening_and_closing_each_leave_a_space() {
    assert_eq!(remove_comments("a/* x\n y */b"), "a  b");
    assert_eq!(remove_comments("/** doc */class A {}"), "  class A {}");
}

#[test]
fn comment_markers_inside_strings_are_kept() {
    assert_eq!(
        remove_comments("s = \"http://x /* y */\"; // c"),
        "s = \"http://x /* y */\";  "
    );
}

#[test]
fn escaped_quote_does_not_end_a_string() {
    assert_eq!(remove_comments("\"a\\\"//b\" //c"), "\"a\\\"//b\"  ");
}

#[test]
fn unterminated_comments_run_to_the_end() {
    assert_eq!(remove_comments("x /* never closed"), "x  ");
    assert_eq!(remove_comments("x // no newline"), "x  ");
}

#[test]
fn lone_slash_and_empty_text() {
    assert_eq!(remove_comments("a / b"), "a / b");
    assert_eq!(remove_comments("a/"), "a/");
    assert_eq!(remove_comments(""), "");
}

#[test]
fn source_file_keeps_its_full_contents() {
    let f = parse_source_file("Foo.java", "class Foo {} // end");
    assert_eq!(f.filename, "Foo.java");
    assert_eq!(f.content, "class Foo {} // end");
}

#[test]
fn control_characters_are_escaped_in_records() {
    let files = vec![SourceFile { filename: "T.java".to_string(), content: "a\tb\u{1}c\u{1f}\\/".to_string() }];
    let json = create_payload_json("u".to_string(), "t".to_string(), "r".to_string(), files, "\r\u{8}\u{c}".to_string());
    assert_eq!(
        json,
        "{\"user_id\":\"u\",\"task\":\"t\",\"read_me\":\"r\",\"source_files\":[{\"filename\":\"T.java\",\"content\":\"a\\tb\\u0001c\\u001f\\\\/\"}],\"test_results\":\"\\r\\b\\f\"}"
    );
}

#[test]
fn payload_json_has_the_wire_fields_in_order() {
    let files = vec![
        SourceFile { filename: "Foo.java".to_string(), content: "class Foo {}".to_string() },
        SourceFile { filename: "Bar.java".to_string(), content: "say(\"hi\")".to_string() },
    ];
    let json = create_payload_json(
        "alice".to_string(),
        "task-5".to_string(),
        "# Readme".to_string(),
        files,
        "OK\n".to_string(),
    );
    assert_eq!(
        json,
        "{\"user_id\":\"alice\",\"task\":\"task-5\",\"read_me\":\"# Readme\",\"source_files\":[{\"filename\":\"Foo.java\",\"content\":\"class Foo {}\"},{\"filename\":\"Bar.java\",\"content\":\"say(\\\"hi\\\")\"}],\"test_results\":\"OK\\n\"}"
    );
}

#[test]
fn payload_json_with_no_sources() {
    let json = create_payload_json(String::new(), String::new(), String::new(), vec![], String::new());
    assert_eq!(
        json,
        "{\"user_id\":\"\",\"task\":\"\",\"read_me\":\"\",\"source_files\":[],\"test_results\":\"\"}"
    );
}
