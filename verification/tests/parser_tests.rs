use z_compiler::ast::{Element, Node};
use z_compiler::parser::parse_source;

fn names_of(prog: &Element) -> Vec<String> {
    prog.children
        .iter()
        .map(|n| match n {
            Node::Element(e) => e.name.clone(),
            _ => panic!("parser produced a non-element child"),
        })
        .collect()
}

#[test]
fn parse_empty_source() {
    let prog = parse_source("").unwrap();
    assert_eq!(prog.name, "Program");
    assert!(prog.annotations.is_empty());
    assert!(prog.children.is_empty());
}

#[test]
fn parse_single_next_declaration() {
    let prog = parse_source("next MySite {\n}").unwrap();
    assert_eq!(names_of(&prog), vec!["next:MySite".to_string()]);
    match &prog.children[0] {
        Node::Element(e) => {
            assert!(e.annotations.is_empty());
            assert!(e.children.is_empty());
        }
        _ => panic!("expected an element"),
    }
}

#[test]
fn parse_single_swift_declaration() {
    let prog = parse_source("swift MyApp {\n}").unwrap();
    assert_eq!(names_of(&prog), vec!["swift:MyApp".to_string()]);
}

#[test]
fn parse_ignores_non_matching_lines() {
    let src = "// a comment\nfoo bar\nnext MySite {\n  body text\n}\n";
    let prog = parse_source(src).unwrap();
    assert_eq!(names_of(&prog), vec!["next:MySite".to_string()]);
}

#[test]
fn parse_two_declarations_in_order() {
    let prog = parse_source("next A {\n}\nswift B {\n}").unwrap();
    assert_eq!(names_of(&prog), vec!["next:A".to_string(), "swift:B".to_string()]);
}

#[test]
fn parse_crlf_line_endings() {
    let prog = parse_source("next MySite {\r\n}\r\n").unwrap();
    assert_eq!(names_of(&prog), vec!["next:MySite".to_string()]);
}

#[test]
fn parse_trims_surrounding_whitespace() {
    let prog = parse_source("   next MySite {   \n}").unwrap();
    assert_eq!(names_of(&prog), vec!["next:MySite".to_string()]);
}

#[test]
fn parse_brace_directly_after_name() {
    let prog = parse_source("next A{\n}").unwrap();
    assert_eq!(names_of(&prog), vec!["next:A".to_string()]);
}

#[test]
fn parse_rejects_uppercase_target_type() {
    let prog = parse_source("Next A {\n}").unwrap();
    assert!(prog.children.is_empty());
}

#[test]
fn parse_rejects_missing_separator() {
    let prog = parse_source("nextA {\n}").unwrap();
    assert!(prog.children.is_empty());
}

#[test]
fn parse_rejects_missing_brace() {
    let prog = parse_source("next MySite\n").unwrap();
    assert!(prog.children.is_empty());
}

#[test]
fn parse_accepts_name_with_digits_and_underscore() {
    let prog = parse_source("next My_Site2 {\n}").unwrap();
    assert_eq!(names_of(&prog), vec!["next:My_Site2".to_string()]);
}

#[test]
fn parse_accepts_tab_separators() {
    let prog = parse_source("next\tMySite\t{\n}").unwrap();
    assert_eq!(names_of(&prog), vec!["next:MySite".to_string()]);
}

#[test]
fn parse_accepts_unicode_whitespace_separator() {
    let prog = parse_source("next\u{00A0}MySite {\n}").unwrap();
    assert_eq!(names_of(&prog), vec!["next:MySite".to_string()]);
}

#[test]
fn parse_is_flat_inside_blocks() {
    // The scanner tracks no braces: a matching line inside a block is
    // itself recognized as a declaration.
    let prog = parse_source("next A {\nswift B {\n}\n}").unwrap();
    assert_eq!(names_of(&prog), vec!["next:A".to_string(), "swift:B".to_string()]);
}

#[test]
fn parse_unterminated_block_still_detected() {
    let prog = parse_source("next A {").unwrap();
    assert_eq!(names_of(&prog), vec!["next:A".to_string()]);
}
