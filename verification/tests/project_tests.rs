use z_compiler::project::{cargo_command_line, detect_project_types, tauri_command_line};
use z_compiler::strutil::{split_head, split_str, str_eq};

fn pairs(v: Vec<(&str, &str)>) -> Vec<(String, String)> {
    v.into_iter().map(|(a, b)| (a.to_string(), b.to_string())).collect()
}

fn words(v: Vec<&str>) -> Vec<String> {
    v.into_iter().map(|s| s.to_string()).collect()
}

#[test]
fn detect_top_level_projects() {
    let content = "next A {\n}\nswift B {\n}";
    assert_eq!(detect_project_types(content), pairs(vec![("A", "next"), ("B", "swift")]));
}

#[test]
fn detect_skips_nested_declarations() {
    // Unlike the parser, the project scan tracks brace depth.
    let content = "next A {\n  swift B {\n  }\n}";
    assert_eq!(detect_project_types(content), pairs(vec![("A", "next")]));
}

#[test]
fn detect_counts_stray_closing_braces() {
    let content = "}\nnext A {\n";
    assert_eq!(detect_project_types(content), pairs(vec![]));
}

#[test]
fn detect_nothing_in_plain_text() {
    assert_eq!(detect_project_types("just words\n"), pairs(vec![]));
}

#[test]
fn tauri_no_command_given() {
    assert!(tauri_command_line(&words(vec![])).is_none());
}

#[test]
fn tauri_prefixes_shell_commands() {
    let (cmd, args) = tauri_command_line(&words(vec!["dev", "--open"])).unwrap();
    assert_eq!(cmd, "pnpm");
    assert_eq!(args, words(vec!["tauri", "dev", "--open"]));
}

#[test]
fn tauri_passes_package_commands_through() {
    let (cmd, args) = tauri_command_line(&words(vec!["install"])).unwrap();
    assert_eq!(cmd, "pnpm");
    assert_eq!(args, words(vec!["install"]));
    let (_, args) = tauri_command_line(&words(vec!["whatever", "x"])).unwrap();
    assert_eq!(args, words(vec!["whatever", "x"]));
}

#[test]
fn cargo_default_is_build() {
    assert_eq!(cargo_command_line(&words(vec![])), words(vec!["build"]));
}

#[test]
fn cargo_maps_install_and_run_commands() {
    assert_eq!(cargo_command_line(&words(vec!["install"])), words(vec!["build"]));
    assert_eq!(cargo_command_line(&words(vec!["start"])), words(vec!["run"]));
    assert_eq!(cargo_command_line(&words(vec!["dev"])), words(vec!["run"]));
}

#[test]
fn cargo_passes_other_commands_through() {
    assert_eq!(
        cargo_command_line(&words(vec!["test", "--all"])),
        words(vec!["test", "--all"])
    );
}

#[test]
fn split_str_splits_on_colons() {
    assert_eq!(split_str("a:b:c", ':'), words(vec!["a", "b", "c"]));
    assert_eq!(split_str("next:MySite", ':'), words(vec!["next", "MySite"]));
    assert_eq!(split_str("", ':'), words(vec![""]));
    assert_eq!(split_str("nosep", ':'), words(vec!["nosep"]));
    assert_eq!(split_str("a:", ':'), words(vec!["a", ""]));
}

#[test]
fn split_head_takes_first_part() {
    assert_eq!(split_head("next:MySite", ':'), "next");
    assert_eq!(split_head("plain", ':'), "plain");
}

#[test]
fn str_eq_compares_characters() {
    assert!(str_eq("abc", "abc"));
    assert!(!str_eq("abc", "abd"));
    assert!(!str_eq("abc", "ab"));
    assert!(str_eq("", ""));
}
