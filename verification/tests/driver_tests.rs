use z_compiler::ast::{Element, Node};
use z_compiler::compilers::{Backend, get_compiler};
use z_compiler::driver::{CompileOutput, TargetOutcome, compile, compile_program, detect_targets};
use z_compiler::nextjs;
use z_compiler::registry::Registry;
use z_compiler::rust;
use z_compiler::swiftui;
use z_compiler::tauri;

fn registry() -> Registry {
    Registry::from_pairs(vec![
        ("next".to_string(), "Next.js web application".to_string()),
        ("swift".to_string(), "SwiftUI native application".to_string()),
        ("rust".to_string(), "Rust systems project".to_string()),
        ("tauri".to_string(), "Tauri desktop application".to_string()),
    ])
}

fn leaf(name: &str) -> Node {
    Node::Element(Element { name: name.to_string(), annotations: vec![], children: vec![] })
}

fn program(children: Vec<Node>) -> Element {
    Element { name: "Program".to_string(), annotations: vec![], children }
}

#[test]
fn registry_describe_known_and_unknown() {
    let reg = registry();
    assert_eq!(reg.describe("next"), Some("Next.js web application".to_string()));
    assert_eq!(reg.describe("swift"), Some("SwiftUI native application".to_string()));
    assert_eq!(reg.describe("vue"), None);
    assert!(reg.contains("rust"));
    assert!(!reg.contains("vue"));
}

#[test]
fn registry_lookup_is_first_match() {
    let reg = Registry::from_pairs(vec![
        ("next".to_string(), "first".to_string()),
        ("next".to_string(), "second".to_string()),
    ]);
    assert_eq!(reg.describe("next"), Some("first".to_string()));
}

#[test]
fn registry_insert_appends_entries() {
    let mut reg = Registry::new();
    assert!(!reg.contains("next"));
    reg.insert("next".to_string(), "web".to_string());
    reg.insert("swift".to_string(), "native".to_string());
    assert_eq!(reg.describe("next"), Some("web".to_string()));
    assert_eq!(reg.describe("swift"), Some("native".to_string()));
    assert!(!reg.contains("rust"));
}

#[test]
fn factory_backs_all_four_target_types() {
    assert!(matches!(get_compiler("next"), Some(Backend::NextJS(_))));
    assert!(matches!(get_compiler("swift"), Some(Backend::SwiftUI(_))));
    assert!(matches!(get_compiler("rust"), Some(Backend::Rust(_))));
    assert!(matches!(get_compiler("tauri"), Some(Backend::Tauri(_))));
    assert!(get_compiler("vue").is_none());
    assert!(get_compiler("").is_none());
}

#[test]
fn detect_targets_lists_element_children() {
    let prog = program(vec![leaf("next:A"), leaf("swift:B")]);
    assert_eq!(detect_targets(&prog), vec!["next:A".to_string(), "swift:B".to_string()]);
}

#[test]
fn compile_no_targets_yields_empty_plan() {
    let reg = registry();
    let plan = compile("// nothing declared here\nplain text\n", &reg);
    assert!(plan.outcomes.is_empty());
}

#[test]
fn compile_unknown_target_is_isolated() {
    let reg = registry();
    let plan = compile("foo App {\n}\nswift Good {\n}", &reg);
    assert_eq!(plan.outcomes.len(), 2);
    match &plan.outcomes[0] {
        TargetOutcome::UnknownTargetType { target_type } => assert_eq!(target_type, "foo"),
        _ => panic!("expected an unknown-target outcome"),
    }
    match &plan.outcomes[1] {
        TargetOutcome::Compiled { target_type, app_name, .. } => {
            assert_eq!(target_type, "swift");
            assert_eq!(app_name, "Good");
        }
        _ => panic!("expected the sibling to compile"),
    }
}

#[test]
fn compile_known_type_without_backend() {
    // Registry membership and backend availability are decoupled: a type
    // the registry knows may still have no compiler wired.
    let mut reg = registry();
    reg.insert("vue".to_string(), "Vue web application".to_string());
    let plan = compile("vue App {\n}", &reg);
    assert_eq!(plan.outcomes.len(), 1);
    match &plan.outcomes[0] {
        TargetOutcome::NoCompilerAvailable { target_type, app_name, description } => {
            assert_eq!(target_type, "vue");
            assert_eq!(app_name, "App");
            assert_eq!(description, "Vue web application");
        }
        _ => panic!("expected a no-compiler outcome"),
    }
}

#[test]
fn compile_rust_produces_project_tree() {
    let reg = registry();
    let plan = compile("rust Sys {\n}", &reg);
    assert_eq!(plan.outcomes.len(), 1);
    match &plan.outcomes[0] {
        TargetOutcome::Compiled { target_type, app_name, output, .. } => {
            assert_eq!(target_type, "rust");
            assert_eq!(app_name, "Sys");
            match output {
                CompileOutput::Tree(t) => {
                    assert_eq!(t.dirs, vec!["src".to_string()]);
                    let paths: Vec<String> = t.files.iter().map(|f| f.path.clone()).collect();
                    assert_eq!(paths, vec!["Cargo.toml".to_string(), "src/main.rs".to_string()]);
                    let expected_main =
                        format!("{}{}", rust::RUST_MAIN_HEADER, rust::RUST_MAIN_FOOTER);
                    assert_eq!(t.files[1].content, expected_main);
                }
                _ => panic!("directory-mode backend must not fall back to a single file"),
            }
        }
        _ => panic!("expected a compiled outcome"),
    }
}

#[test]
fn compile_tauri_produces_project_tree() {
    let reg = registry();
    let plan = compile("tauri Desk {\n}", &reg);
    assert_eq!(plan.outcomes.len(), 1);
    match &plan.outcomes[0] {
        TargetOutcome::Compiled { target_type, app_name, output, .. } => {
            assert_eq!(target_type, "tauri");
            assert_eq!(app_name, "Desk");
            match output {
                CompileOutput::Tree(t) => {
                    assert_eq!(t.dirs, vec!["src".to_string(), "src-tauri".to_string()]);
                    let paths: Vec<String> = t.files.iter().map(|f| f.path.clone()).collect();
                    assert_eq!(
                        paths,
                        vec![
                            "package.json".to_string(),
                            "src-tauri/tauri.conf.json".to_string(),
                            "src/main.js".to_string(),
                        ]
                    );
                    assert_eq!(t.files[2].content, tauri::TAURI_MAIN_HEADER);
                }
                _ => panic!("directory-mode backend must not fall back to a single file"),
            }
        }
        _ => panic!("expected a compiled outcome"),
    }
}

#[test]
fn compile_next_produces_project_tree() {
    let reg = registry();
    let plan = compile("next MySite {\n}", &reg);
    assert_eq!(plan.outcomes.len(), 1);
    let (app_name, description, tree) = match &plan.outcomes[0] {
        TargetOutcome::Compiled { target_type, app_name, description, output } => {
            assert_eq!(target_type, "next");
            match output {
                CompileOutput::Tree(t) => (app_name.clone(), description.clone(), t),
                _ => panic!("directory-mode backend must not fall back to a single file"),
            }
        }
        _ => panic!("expected a compiled outcome"),
    };
    assert_eq!(app_name, "MySite");
    assert_eq!(description, "Next.js web application");
    assert_eq!(
        tree.dirs,
        vec![
            "app".to_string(),
            "app/api".to_string(),
            "app/globals".to_string(),
            "components".to_string(),
            "components/ui".to_string(),
            "lib".to_string(),
            "public".to_string(),
            "styles".to_string(),
        ]
    );
    let paths: Vec<String> = tree.files.iter().map(|f| f.path.clone()).collect();
    assert_eq!(
        paths,
        vec![
            "package.json".to_string(),
            "pnpm-workspace.yaml".to_string(),
            "next.config.js".to_string(),
            "tailwind.config.js".to_string(),
            "postcss.config.js".to_string(),
            "tsconfig.json".to_string(),
            "app/layout.tsx".to_string(),
            "app/page.tsx".to_string(),
            "lib/utils.ts".to_string(),
            "components.json".to_string(),
            "components/ui/button.tsx".to_string(),
            "app/globals.css".to_string(),
        ]
    );
    assert!(paths.iter().all(|p| !p.ends_with("generated.tsx")));
    assert_eq!(tree.files[0].content, nextjs::NEXT_PACKAGE_JSON);
    assert_eq!(tree.files[6].content, nextjs::NEXT_LAYOUT_TSX);
    // A flat declaration has no sections: the page is header and footer only.
    let expected_page = format!("{}{}", nextjs::NEXT_PAGE_HEADER, nextjs::NEXT_PAGE_FOOTER);
    assert_eq!(tree.files[7].content, expected_page);
    assert_eq!(tree.files[11].content, nextjs::NEXT_GLOBALS_CSS);
}

#[test]
fn compile_swift_produces_single_file() {
    let reg = registry();
    let plan = compile("swift MyApp {\n}", &reg);
    assert_eq!(plan.outcomes.len(), 1);
    let (file_name, content) = match &plan.outcomes[0] {
        TargetOutcome::Compiled { target_type, app_name, output, .. } => {
            assert_eq!(target_type, "swift");
            assert_eq!(app_name, "MyApp");
            match output {
                CompileOutput::Single { file_name, content } => {
                    (file_name.clone(), content.clone())
                }
                _ => panic!("the native-UI backend has no directory mode"),
            }
        }
        _ => panic!("expected a compiled outcome"),
    };
    assert_eq!(file_name, "generated.swift");
    // The backend locates its own `swift:*` declaration and renders from
    // that declaration's children; the flat parser attaches none, so the
    // content view carries no section blocks.
    let expected = format!(
        "{}\n\n{}{}\n\n{}",
        swiftui::SWIFT_APP_FILE,
        swiftui::SWIFT_CV_PREFIX,
        swiftui::SWIFT_CV_SUFFIX,
        swiftui::SWIFT_PACKAGE,
    );
    assert_eq!(content, expected);
}

#[test]
fn compile_program_rejects_malformed_name_only() {
    let reg = registry();
    let prog = program(vec![leaf("a:b:c"), leaf("swift:Ok")]);
    let plan = compile_program(&prog, &reg);
    assert_eq!(plan.outcomes.len(), 2);
    match &plan.outcomes[0] {
        TargetOutcome::InvalidDeclaration { name } => assert_eq!(name, "a:b:c"),
        _ => panic!("expected an invalid-declaration outcome"),
    }
    match &plan.outcomes[1] {
        TargetOutcome::Compiled { target_type, app_name, .. } => {
            assert_eq!(target_type, "swift");
            assert_eq!(app_name, "Ok");
        }
        _ => panic!("expected the sibling to compile"),
    }
}

#[test]
fn compile_program_rejects_bare_name() {
    let reg = registry();
    let prog = program(vec![leaf("noseparator")]);
    let plan = compile_program(&prog, &reg);
    assert_eq!(plan.outcomes.len(), 1);
    assert!(matches!(&plan.outcomes[0], TargetOutcome::InvalidDeclaration { .. }));
}
