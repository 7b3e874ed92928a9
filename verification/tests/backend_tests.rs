use z_compiler::ast::{Element, Node};
use z_compiler::compilers::TargetCompiler;
use z_compiler::nextjs::{self, NextJSCompiler};
use z_compiler::rust::{self, RustCompiler};
use z_compiler::swiftui::{self, SwiftUICompiler};
use z_compiler::tauri::{self, TauriCompiler};

fn leaf(name: &str) -> Node {
    Node::Element(Element { name: name.to_string(), annotations: vec![], children: vec![] })
}

fn program(children: Vec<Node>) -> Element {
    Element { name: "Program".to_string(), annotations: vec![], children }
}

fn decl(name: &str, children: Vec<Node>) -> Node {
    Node::Element(Element { name: name.to_string(), annotations: vec![], children })
}

#[test]
fn swift_names_and_extension() {
    let c = SwiftUICompiler::new();
    assert_eq!(c.target_name(), "SwiftUI");
    assert_eq!(c.file_extension(), "swift");
}

#[test]
fn next_names_and_extension() {
    let c = NextJSCompiler::new();
    assert_eq!(c.target_name(), "NextJS");
    assert_eq!(c.file_extension(), "tsx");
}

#[test]
fn next_compile_reports_summary() {
    let c = NextJSCompiler::new();
    let prog = program(vec![]);
    assert_eq!(c.compile(&prog).unwrap(), "Next.js project files generated successfully");
}

#[test]
fn swift_declines_directory_mode() {
    let c = SwiftUICompiler::new();
    let prog = program(vec![]);
    assert!(c.compile_to_directory(&prog).is_none());
}

#[test]
fn next_offers_directory_mode() {
    let c = NextJSCompiler::new();
    let prog = program(vec![]);
    assert!(c.compile_to_directory(&prog).is_some());
}

#[test]
fn swift_renders_recognized_and_unknown_sections() {
    // Sections live under a `swift`-typed declaration, located by its
    // `swift:*` prefix among the root children.
    let c = SwiftUICompiler::new();
    let prog = program(vec![decl(
        "swift:MyApp",
        vec![leaf("App"), leaf("Components"), leaf("Other")],
    )]);
    let out = c.compile(&prog).unwrap();
    let expected = format!(
        "{}\n\n{}{}{}{}{}\n\n{}",
        swiftui::SWIFT_APP_FILE,
        swiftui::SWIFT_CV_PREFIX,
        swiftui::SWIFT_APP_COMPONENT,
        swiftui::SWIFT_COMPONENTS_COMPONENT,
        "                // Unknown component: Other\n",
        swiftui::SWIFT_CV_SUFFIX,
        swiftui::SWIFT_PACKAGE,
    );
    assert_eq!(out, expected);
}

#[test]
fn swift_ignores_content_outside_its_declarations() {
    // A root child that is not a `swift:*` declaration contributes no
    // section, even when its name matches a recognized section name.
    let c = SwiftUICompiler::new();
    let prog = program(vec![leaf("App"), decl("next:A", vec![leaf("Components")])]);
    let out = c.compile(&prog).unwrap();
    let expected = format!(
        "{}\n\n{}{}\n\n{}",
        swiftui::SWIFT_APP_FILE,
        swiftui::SWIFT_CV_PREFIX,
        swiftui::SWIFT_CV_SUFFIX,
        swiftui::SWIFT_PACKAGE,
    );
    assert_eq!(out, expected);
}

#[test]
fn swift_skips_leaf_node_shapes() {
    let c = SwiftUICompiler::new();
    let prog = program(vec![decl(
        "swift:MyApp",
        vec![Node::KeyValue { key: "k".to_string(), value: "v".to_string() }],
    )]);
    let out = c.compile(&prog).unwrap();
    let expected = format!(
        "{}\n\n{}{}\n\n{}",
        swiftui::SWIFT_APP_FILE,
        swiftui::SWIFT_CV_PREFIX,
        swiftui::SWIFT_CV_SUFFIX,
        swiftui::SWIFT_PACKAGE,
    );
    assert_eq!(out, expected);
}

#[test]
fn swift_package_descriptor_fragment() {
    let c = SwiftUICompiler::new();
    assert_eq!(c.generate_package_swift(), swiftui::SWIFT_PACKAGE);
}

#[test]
fn next_main_page_with_sections() {
    let c = NextJSCompiler::new();
    // Sections live under a `next`-typed declaration; a flat parse never
    // populates them, but the renderer is specified for the full shape.
    let decl = Node::Element(Element {
        name: "next:MySite".to_string(),
        annotations: vec![],
        children: vec![leaf("Routes"), leaf("API"), leaf("Mystery")],
    });
    let prog = program(vec![decl]);
    let page = c.generate_main_page(&prog).unwrap();
    let expected = format!(
        "{}\n\n{}{}{}",
        nextjs::NEXT_IMPORT_BUTTON,
        nextjs::NEXT_PAGE_HEADER,
        format!(
            "{}          {}\n{}{}          {}\n{}{}          {}\n{}",
            nextjs::NEXT_DIV_OPEN,
            nextjs::NEXT_ROUTES_SECTION,
            nextjs::NEXT_DIV_CLOSE,
            nextjs::NEXT_DIV_OPEN,
            nextjs::NEXT_API_SECTION,
            nextjs::NEXT_DIV_CLOSE,
            nextjs::NEXT_DIV_OPEN,
            "<!-- Unknown section: Mystery -->",
            nextjs::NEXT_DIV_CLOSE,
        ),
        nextjs::NEXT_PAGE_FOOTER,
    );
    assert_eq!(page, expected);
}

#[test]
fn next_main_page_ignores_other_declarations() {
    let c = NextJSCompiler::new();
    let decl = Node::Element(Element {
        name: "swift:App".to_string(),
        annotations: vec![],
        children: vec![leaf("Routes")],
    });
    let prog = program(vec![decl]);
    let page = c.generate_main_page(&prog).unwrap();
    let expected = format!("{}{}", nextjs::NEXT_PAGE_HEADER, nextjs::NEXT_PAGE_FOOTER);
    assert_eq!(page, expected);
}

#[test]
fn next_project_tree_is_complete() {
    let c = NextJSCompiler::new();
    let tree = c.create_nextjs_project(&program(vec![]));
    assert_eq!(tree.dirs.len(), 8);
    assert_eq!(tree.files.len(), 12);
    assert_eq!(tree.files[0].path, "package.json");
    assert_eq!(tree.files[10].content, nextjs::NEXT_BUTTON_TSX);
}

#[test]
fn rust_names_and_extension() {
    let c = RustCompiler::new();
    assert_eq!(c.target_name(), "Rust");
    assert_eq!(c.file_extension(), "rs");
    assert_eq!(c.compile(&program(vec![])).unwrap(), "Rust project files generated successfully");
    assert!(c.compile_to_directory(&program(vec![])).is_some());
}

#[test]
fn rust_sections_render_as_placeholders() {
    let c = RustCompiler::new();
    let prog = program(vec![decl("rust:Sys", vec![leaf("Database"), leaf("Cli")])]);
    let main_rs = c.generate_main_rs(&prog).unwrap();
    let expected = format!(
        "{}{}{}{}",
        rust::RUST_MAIN_HEADER,
        "    // Section placeholder: Database\n",
        "    // Section placeholder: Cli\n",
        rust::RUST_MAIN_FOOTER,
    );
    assert_eq!(main_rs, expected);
}

#[test]
fn tauri_names_and_extension() {
    let c = TauriCompiler::new();
    assert_eq!(c.target_name(), "Tauri");
    assert_eq!(c.file_extension(), "js");
    assert_eq!(c.compile(&program(vec![])).unwrap(), "Tauri project files generated successfully");
    assert!(c.compile_to_directory(&program(vec![])).is_some());
}

#[test]
fn tauri_sections_render_as_placeholders() {
    let c = TauriCompiler::new();
    let prog = program(vec![decl("tauri:Desk", vec![leaf("Window")])]);
    let tree = c.create_tauri_project(&prog);
    let expected_main = format!(
        "{}{}",
        tauri::TAURI_MAIN_HEADER,
        "// Section placeholder: Window\n",
    );
    assert_eq!(tree.files[2].content, expected_main);
    assert_eq!(tree.files[0].content, tauri::TAURI_PACKAGE_JSON);
    assert_eq!(tree.files[1].content, tauri::TAURI_CONF_JSON);
}
