//! The native-UI backend: renders the whole program as a single Swift
//! text bundle.
//!
//! The output is the fixed entry-point fragment, a content fragment
//! assembled from the sections of the program's `swift`-typed
//! declarations (each recognized section name contributing one rendered
//! block, unrecognized names a labeled placeholder comment), and the
//! fixed project-descriptor fragment, in that order, separated by blank
//! lines.

use vstd::prelude::*;

use crate::ast::{ElemView, Element, Node, NodeView, elem_view, node_view};
use crate::compilers::{ProjectTree, TargetCompiler, TreeView};
use crate::strutil::{head_before, split_head, str_eq};

verus! {

pub const SWIFT_APP_FILE: &'static str = r#"// ZGeneratedApp.swift
import SwiftUI

@main
struct ZGeneratedApp: App {
    var body: some Scene {
        WindowGroup {
            ContentView()
        }
    }
}"#;

pub const SWIFT_CV_PREFIX: &'static str = "// ContentView.swift\nimport SwiftUI\n\nstruct ContentView: View {\n    var body: some View {\n        NavigationView {\n            VStack(spacing: 20) {\n                Text(\"Z Generated App\")\n                    .font(.largeTitle)\n                    .fontWeight(.bold)\n                    .foregroundColor(.primary)\n\n";

pub const SWIFT_CV_SUFFIX: &'static str = "                Spacer()\n            }\n            .padding()\n            .navigationTitle(\"Z App\")\n        }\n    }\n}\n\n#Preview {\n    ContentView()\n}\n";

pub const SWIFT_APP_COMPONENT: &'static str = r#"                VStack {
                    Image(systemName: "app.badge")
                        .font(.system(size: 40))
                        .foregroundColor(.blue)
                    Text("App Component")
                        .font(.headline)
                }
                .padding()
                .background(Color.blue.opacity(0.1))
                .cornerRadius(10)

"#;

pub const SWIFT_COMPONENTS_COMPONENT: &'static str = r#"                VStack {
                    Image(systemName: "puzzlepiece.extension")
                        .font(.system(size: 40))
                        .foregroundColor(.green)
                    Text("Components")
                        .font(.headline)
                }
                .padding()
                .background(Color.green.opacity(0.1))
                .cornerRadius(10)

"#;

pub const SWIFT_UNKNOWN_PREFIX: &'static str = "                // Unknown component: ";

pub const SWIFT_PACKAGE: &'static str = r#"// Package.swift
// swift-tools-version: 5.9
import PackageDescription

let package = Package(
    name: "ZGeneratedApp",
    platforms: [
        .iOS(.v15),
        .macOS(.v12)
    ],
    products: [
        .executable(
            name: "ZGeneratedApp",
            targets: ["ZGeneratedApp"]
        ),
    ],
    dependencies: [],
    targets: [
        .executableTarget(
            name: "ZGeneratedApp",
            dependencies: []
        ),
    ]
)"#;

/// The block one section of a `swift` declaration contributes to the
/// content view: a fixed block for the two recognized names, a labeled
/// placeholder comment for any other element, nothing for the leaf node
/// shapes.
pub open spec fn content_fragment(n: NodeView) -> Seq<char> {
    match n {
        NodeView::Element(e) => {
            if e.name == "App"@ {
                SWIFT_APP_COMPONENT@
            } else if e.name == "Components"@ {
                SWIFT_COMPONENTS_COMPONENT@
            } else {
                SWIFT_UNKNOWN_PREFIX@ + e.name + "\n"@
            }
        },
        _ => Seq::empty(),
    }
}

/// The blocks of a declaration's sections, concatenated in order.
pub open spec fn content_fragments(cs: Seq<NodeView>) -> Seq<char>
    decreases cs.len(),
{
    if cs.len() == 0 {
        Seq::empty()
    } else {
        content_fragments(cs.drop_last()) + content_fragment(cs.last())
    }
}

/// The sections one root child contributes: the children of every
/// declaration whose target type is `swift`.
pub open spec fn swift_children(n: NodeView) -> Seq<NodeView> {
    match n {
        NodeView::Element(e) => {
            if head_before(e.name, ':') == "swift"@ {
                e.children
            } else {
                Seq::empty()
            }
        },
        _ => Seq::empty(),
    }
}

pub open spec fn swift_sections(cs: Seq<NodeView>) -> Seq<NodeView>
    decreases cs.len(),
{
    if cs.len() == 0 {
        Seq::empty()
    } else {
        swift_sections(cs.drop_last()) + swift_children(cs.last())
    }
}

pub proof fn lemma_content_fragments_concat(a: Seq<NodeView>, b: Seq<NodeView>)
    ensures
        content_fragments(a + b) == content_fragments(a) + content_fragments(b),
    decreases b.len(),
{
    if b.len() == 0 {
        assert(a + b =~= a);
        assert(content_fragments(a) + content_fragments(b) =~= content_fragments(a));
    } else {
        assert((a + b).drop_last() =~= a + b.drop_last());
        assert((a + b).last() == b.last());
        lemma_content_fragments_concat(a, b.drop_last());
        assert(content_fragments(a) + content_fragments(b.drop_last()) + content_fragment(b.last())
            =~= content_fragments(a) + (content_fragments(b.drop_last()) + content_fragment(
            b.last(),
        )));
    }
}

/// The full content-view fragment for a program: the backend locates its
/// own declarations by the `swift:*` prefix on root children and renders
/// one block per section found under them.
pub open spec fn content_view_text(program: ElemView) -> Seq<char> {
    SWIFT_CV_PREFIX@ + content_fragments(swift_sections(program.children)) + SWIFT_CV_SUFFIX@
}

/// The full single-file output for a program.
pub open spec fn swift_output(program: ElemView) -> Seq<char> {
    SWIFT_APP_FILE@ + "\n\n"@ + content_view_text(program) + "\n\n"@ + SWIFT_PACKAGE@
}

pub struct SwiftUICompiler;

impl SwiftUICompiler {
    pub fn new() -> Self {
        SwiftUICompiler
    }
}

impl TargetCompiler for SwiftUICompiler {
    open spec fn spec_target_name(&self) -> Seq<char> {
        "SwiftUI"@
    }

    open spec fn spec_extension(&self) -> Seq<char> {
        "swift"@
    }

    open spec fn spec_generated(&self, program: ElemView) -> Seq<char> {
        swift_output(program)
    }

    open spec fn spec_tree(&self, program: ElemView) -> Option<TreeView> {
        None
    }

    fn compile(&self, ast: &Element) -> (r: Result<String, String>) {
        let mut output = String::new();

        let app_file = match self.generate_app_file(ast) {
            Ok(s) => s,
            Err(e) => {
                return Err(e);
            },
        };
        output.append(app_file.as_str());
        output.append("\n\n");

        let content_view = match self.generate_content_view(ast) {
            Ok(s) => s,
            Err(e) => {
                return Err(e);
            },
        };
        output.append(content_view.as_str());
        output.append("\n\n");

        let package = self.generate_package_swift();
        output.append(package.as_str());

        proof {
            assert(output@ =~= swift_output(elem_view(*ast)));
        }
        Ok(output)
    }

    fn target_name(&self) -> (r: &str) {
        "SwiftUI"
    }

    fn file_extension(&self) -> (r: &str) {
        "swift"
    }

    fn compile_to_directory(&self, _ast: &Element) -> (r: Option<ProjectTree>) {
        None
    }
}

impl SwiftUICompiler {
    /// The fixed entry-point fragment.
    pub fn generate_app_file(&self, _ast: &Element) -> (r: Result<String, String>)
        ensures
            r is Ok,
            r->Ok_0@ == SWIFT_APP_FILE@,
    {
        Ok(String::from_str(SWIFT_APP_FILE))
    }

    /// The content view: one block per section of each `swift`-typed
    /// declaration, located by the `swift:*` prefix on root children.
    pub fn generate_content_view(&self, ast: &Element) -> (r: Result<String, String>)
        ensures
            r is Ok,
            r->Ok_0@ == content_view_text(elem_view(*ast)),
    {
        let ghost cs = elem_view(*ast).children;
        let mut out = String::from_str(SWIFT_CV_PREFIX);
        let mut i: usize = 0;
        proof {
            assert(cs.take(0) =~= Seq::<NodeView>::empty());
            assert(out@ =~= SWIFT_CV_PREFIX@ + content_fragments(swift_sections(cs.take(0))));
        }
        while i < ast.children.len()
            invariant
                i <= ast.children@.len(),
                cs == elem_view(*ast).children,
                cs.len() == ast.children@.len(),
                out@ == SWIFT_CV_PREFIX@ + content_fragments(swift_sections(cs.take(i as int))),
            decreases ast.children@.len() - i,
        {
            proof {
                assert(cs[i as int] == node_view(ast.children@[i as int]));
            }
            let ghost prev_sections = swift_sections(cs.take(i as int));
            match &ast.children[i] {
                Node::Element(element) => {
                    let head = split_head(element.name.as_str(), ':');
                    if str_eq(head, "swift") {
                        let ghost secs = elem_view(*element).children;
                        proof {
                            assert(swift_children(cs[i as int]) == secs);
                            assert(secs.take(0) =~= Seq::<NodeView>::empty());
                            assert(out@ =~= SWIFT_CV_PREFIX@ + content_fragments(prev_sections)
                                + content_fragments(secs.take(0)));
                        }
                        let mut j: usize = 0;
                        while j < element.children.len()
                            invariant
                                j <= element.children@.len(),
                                secs == elem_view(*element).children,
                                secs.len() == element.children@.len(),
                                out@ == SWIFT_CV_PREFIX@ + content_fragments(prev_sections)
                                    + content_fragments(secs.take(j as int)),
                            decreases element.children@.len() - j,
                        {
                            proof {
                                assert(secs[j as int] == node_view(element.children@[j as int]));
                            }
                            match &element.children[j] {
                                Node::Element(section) => {
                                    proof {
                                        assert(secs[j as int] == NodeView::Element(
                                            elem_view(*section),
                                        ));
                                    }
                                    if str_eq(section.name.as_str(), "App") {
                                        let block = self.generate_app_component(section);
                                        out.append(block.as_str());
                                    } else if str_eq(section.name.as_str(), "Components") {
                                        let block = self.generate_components_component(section);
                                        out.append(block.as_str());
                                    } else {
                                        out.append(SWIFT_UNKNOWN_PREFIX);
                                        out.append(section.name.as_str());
                                        out.append("\n");
                                    }
                                },
                                _ => {},
                            }
                            proof {
                                assert(secs.take(j + 1).drop_last() =~= secs.take(j as int));
                                assert(secs.take(j + 1).last() == secs[j as int]);
                                assert(content_fragments(secs.take(j + 1)) == content_fragments(
                                    secs.take(j as int),
                                ) + content_fragment(secs[j as int]));
                                assert(out@ =~= SWIFT_CV_PREFIX@ + content_fragments(prev_sections)
                                    + content_fragments(secs.take(j + 1)));
                            }
                            j = j + 1;
                        }
                        proof {
                            assert(secs.take(secs.len() as int) =~= secs);
                        }
                    }
                },
                _ => {},
            }
            proof {
                assert(cs.take(i + 1).drop_last() =~= cs.take(i as int));
                assert(cs.take(i + 1).last() == cs[i as int]);
                assert(swift_sections(cs.take(i + 1)) == prev_sections + swift_children(
                    cs[i as int],
                ));
                lemma_content_fragments_concat(prev_sections, swift_children(cs[i as int]));
                assert(out@ =~= SWIFT_CV_PREFIX@ + content_fragments(
                    swift_sections(cs.take(i + 1)),
                ));
            }
            i = i + 1;
        }
        proof {
            assert(cs.take(cs.len() as int) =~= cs);
        }
        out.append(SWIFT_CV_SUFFIX);
        Ok(out)
    }

    /// The fixed block rendered for a child named `App`.
    pub fn generate_app_component(&self, _element: &Element) -> (r: String)
        ensures
            r@ == SWIFT_APP_COMPONENT@,
    {
        String::from_str(SWIFT_APP_COMPONENT)
    }

    /// The fixed block rendered for a child named `Components`.
    pub fn generate_components_component(&self, _element: &Element) -> (r: String)
        ensures
            r@ == SWIFT_COMPONENTS_COMPONENT@,
    {
        String::from_str(SWIFT_COMPONENTS_COMPONENT)
    }

    /// The fixed project-descriptor fragment.
    pub fn generate_package_swift(&self) -> (r: String)
        ensures
            r@ == SWIFT_PACKAGE@,
    {
        String::from_str(SWIFT_PACKAGE)
    }
}

} // verus!
