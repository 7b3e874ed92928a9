//! The systems-language backend: renders a full Rust project tree.
//!
//! Directory-mode output: a fixed package manifest and a main source
//! file assembled from the sections of the program's `rust`-typed
//! declarations.  The source language defines no section vocabulary for
//! this target yet, so every section renders as an inert labeled
//! placeholder comment; the template bodies are minimal fixed assets,
//! and what the backend promises is the structural contract: which files
//! exist and how sections render into them.

use vstd::prelude::*;

use crate::ast::{ElemView, Element, Node, NodeView, elem_view, node_view};
use crate::compilers::{GeneratedFile, ProjectTree, TargetCompiler, TreeView};
use crate::strutil::{head_before, split_head, str_eq};

verus! {

pub const RUST_CARGO_MANIFEST: &'static str =
    "[package]\nname = \"z_generated_app\"\nversion = \"0.1.0\"\nedition = \"2021\"\n\n[dependencies]\n";

pub const RUST_MAIN_HEADER: &'static str =
    "fn main() {\n    println!(\"Z generated application\");\n";

pub const RUST_SECTION_PREFIX: &'static str = "    // Section placeholder: ";

pub const RUST_MAIN_FOOTER: &'static str = "}\n";

/// The line one section of a `rust` declaration contributes to the main
/// source file: an inert labeled placeholder, nothing for the leaf node
/// shapes.
pub open spec fn rust_section_block(n: NodeView) -> Seq<char> {
    match n {
        NodeView::Element(e) => RUST_SECTION_PREFIX@ + e.name + "\n"@,
        _ => Seq::empty(),
    }
}

pub open spec fn rust_section_blocks(ss: Seq<NodeView>) -> Seq<char>
    decreases ss.len(),
{
    if ss.len() == 0 {
        Seq::empty()
    } else {
        rust_section_blocks(ss.drop_last()) + rust_section_block(ss.last())
    }
}

/// The sections one root child contributes: the children of every
/// declaration whose target type is `rust`.
pub open spec fn rust_children(n: NodeView) -> Seq<NodeView> {
    match n {
        NodeView::Element(e) => {
            if head_before(e.name, ':') == "rust"@ {
                e.children
            } else {
                Seq::empty()
            }
        },
        _ => Seq::empty(),
    }
}

pub open spec fn rust_sections(cs: Seq<NodeView>) -> Seq<NodeView>
    decreases cs.len(),
{
    if cs.len() == 0 {
        Seq::empty()
    } else {
        rust_sections(cs.drop_last()) + rust_children(cs.last())
    }
}

pub proof fn lemma_rust_section_blocks_concat(a: Seq<NodeView>, b: Seq<NodeView>)
    ensures
        rust_section_blocks(a + b) == rust_section_blocks(a) + rust_section_blocks(b),
    decreases b.len(),
{
    if b.len() == 0 {
        assert(a + b =~= a);
        assert(rust_section_blocks(a) + rust_section_blocks(b) =~= rust_section_blocks(a));
    } else {
        assert((a + b).drop_last() =~= a + b.drop_last());
        assert((a + b).last() == b.last());
        lemma_rust_section_blocks_concat(a, b.drop_last());
        assert(rust_section_blocks(a) + rust_section_blocks(b.drop_last()) + rust_section_block(
            b.last(),
        ) =~= rust_section_blocks(a) + (rust_section_blocks(b.drop_last()) + rust_section_block(
            b.last(),
        )));
    }
}

/// The text of the generated main source file for a program.
pub open spec fn rust_main_text(program: ElemView) -> Seq<char> {
    RUST_MAIN_HEADER@ + rust_section_blocks(rust_sections(program.children)) + RUST_MAIN_FOOTER@
}

/// The files of a generated project, in write order.
pub open spec fn rust_files(program: ElemView) -> Seq<(Seq<char>, Seq<char>)> {
    seq![("Cargo.toml"@, RUST_CARGO_MANIFEST@), ("src/main.rs"@, rust_main_text(program))]
}

/// The whole directory tree generated for a program.
pub open spec fn rust_tree(program: ElemView) -> TreeView {
    TreeView { dirs: seq!["src"@], files: rust_files(program) }
}

pub struct RustCompiler;

impl RustCompiler {
    pub fn new() -> Self {
        RustCompiler
    }
}

impl TargetCompiler for RustCompiler {
    open spec fn spec_target_name(&self) -> Seq<char> {
        "Rust"@
    }

    open spec fn spec_extension(&self) -> Seq<char> {
        "rs"@
    }

    open spec fn spec_generated(&self, program: ElemView) -> Seq<char> {
        "Rust project files generated successfully"@
    }

    open spec fn spec_tree(&self, program: ElemView) -> Option<TreeView> {
        Some(rust_tree(program))
    }

    fn compile(&self, _ast: &Element) -> (r: Result<String, String>) {
        // The tree is produced by directory-mode compilation; this path
        // only reports it.
        Ok(String::from_str("Rust project files generated successfully"))
    }

    fn target_name(&self) -> (r: &str) {
        "Rust"
    }

    fn file_extension(&self) -> (r: &str) {
        "rs"
    }

    fn compile_to_directory(&self, ast: &Element) -> (r: Option<ProjectTree>) {
        Some(self.create_rust_project(ast))
    }
}

impl RustCompiler {
    /// The full project tree for a program: the fixed layout, the fixed
    /// manifest, and the generated main source file.
    pub fn create_rust_project(&self, ast: &Element) -> (r: ProjectTree)
        ensures
            r@ == rust_tree(elem_view(*ast)),
    {
        let mut dirs: Vec<String> = Vec::new();
        dirs.push(String::from_str("src"));
        let mut files: Vec<GeneratedFile> = Vec::new();
        files.push(
            GeneratedFile {
                path: String::from_str("Cargo.toml"),
                content: String::from_str(RUST_CARGO_MANIFEST),
            },
        );
        let main_rs = match self.generate_main_rs(ast) {
            Ok(s) => s,
            Err(_) => String::new(),
        };
        files.push(GeneratedFile { path: String::from_str("src/main.rs"), content: main_rs });
        let tree = ProjectTree { dirs, files };
        proof {
            assert(tree@.dirs =~= seq!["src"@]);
            assert(tree@.files =~= rust_files(elem_view(*ast)));
            assert(tree@ =~~= rust_tree(elem_view(*ast)));
        }
        tree
    }

    /// The generated main source file: the fixed entry point plus one
    /// placeholder line per section of each `rust` declaration.
    pub fn generate_main_rs(&self, ast: &Element) -> (r: Result<String, String>)
        ensures
            r is Ok,
            r->Ok_0@ == rust_main_text(elem_view(*ast)),
    {
        let ghost cs = elem_view(*ast).children;
        let mut out = String::from_str(RUST_MAIN_HEADER);
        let mut i: usize = 0;
        proof {
            assert(cs.take(0) =~= Seq::<NodeView>::empty());
            assert(out@ =~= RUST_MAIN_HEADER@ + rust_section_blocks(rust_sections(cs.take(0))));
        }
        while i < ast.children.len()
            invariant
                i <= ast.children@.len(),
                cs == elem_view(*ast).children,
                cs.len() == ast.children@.len(),
                out@ == RUST_MAIN_HEADER@ + rust_section_blocks(rust_sections(cs.take(i as int))),
            decreases ast.children@.len() - i,
        {
            proof {
                assert(cs[i as int] == node_view(ast.children@[i as int]));
            }
            let ghost prev_sections = rust_sections(cs.take(i as int));
            match &ast.children[i] {
                Node::Element(element) => {
                    let head = split_head(element.name.as_str(), ':');
                    if str_eq(head, "rust") {
                        let ghost secs = elem_view(*element).children;
                        proof {
                            assert(rust_children(cs[i as int]) == secs);
                            assert(secs.take(0) =~= Seq::<NodeView>::empty());
                            assert(out@ =~= RUST_MAIN_HEADER@ + rust_section_blocks(prev_sections)
                                + rust_section_blocks(secs.take(0)));
                        }
                        let mut j: usize = 0;
                        while j < element.children.len()
                            invariant
                                j <= element.children@.len(),
                                secs == elem_view(*element).children,
                                secs.len() == element.children@.len(),
                                out@ == RUST_MAIN_HEADER@ + rust_section_blocks(prev_sections)
                                    + rust_section_blocks(secs.take(j as int)),
                            decreases element.children@.len() - j,
                        {
                            proof {
                                assert(secs[j as int] == node_view(element.children@[j as int]));
                            }
                            match &element.children[j] {
                                Node::Element(section) => {
                                    proof {
                                        assert(secs[j as int] == NodeView::Element(
                                            elem_view(*section),
                                        ));
                                    }
                                    out.append(RUST_SECTION_PREFIX);
                                    out.append(section.name.as_str());
                                    out.append("\n");
                                },
                                _ => {},
                            }
                            proof {
                                assert(secs.take(j + 1).drop_last() =~= secs.take(j as int));
                                assert(secs.take(j + 1).last() == secs[j as int]);
                                assert(rust_section_blocks(secs.take(j + 1)) == rust_section_blocks(
                                    secs.take(j as int),
                                ) + rust_section_block(secs[j as int]));
                                assert(out@ =~= RUST_MAIN_HEADER@ + rust_section_blocks(
                                    prev_sections,
                                ) + rust_section_blocks(secs.take(j + 1)));
                            }
                            j = j + 1;
                        }
                        proof {
                            assert(secs.take(secs.len() as int) =~= secs);
                        }
                    }
                },
                _ => {},
            }
            proof {
                assert(cs.take(i + 1).drop_last() =~= cs.take(i as int));
                assert(cs.take(i + 1).last() == cs[i as int]);
                assert(rust_sections(cs.take(i + 1)) == prev_sections + rust_children(
                    cs[i as int],
                ));
                lemma_rust_section_blocks_concat(prev_sections, rust_children(cs[i as int]));
                assert(out@ =~= RUST_MAIN_HEADER@ + rust_section_blocks(
                    rust_sections(cs.take(i + 1)),
                ));
            }
            i = i + 1;
        }
        proof {
            assert(cs.take(cs.len() as int) =~= cs);
        }
        out.append(RUST_MAIN_FOOTER);
        Ok(out)
    }
}

} // verus!
