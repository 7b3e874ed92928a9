//! The desktop-shell backend: renders a full shell-project tree.
//!
//! Directory-mode output: a fixed package manifest, a fixed shell
//! configuration, and a main script assembled from the sections of the
//! program's `tauri`-typed declarations.  The source language defines no
//! section vocabulary for this target yet, so every section renders as
//! an inert labeled placeholder comment; the template bodies are minimal
//! fixed assets, and what the backend promises is the structural
//! contract: which files exist and how sections render into them.

use vstd::prelude::*;

use crate::ast::{ElemView, Element, Node, NodeView, elem_view, node_view};
use crate::compilers::{GeneratedFile, ProjectTree, TargetCompiler, TreeView};
use crate::strutil::{head_before, split_head, str_eq};

verus! {

pub const TAURI_PACKAGE_JSON: &'static str = r#"{
  "name": "z-generated-tauri",
  "version": "0.1.0",
  "private": true,
  "scripts": {
    "tauri": "tauri"
  },
  "devDependencies": {
    "@tauri-apps/cli": "^1.5.0"
  }
}
"#;

pub const TAURI_CONF_JSON: &'static str = r#"{
  "build": {
    "distDir": "../src",
    "devPath": "../src"
  },
  "package": {
    "productName": "z-generated-app",
    "version": "0.1.0"
  }
}
"#;

pub const TAURI_MAIN_HEADER: &'static str =
    "console.log(\"Z generated desktop shell\");\n";

pub const TAURI_SECTION_PREFIX: &'static str = "// Section placeholder: ";

/// The line one section of a `tauri` declaration contributes to the main
/// script: an inert labeled placeholder, nothing for the leaf node
/// shapes.
pub open spec fn tauri_section_block(n: NodeView) -> Seq<char> {
    match n {
        NodeView::Element(e) => TAURI_SECTION_PREFIX@ + e.name + "\n"@,
        _ => Seq::empty(),
    }
}

pub open spec fn tauri_section_blocks(ss: Seq<NodeView>) -> Seq<char>
    decreases ss.len(),
{
    if ss.len() == 0 {
        Seq::empty()
    } else {
        tauri_section_blocks(ss.drop_last()) + tauri_section_block(ss.last())
    }
}

/// The sections one root child contributes: the children of every
/// declaration whose target type is `tauri`.
pub open spec fn tauri_children(n: NodeView) -> Seq<NodeView> {
    match n {
        NodeView::Element(e) => {
            if head_before(e.name, ':') == "tauri"@ {
                e.children
            } else {
                Seq::empty()
            }
        },
        _ => Seq::empty(),
    }
}

pub open spec fn tauri_sections(cs: Seq<NodeView>) -> Seq<NodeView>
    decreases cs.len(),
{
    if cs.len() == 0 {
        Seq::empty()
    } else {
        tauri_sections(cs.drop_last()) + tauri_children(cs.last())
    }
}

pub proof fn lemma_tauri_section_blocks_concat(a: Seq<NodeView>, b: Seq<NodeView>)
    ensures
        tauri_section_blocks(a + b) == tauri_section_blocks(a) + tauri_section_blocks(b),
    decreases b.len(),
{
    if b.len() == 0 {
        assert(a + b =~= a);
        assert(tauri_section_blocks(a) + tauri_section_blocks(b) =~= tauri_section_blocks(a));
    } else {
        assert((a + b).drop_last() =~= a + b.drop_last());
        assert((a + b).last() == b.last());
        lemma_tauri_section_blocks_concat(a, b.drop_last());
        assert(tauri_section_blocks(a) + tauri_section_blocks(b.drop_last()) + tauri_section_block(
            b.last(),
        ) =~= tauri_section_blocks(a) + (tauri_section_blocks(b.drop_last()) + tauri_section_block(
            b.last(),
        )));
    }
}

/// The text of the generated main script for a program.
pub open spec fn tauri_main_text(program: ElemView) -> Seq<char> {
    TAURI_MAIN_HEADER@ + tauri_section_blocks(tauri_sections(program.children))
}

/// The files of a generated project, in write order.
pub open spec fn tauri_files(program: ElemView) -> Seq<(Seq<char>, Seq<char>)> {
    seq![
        ("package.json"@, TAURI_PACKAGE_JSON@),
        ("src-tauri/tauri.conf.json"@, TAURI_CONF_JSON@),
        ("src/main.js"@, tauri_main_text(program)),
    ]
}

/// The whole directory tree generated for a program.
pub open spec fn tauri_tree(program: ElemView) -> TreeView {
    TreeView { dirs: seq!["src"@, "src-tauri"@], files: tauri_files(program) }
}

pub struct TauriCompiler;

impl TauriCompiler {
    pub fn new() -> Self {
        TauriCompiler
    }
}

impl TargetCompiler for TauriCompiler {
    open spec fn spec_target_name(&self) -> Seq<char> {
        "Tauri"@
    }

    open spec fn spec_extension(&self) -> Seq<char> {
        "js"@
    }

    open spec fn spec_generated(&self, program: ElemView) -> Seq<char> {
        "Tauri project files generated successfully"@
    }

    open spec fn spec_tree(&self, program: ElemView) -> Option<TreeView> {
        Some(tauri_tree(program))
    }

    fn compile(&self, _ast: &Element) -> (r: Result<String, String>) {
        // The tree is produced by directory-mode compilation; this path
        // only reports it.
        Ok(String::from_str("Tauri project files generated successfully"))
    }

    fn target_name(&self) -> (r: &str) {
        "Tauri"
    }

    fn file_extension(&self) -> (r: &str) {
        "js"
    }

    fn compile_to_directory(&self, ast: &Element) -> (r: Option<ProjectTree>) {
        Some(self.create_tauri_project(ast))
    }
}

impl TauriCompiler {
    /// The full project tree for a program: the fixed layout, the fixed
    /// manifests, and the generated main script.
    pub fn create_tauri_project(&self, ast: &Element) -> (r: ProjectTree)
        ensures
            r@ == tauri_tree(elem_view(*ast)),
    {
        let mut dirs: Vec<String> = Vec::new();
        dirs.push(String::from_str("src"));
        dirs.push(String::from_str("src-tauri"));
        let mut files: Vec<GeneratedFile> = Vec::new();
        files.push(
            GeneratedFile {
                path: String::from_str("package.json"),
                content: String::from_str(TAURI_PACKAGE_JSON),
            },
        );
        files.push(
            GeneratedFile {
                path: String::from_str("src-tauri/tauri.conf.json"),
                content: String::from_str(TAURI_CONF_JSON),
            },
        );
        let main_js = match self.generate_main_js(ast) {
            Ok(s) => s,
            Err(_) => String::new(),
        };
        files.push(GeneratedFile { path: String::from_str("src/main.js"), content: main_js });
        let tree = ProjectTree { dirs, files };
        proof {
            assert(tree@.dirs =~= seq!["src"@, "src-tauri"@]);
            assert(tree@.files =~= tauri_files(elem_view(*ast)));
            assert(tree@ =~~= tauri_tree(elem_view(*ast)));
        }
        tree
    }

    /// The generated main script: the fixed entry point plus one
    /// placeholder line per section of each `tauri` declaration.
    pub fn generate_main_js(&self, ast: &Element) -> (r: Result<String, String>)
        ensures
            r is Ok,
            r->Ok_0@ == tauri_main_text(elem_view(*ast)),
    {
        let ghost cs = elem_view(*ast).children;
        let mut out = String::from_str(TAURI_MAIN_HEADER);
        let mut i: usize = 0;
        proof {
            assert(cs.take(0) =~= Seq::<NodeView>::empty());
            assert(out@ =~= TAURI_MAIN_HEADER@ + tauri_section_blocks(tauri_sections(cs.take(0))));
        }
        while i < ast.children.len()
            invariant
                i <= ast.children@.len(),
                cs == elem_view(*ast).children,
                cs.len() == ast.children@.len(),
                out@ == TAURI_MAIN_HEADER@ + tauri_section_blocks(
                    tauri_sections(cs.take(i as int)),
                ),
            decreases ast.children@.len() - i,
        {
            proof {
                assert(cs[i as int] == node_view(ast.children@[i as int]));
            }
            let ghost prev_sections = tauri_sections(cs.take(i as int));
            match &ast.children[i] {
                Node::Element(element) => {
                    let head = split_head(element.name.as_str(), ':');
                    if str_eq(head, "tauri") {
                        let ghost secs = elem_view(*element).children;
                        proof {
                            assert(tauri_children(cs[i as int]) == secs);
                            assert(secs.take(0) =~= Seq::<NodeView>::empty());
                            assert(out@ =~= TAURI_MAIN_HEADER@ + tauri_section_blocks(
                                prev_sections,
                            ) + tauri_section_blocks(secs.take(0)));
                        }
                        let mut j: usize = 0;
                        while j < element.children.len()
                            invariant
                                j <= element.children@.len(),
                                secs == elem_view(*element).children,
                                secs.len() == element.children@.len(),
                                out@ == TAURI_MAIN_HEADER@ + tauri_section_blocks(prev_sections)
                                    + tauri_section_blocks(secs.take(j as int)),
                            decreases element.children@.len() - j,
                        {
                            proof {
                                assert(secs[j as int] == node_view(element.children@[j as int]));
                            }
                            match &element.children[j] {
                                Node::Element(section) => {
                                    proof {
                                        assert(secs[j as int] == NodeView::Element(
                                            elem_view(*section),
                                        ));
                                    }
                                    out.append(TAURI_SECTION_PREFIX);
                                    out.append(section.name.as_str());
                                    out.append("\n");
                                },
                                _ => {},
                            }
                            proof {
                                assert(secs.take(j + 1).drop_last() =~= secs.take(j as int));
                                assert(secs.take(j + 1).last() == secs[j as int]);
                                assert(tauri_section_blocks(secs.take(j + 1))
                                    == tauri_section_blocks(secs.take(j as int))
                                    + tauri_section_block(secs[j as int]));
                                assert(out@ =~= TAURI_MAIN_HEADER@ + tauri_section_blocks(
                                    prev_sections,
                                ) + tauri_section_blocks(secs.take(j + 1)));
                            }
                            j = j + 1;
                        }
                        proof {
                            assert(secs.take(secs.len() as int) =~= secs);
                        }
                    }
                },
                _ => {},
            }
            proof {
                assert(cs.take(i + 1).drop_last() =~= cs.take(i as int));
                assert(cs.take(i + 1).last() == cs[i as int]);
                assert(tauri_sections(cs.take(i + 1)) == prev_sections + tauri_children(
                    cs[i as int],
                ));
                lemma_tauri_section_blocks_concat(prev_sections, tauri_children(cs[i as int]));
                assert(out@ =~= TAURI_MAIN_HEADER@ + tauri_section_blocks(
                    tauri_sections(cs.take(i + 1)),
                ));
            }
            i = i + 1;
        }
        proof {
            assert(cs.take(cs.len() as int) =~= cs);
        }
        Ok(out)
    }
}

} // verus!
