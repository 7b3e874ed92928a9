//! The compilation driver: parse once, enumerate declared targets,
//! validate each against the registry, obtain the matching compiler, and
//! describe the output owed for it.
//!
//! The unit of failure is the individual declaration, never the run: a
//! malformed name, an unknown target type or a missing backend is recorded
//! as that declaration's outcome and processing continues with its
//! siblings.  The driver is pure: it returns a plan of per-declaration
//! outcomes, and writing the planned files (and reporting) is left to the
//! binary around the library.

use vstd::prelude::*;

use crate::ast::{ElemView, Element, Node, NodeView, elem_view, node_view};
use crate::compilers::{Backend, ProjectTree, TargetCompiler, has_backend, get_compiler};
use crate::nextjs::nextjs_tree;
use crate::parser::{decl_pairs, parse_source, program_view_of};
use crate::registry::{Registry, reg_contains, reg_lookup};
use crate::rust::rust_tree;
use crate::strutil::{split_at, split_str};
use crate::swiftui::swift_output;
use crate::tauri::tauri_tree;

verus! {

/// What one successfully compiled declaration produces: one generated
/// text file, or a backend-owned project directory tree.
pub enum CompileOutput {
    Single { file_name: String, content: String },
    Tree(ProjectTree),
}

/// The outcome recorded for one declared target.
pub enum TargetOutcome {
    /// The declaration's composite name does not split into exactly two
    /// colon-delimited parts.
    InvalidDeclaration { name: String },
    /// The target type is not in the registry.
    UnknownTargetType { target_type: String },
    /// The registry knows the type, but no backend is wired for it.
    NoCompilerAvailable { target_type: String, app_name: String, description: String },
    /// The declaration compiled; `output` is what must be written under
    /// `<output_base>/<app_name>/`.
    Compiled { target_type: String, app_name: String, description: String, output: CompileOutput },
}

/// The plan of a whole compilation run: one outcome per declared target,
/// in declaration order.  An empty plan means no targets were found.
pub struct CompilationPlan {
    pub outcomes: Vec<TargetOutcome>,
}

/// The names of the root's element children, in order: the declared
/// targets, each in `"<target-type>:<app-name>"` form.
pub open spec fn element_names(cs: Seq<NodeView>) -> Seq<Seq<char>>
    decreases cs.len(),
{
    if cs.len() == 0 {
        Seq::empty()
    } else {
        element_names(cs.drop_last()) + (match cs.last() {
            NodeView::Element(e) => seq![e.name],
            _ => Seq::empty(),
        })
    }
}

/// What the output of a compiled declaration of type `ty` must be.
pub open spec fn output_matches(o: CompileOutput, ty: Seq<char>, program: ElemView) -> bool {
    if ty == "next"@ {
        match o {
            CompileOutput::Tree(t) => t@ == nextjs_tree(program),
            _ => false,
        }
    } else if ty == "swift"@ {
        match o {
            CompileOutput::Single { file_name, content } => file_name@ == "generated."@
                + "swift"@ && content@ == swift_output(program),
            _ => false,
        }
    } else if ty == "rust"@ {
        match o {
            CompileOutput::Tree(t) => t@ == rust_tree(program),
            _ => false,
        }
    } else if ty == "tauri"@ {
        match o {
            CompileOutput::Tree(t) => t@ == tauri_tree(program),
            _ => false,
        }
    } else {
        false
    }
}

/// The outcome owed for one declared name, given the registry and the
/// program: exactly one variant fits any given name.
pub open spec fn outcome_matches(
    o: TargetOutcome,
    name: Seq<char>,
    rv: Seq<(Seq<char>, Seq<char>)>,
    program: ElemView,
) -> bool {
    let parts = split_at(name, ':');
    match o {
        TargetOutcome::InvalidDeclaration { name: raw } => raw@ == name && parts.len() != 2,
        TargetOutcome::UnknownTargetType { target_type } => parts.len() == 2 && target_type@
            == parts[0] && !reg_contains(rv, parts[0]),
        TargetOutcome::NoCompilerAvailable { target_type, app_name, description } => {
            &&& parts.len() == 2
            &&& target_type@ == parts[0]
            &&& app_name@ == parts[1]
            &&& reg_contains(rv, parts[0])
            &&& !has_backend(parts[0])
            &&& description@ == reg_lookup(rv, parts[0])
        },
        TargetOutcome::Compiled { target_type, app_name, description, output } => {
            &&& parts.len() == 2
            &&& target_type@ == parts[0]
            &&& app_name@ == parts[1]
            &&& reg_contains(rv, parts[0])
            &&& has_backend(parts[0])
            &&& description@ == reg_lookup(rv, parts[0])
            &&& output_matches(output, parts[0], program)
        },
    }
}

/// A plan fits a program when it has one fitting outcome per declared
/// target, in order.
pub open spec fn plan_matches_program(
    plan: CompilationPlan,
    program: ElemView,
    rv: Seq<(Seq<char>, Seq<char>)>,
) -> bool {
    let names = element_names(program.children);
    &&& plan.outcomes@.len() == names.len()
    &&& forall|i: int|
        0 <= i < names.len() ==> outcome_matches(
            #[trigger] plan.outcomes@[i],
            names[i],
            rv,
            program,
        )
}

/// A plan fits source text when it fits the program parsed from it.
pub open spec fn plan_matches_source(
    plan: CompilationPlan,
    src: Seq<char>,
    rv: Seq<(Seq<char>, Seq<char>)>,
) -> bool {
    plan_matches_program(plan, program_view_of(decl_pairs(src)), rv)
}

/// The declared targets of a parsed program: the names of its element
/// children, already in `"target:name"` form.
pub fn detect_targets(ast: &Element) -> (r: Vec<String>)
    ensures
        r.deep_view() == element_names(elem_view(*ast).children),
{
    let ghost cs = elem_view(*ast).children;
    let mut targets: Vec<String> = Vec::new();
    let mut i: usize = 0;
    proof {
        assert(cs.take(0) =~= Seq::<NodeView>::empty());
        assert(targets.deep_view() =~= element_names(cs.take(0)));
    }
    while i < ast.children.len()
        invariant
            i <= ast.children@.len(),
            cs == elem_view(*ast).children,
            cs.len() == ast.children@.len(),
            targets.deep_view() == element_names(cs.take(i as int)),
        decreases ast.children@.len() - i,
    {
        proof {
            assert(cs[i as int] == node_view(ast.children@[i as int]));
        }
        match &ast.children[i] {
            Node::Element(element) => {
                targets.push(element.name.clone());
            },
            _ => {},
        }
        proof {
            assert(cs.take(i + 1).drop_last() =~= cs.take(i as int));
            assert(cs.take(i + 1).last() == cs[i as int]);
            assert(targets.deep_view() =~= element_names(cs.take(i + 1)));
        }
        i = i + 1;
    }
    proof {
        assert(cs.take(cs.len() as int) =~= cs);
    }
    targets
}

/// Compiles one resolved declaration with the given compiler: directory
/// mode when the backend supports it, otherwise one `generated.<ext>`
/// file from single-file compilation.
fn compile_with<T: TargetCompiler>(ast: &Element, compiler: &T) -> (r: Result<
    CompileOutput,
    String,
>)
    ensures
        r is Ok,
        match compiler.spec_tree(elem_view(*ast)) {
            Some(t) => r->Ok_0 matches CompileOutput::Tree(tree) && tree@ == t,
            None => r->Ok_0 matches CompileOutput::Single { file_name, content }
                && file_name@ == "generated."@ + compiler.spec_extension() && content@
                == compiler.spec_generated(elem_view(*ast)),
        },
{
    // Try directory-based compilation first (for full project structures).
    match compiler.compile_to_directory(ast) {
        Some(tree) => Ok(CompileOutput::Tree(tree)),
        None => {
            // Fall back to standard single-file compilation.
            let generated_code = match compiler.compile(ast) {
                Ok(s) => s,
                Err(e) => {
                    return Err(e);
                },
            };
            let file_name = String::from_str("generated.").concat(compiler.file_extension());
            Ok(CompileOutput::Single { file_name, content: generated_code })
        },
    }
}

/// Compiles one resolved declaration with the resolved backend.
fn compile_target(ast: &Element, compiler: &Backend) -> (r: Result<CompileOutput, String>)
    ensures
        r is Ok,
        match compiler {
            Backend::NextJS(_) => output_matches(r->Ok_0, "next"@, elem_view(*ast)),
            Backend::SwiftUI(_) => output_matches(r->Ok_0, "swift"@, elem_view(*ast)),
            Backend::Rust(_) => output_matches(r->Ok_0, "rust"@, elem_view(*ast)),
            Backend::Tauri(_) => output_matches(r->Ok_0, "tauri"@, elem_view(*ast)),
        },
{
    match compiler {
        Backend::NextJS(c) => {
            let r = compile_with(ast, c);
            proof {
                assert(c.spec_tree(elem_view(*ast)) == Some(nextjs_tree(elem_view(*ast))));
                assert(output_matches(r->Ok_0, "next"@, elem_view(*ast)));
            }
            r
        },
        Backend::SwiftUI(c) => {
            let r = compile_with(ast, c);
            proof {
                reveal_strlit("next");
                reveal_strlit("swift");
                assert("swift"@.len() != "next"@.len());
                assert(c.spec_tree(elem_view(*ast)) is None);
                assert(c.spec_extension() == "swift"@);
                assert(c.spec_generated(elem_view(*ast)) == swift_output(elem_view(*ast)));
                assert(output_matches(r->Ok_0, "swift"@, elem_view(*ast)));
            }
            r
        },
        Backend::Rust(c) => {
            let r = compile_with(ast, c);
            proof {
                reveal_strlit("next");
                reveal_strlit("swift");
                reveal_strlit("rust");
                assert("rust"@[0] != "next"@[0]);
                assert("rust"@.len() != "swift"@.len());
                assert(c.spec_tree(elem_view(*ast)) == Some(rust_tree(elem_view(*ast))));
                assert(output_matches(r->Ok_0, "rust"@, elem_view(*ast)));
            }
            r
        },
        Backend::Tauri(c) => {
            let r = compile_with(ast, c);
            proof {
                reveal_strlit("next");
                reveal_strlit("swift");
                reveal_strlit("rust");
                reveal_strlit("tauri");
                assert("tauri"@.len() != "next"@.len());
                assert("tauri"@[0] != "swift"@[0]);
                assert("tauri"@.len() != "rust"@.len());
                assert(c.spec_tree(elem_view(*ast)) == Some(tauri_tree(elem_view(*ast))));
                assert(output_matches(r->Ok_0, "tauri"@, elem_view(*ast)));
            }
            r
        },
    }
}

/// Plans the compilation of an already parsed program: one outcome per
/// declared target, each independent of its siblings.
pub fn compile_program(ast: &Element, registry: &Registry) -> (plan: CompilationPlan)
    ensures
        plan_matches_program(plan, elem_view(*ast), registry@),
{
    let targets = detect_targets(ast);
    let ghost names = element_names(elem_view(*ast).children);
    let mut outcomes: Vec<TargetOutcome> = Vec::new();
    let mut i: usize = 0;
    while i < targets.len()
        invariant
            i <= targets@.len(),
            targets.deep_view() == names,
            names.len() == targets@.len(),
            names == element_names(elem_view(*ast).children),
            outcomes@.len() == i,
            forall|k: int|
                0 <= k < i ==> outcome_matches(
                    #[trigger] outcomes@[k],
                    names[k],
                    registry@,
                    elem_view(*ast),
                ),
        decreases targets@.len() - i,
    {
        let target_with_name = &targets[i];
        proof {
            assert(targets.deep_view()[i as int] == targets@[i as int]@);
        }
        // Parse the target:name format.
        let parts = split_str(target_with_name.as_str(), ':');
        let outcome: TargetOutcome;
        if parts.len() != 2 {
            outcome = TargetOutcome::InvalidDeclaration { name: target_with_name.clone() };
        } else {
            let target_type = &parts[0];
            let app_name = &parts[1];
            proof {
                assert(parts.deep_view()[0] == parts@[0]@);
                assert(parts.deep_view()[1] == parts@[1]@);
            }
            match registry.describe(target_type.as_str()) {
                Some(description) => {
                    match get_compiler(target_type.as_str()) {
                        Some(compiler) => {
                            match compile_target(ast, &compiler) {
                                Ok(output) => {
                                    outcome = TargetOutcome::Compiled {
                                        target_type: target_type.clone(),
                                        app_name: app_name.clone(),
                                        description,
                                        output,
                                    };
                                },
                                Err(_e) => {
                                    proof {
                                        assert(false);
                                    }
                                    outcome = TargetOutcome::InvalidDeclaration {
                                        name: target_with_name.clone(),
                                    };
                                },
                            }
                        },
                        None => {
                            outcome = TargetOutcome::NoCompilerAvailable {
                                target_type: target_type.clone(),
                                app_name: app_name.clone(),
                                description,
                            };
                        },
                    }
                },
                None => {
                    outcome = TargetOutcome::UnknownTargetType {
                        target_type: target_type.clone(),
                    };
                },
            }
        }
        outcomes.push(outcome);
        i = i + 1;
    }
    CompilationPlan { outcomes }
}

/// Plans the compilation of source text: parses it, then plans every
/// declared target.  Parsing is total, so the plan always reflects the
/// declarations found in the text.
pub fn compile(source: &str, registry: &Registry) -> (plan: CompilationPlan)
    ensures
        plan_matches_source(plan, source@, registry@),
{
    match parse_source(source) {
        Ok(ast) => compile_program(&ast, registry),
        Err(_e) => {
            proof {
                assert(false);
            }
            CompilationPlan { outcomes: Vec::new() }
        },
    }
}

} // verus!
