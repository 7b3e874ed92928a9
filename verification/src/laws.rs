//! The pipeline's guarantees, stated and proved over the specifications
//! that the parser, driver and backends carry.

use vstd::prelude::*;

use crate::ast::NodeView;
use crate::compilers::has_backend;
use crate::driver::{
    CompilationPlan, CompileOutput, TargetOutcome, element_names, outcome_matches,
    plan_matches_source,
};
use crate::nextjs::nextjs_tree;
use crate::rust::rust_tree;
use crate::parser::{
    colon_join, decl_pairs, lemma_decl_pairs_wf, line_decl, line_decls, pair_wf, program_view_of,
};
use crate::registry::reg_contains;
use crate::strutil::{is_lower, is_word, lemma_split_at_pair, split_at, split_lines};
use crate::swiftui::swift_output;
use crate::tauri::tauri_tree;

verus! {

/// In a sequence of element nodes, the declared names are exactly the
/// elements' names, in order.
pub proof fn lemma_element_names_all(cs: Seq<NodeView>)
    requires
        forall|i: int| 0 <= i < cs.len() ==> (#[trigger] cs[i]) is Element,
    ensures
        element_names(cs).len() == cs.len(),
        forall|i: int|
            0 <= i < cs.len() ==> element_names(cs)[i] == (#[trigger] cs[i])->Element_0.name,
    decreases cs.len(),
{
    if cs.len() > 0 {
        assert forall|i: int| 0 <= i < cs.drop_last().len() implies (#[trigger] cs.drop_last()[i])
            is Element by {
            assert(cs.drop_last()[i] == cs[i]);
        }
        lemma_element_names_all(cs.drop_last());
        let prefix = element_names(cs.drop_last());
        let tail = seq![cs.last()->Element_0.name];
        assert(element_names(cs) == prefix + tail);
        assert forall|i: int|
            0 <= i < cs.len() implies element_names(cs)[i] == (#[trigger] cs[i])->Element_0.name by {
            if i < cs.len() - 1 {
                assert(element_names(cs)[i] == prefix[i]);
                assert(cs.drop_last()[i] == cs[i]);
            } else {
                assert(element_names(cs)[i] == tail[0]);
            }
        }
    }
}

/// The name of the `k`-th declaration of a parsed program is the
/// colon-joined pair, and splitting it on the colon gives the pair back.
pub proof fn lemma_declared_name(src: Seq<char>, k: int)
    requires
        0 <= k < decl_pairs(src).len(),
    ensures
        element_names(program_view_of(decl_pairs(src)).children).len() == decl_pairs(src).len(),
        element_names(program_view_of(decl_pairs(src)).children)[k] == colon_join(
            decl_pairs(src)[k].0,
            decl_pairs(src)[k].1,
        ),
        split_at(element_names(program_view_of(decl_pairs(src)).children)[k], ':') =~= seq![
            decl_pairs(src)[k].0,
            decl_pairs(src)[k].1,
        ],
{
    let ps = decl_pairs(src);
    let pv = program_view_of(ps);
    lemma_decl_pairs_wf(src);
    assert(pair_wf(ps[k]));
    assert forall|i: int| 0 <= i < pv.children.len() implies (#[trigger] pv.children[i])
        is Element by {}
    lemma_element_names_all(pv.children);
    let name = element_names(pv.children)[k];
    assert(pv.children[k] == NodeView::Element(
        crate::ast::ElemView {
            name: colon_join(ps[k].0, ps[k].1),
            annotations: Seq::empty(),
            children: Seq::empty(),
        },
    ));
    assert(name == colon_join(ps[k].0, ps[k].1));
    assert forall|j: int| 0 <= j < ps[k].0.len() implies ps[k].0[j] != ':' by {
        assert(is_lower(ps[k].0[j]));
    }
    assert forall|j: int| 0 <= j < ps[k].1.len() implies ps[k].1[j] != ':' by {
        assert(is_word(ps[k].1[j]));
    }
    assert(name =~= ps[k].0 + seq![':'] + ps[k].1);
    lemma_split_at_pair(name, ':', ps[k].0, ps[k].1);
}

/// Source text with no matching declaration line compiles to an empty
/// plan: there are no outcomes, so nothing is owed to the filesystem.
pub proof fn lemma_no_targets_no_output(
    plan: CompilationPlan,
    src: Seq<char>,
    rv: Seq<(Seq<char>, Seq<char>)>,
)
    requires
        plan_matches_source(plan, src, rv),
        decl_pairs(src).len() == 0,
    ensures
        plan.outcomes@.len() == 0,
{
    let pv = program_view_of(decl_pairs(src));
    assert(pv.children.len() == 0);
    assert(pv.children =~= Seq::<NodeView>::empty());
    assert(element_names(pv.children).len() == 0);
}

proof fn lemma_line_decls_none(lines: Seq<Seq<char>>)
    requires
        forall|j: int| 0 <= j < lines.len() ==> line_decl(#[trigger] lines[j]) is None,
    ensures
        line_decls(lines) =~= Seq::<(Seq<char>, Seq<char>)>::empty(),
    decreases lines.len(),
{
    if lines.len() > 0 {
        assert forall|j: int| 0 <= j < lines.drop_last().len() implies line_decl(
            #[trigger] lines.drop_last()[j],
        ) is None by {
            assert(lines.drop_last()[j] == lines[j]);
        }
        lemma_line_decls_none(lines.drop_last());
        assert(line_decl(lines.last()) is None);
    }
}

proof fn lemma_line_decls_one(lines: Seq<Seq<char>>, i: int)
    requires
        0 <= i < lines.len(),
        line_decl(lines[i]) is Some,
        forall|j: int|
            0 <= j < lines.len() && j != i ==> line_decl(#[trigger] lines[j]) is None,
    ensures
        line_decls(lines) =~= seq![line_decl(lines[i])->Some_0],
    decreases lines.len(),
{
    if i == lines.len() - 1 {
        assert forall|j: int| 0 <= j < lines.drop_last().len() implies line_decl(
            #[trigger] lines.drop_last()[j],
        ) is None by {
            assert(lines.drop_last()[j] == lines[j]);
        }
        lemma_line_decls_none(lines.drop_last());
    } else {
        assert forall|j: int|
            0 <= j < lines.drop_last().len() && j != i implies line_decl(
                #[trigger] lines.drop_last()[j],
            ) is None by {
            assert(lines.drop_last()[j] == lines[j]);
        }
        assert(lines.drop_last()[i] == lines[i]);
        lemma_line_decls_one(lines.drop_last(), i);
        assert(line_decl(lines.last()) is None);
    }
}

/// A source text whose only matching line is line `i` parses to a program
/// with exactly one child element, named with the colon-joined pair
/// recognized on that line, whatever else the text holds.  (A matching
/// line nested inside a block would itself be recognized: the flat
/// scanner tracks no braces.)
pub proof fn lemma_single_declaration(src: Seq<char>, i: int)
    requires
        0 <= i < split_lines(src).len(),
        line_decl(split_lines(src)[i]) is Some,
        forall|j: int|
            0 <= j < split_lines(src).len() && j != i ==> line_decl(
                #[trigger] split_lines(src)[j],
            ) is None,
    ensures
        decl_pairs(src) =~= seq![line_decl(split_lines(src)[i])->Some_0],
        program_view_of(decl_pairs(src)).children.len() == 1,
        program_view_of(decl_pairs(src)).children[0] == NodeView::Element(
            crate::ast::ElemView {
                name: colon_join(
                    line_decl(split_lines(src)[i])->Some_0.0,
                    line_decl(split_lines(src)[i])->Some_0.1,
                ),
                annotations: Seq::empty(),
                children: Seq::empty(),
            },
        ),
{
    lemma_line_decls_one(split_lines(src), i);
}

/// A declaration whose type the registry does not know gets an
/// unknown-target outcome — so no output is owed for it — while every
/// sibling declaration still gets its own outcome, and every sibling
/// whose type is known and backed compiles.
pub proof fn lemma_unknown_target_isolated(
    plan: CompilationPlan,
    src: Seq<char>,
    rv: Seq<(Seq<char>, Seq<char>)>,
    k: int,
)
    requires
        plan_matches_source(plan, src, rv),
        0 <= k < decl_pairs(src).len(),
        !reg_contains(rv, decl_pairs(src)[k].0),
    ensures
        plan.outcomes@.len() == decl_pairs(src).len(),
        plan.outcomes@[k] is UnknownTargetType,
        forall|j: int|
            0 <= j < decl_pairs(src).len() && reg_contains(rv, (#[trigger] decl_pairs(src)[j]).0)
                && has_backend(decl_pairs(src)[j].0) ==> plan.outcomes@[j] is Compiled,
{
    let ps = decl_pairs(src);
    let pv = program_view_of(ps);
    lemma_declared_name(src, k);
    assert(outcome_matches(plan.outcomes@[k], element_names(pv.children)[k], rv, pv));
    assert forall|j: int|
        0 <= j < ps.len() && reg_contains(rv, (#[trigger] ps[j]).0) && has_backend(ps[j].0)
            implies plan.outcomes@[j] is Compiled by {
        lemma_declared_name(src, j);
        assert(outcome_matches(plan.outcomes@[j], element_names(pv.children)[j], rv, pv));
    }
}

/// A declaration whose type is known and has the directory-mode web
/// backend compiles to that backend's fixed project tree — never to a
/// single-file fallback.
pub proof fn lemma_directory_mode_output(
    plan: CompilationPlan,
    src: Seq<char>,
    rv: Seq<(Seq<char>, Seq<char>)>,
    k: int,
)
    requires
        plan_matches_source(plan, src, rv),
        0 <= k < decl_pairs(src).len(),
        decl_pairs(src)[k].0 == "next"@,
        reg_contains(rv, "next"@),
    ensures
        plan.outcomes@[k] matches TargetOutcome::Compiled { output, .. } && (output matches
        CompileOutput::Tree(t) && t@ == nextjs_tree(program_view_of(decl_pairs(src)))),
{
    let ps = decl_pairs(src);
    let pv = program_view_of(ps);
    lemma_declared_name(src, k);
    assert(outcome_matches(plan.outcomes@[k], element_names(pv.children)[k], rv, pv));
}

/// A declaration whose type is known and has the directory-mode
/// systems-language backend compiles to that backend's fixed project
/// tree — never to a single-file fallback.
pub proof fn lemma_directory_mode_output_rust(
    plan: CompilationPlan,
    src: Seq<char>,
    rv: Seq<(Seq<char>, Seq<char>)>,
    k: int,
)
    requires
        plan_matches_source(plan, src, rv),
        0 <= k < decl_pairs(src).len(),
        decl_pairs(src)[k].0 == "rust"@,
        reg_contains(rv, "rust"@),
    ensures
        plan.outcomes@[k] matches TargetOutcome::Compiled { output, .. } && (output matches
        CompileOutput::Tree(t) && t@ == rust_tree(program_view_of(decl_pairs(src)))),
{
    let ps = decl_pairs(src);
    let pv = program_view_of(ps);
    lemma_declared_name(src, k);
    assert(outcome_matches(plan.outcomes@[k], element_names(pv.children)[k], rv, pv));
    reveal_strlit("next");
    reveal_strlit("swift");
    reveal_strlit("rust");
    assert("rust"@[0] != "next"@[0]);
    assert("rust"@.len() != "swift"@.len());
}

/// A declaration whose type is known and has the directory-mode
/// desktop-shell backend compiles to that backend's fixed project tree —
/// never to a single-file fallback.
pub proof fn lemma_directory_mode_output_tauri(
    plan: CompilationPlan,
    src: Seq<char>,
    rv: Seq<(Seq<char>, Seq<char>)>,
    k: int,
)
    requires
        plan_matches_source(plan, src, rv),
        0 <= k < decl_pairs(src).len(),
        decl_pairs(src)[k].0 == "tauri"@,
        reg_contains(rv, "tauri"@),
    ensures
        plan.outcomes@[k] matches TargetOutcome::Compiled { output, .. } && (output matches
        CompileOutput::Tree(t) && t@ == tauri_tree(program_view_of(decl_pairs(src)))),
{
    let ps = decl_pairs(src);
    let pv = program_view_of(ps);
    lemma_declared_name(src, k);
    assert(outcome_matches(plan.outcomes@[k], element_names(pv.children)[k], rv, pv));
    reveal_strlit("next");
    reveal_strlit("swift");
    reveal_strlit("rust");
    reveal_strlit("tauri");
    assert("tauri"@.len() != "next"@.len());
    assert("tauri"@[0] != "swift"@[0]);
    assert("tauri"@.len() != "rust"@.len());
}

/// A declaration whose type is known but whose backend has no
/// directory-mode capability compiles to exactly one generated file whose
/// name carries the backend's declared extension.
pub proof fn lemma_single_file_output(
    plan: CompilationPlan,
    src: Seq<char>,
    rv: Seq<(Seq<char>, Seq<char>)>,
    k: int,
)
    requires
        plan_matches_source(plan, src, rv),
        0 <= k < decl_pairs(src).len(),
        decl_pairs(src)[k].0 == "swift"@,
        reg_contains(rv, "swift"@),
    ensures
        plan.outcomes@[k] matches TargetOutcome::Compiled { output, .. } && (output matches
        CompileOutput::Single { file_name, content } && file_name@ == "generated."@ + "swift"@
            && content@ == swift_output(program_view_of(decl_pairs(src)))),
{
    let ps = decl_pairs(src);
    let pv = program_view_of(ps);
    lemma_declared_name(src, k);
    assert(outcome_matches(plan.outcomes@[k], element_names(pv.children)[k], rv, pv));
    reveal_strlit("next");
    reveal_strlit("swift");
    assert("swift"@.len() != "next"@.len());
}

} // verus!
