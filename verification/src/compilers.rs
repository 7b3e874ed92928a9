//! The target-compiler contract and the fixed type-to-backend factory.
//!
//! A backend renders the whole program tree either as one generated text
//! file or as a full project directory tree.  Directory-mode output is an
//! optional capability: a backend without it answers `None` from
//! [`TargetCompiler::compile_to_directory`] and the driver falls back to
//! single-file output.

use vstd::prelude::*;

use crate::ast::{ElemView, Element, elem_view};
use crate::nextjs::NextJSCompiler;
use crate::rust::RustCompiler;
use crate::strutil::str_eq;
use crate::swiftui::SwiftUICompiler;
use crate::tauri::TauriCompiler;

verus! {

/// One generated file: a path relative to the target's output directory,
/// and its full text.
pub struct GeneratedFile {
    pub path: String,
    pub content: String,
}

impl View for GeneratedFile {
    type V = (Seq<char>, Seq<char>);

    open spec fn view(&self) -> (Seq<char>, Seq<char>) {
        (self.path@, self.content@)
    }
}

/// Mathematical image of a [`ProjectTree`].
#[verifier::ext_equal]
pub ghost struct TreeView {
    pub dirs: Seq<Seq<char>>,
    pub files: Seq<(Seq<char>, Seq<char>)>,
}

/// A full project directory tree: subdirectories to create and files to
/// write, all relative to the target's output directory, in write order.
pub struct ProjectTree {
    pub dirs: Vec<String>,
    pub files: Vec<GeneratedFile>,
}

impl View for ProjectTree {
    type V = TreeView;

    open spec fn view(&self) -> TreeView {
        TreeView {
            dirs: self.dirs.deep_view(),
            files: Seq::new(self.files@.len(), |i: int| self.files@[i]@),
        }
    }
}

/// The contract every target compiler implements.
pub trait TargetCompiler: Sized {
    /// The label of the target platform.
    spec fn spec_target_name(&self) -> Seq<char>;

    /// The extension used when writing single-file output.
    spec fn spec_extension(&self) -> Seq<char>;

    /// The single textual artifact rendered from a program.
    spec fn spec_generated(&self, program: ElemView) -> Seq<char>;

    /// The directory tree rendered from a program, or `None` when the
    /// backend has no directory-mode output.
    spec fn spec_tree(&self, program: ElemView) -> Option<TreeView>;

    /// Generate code for the given tree.
    fn compile(&self, ast: &Element) -> (r: Result<String, String>)
        ensures
            r is Ok,
            r->Ok_0@ == self.spec_generated(elem_view(*ast)),
    ;

    /// The target name this compiler handles.
    fn target_name(&self) -> (r: &str)
        ensures
            r@ == self.spec_target_name(),
    ;

    /// The file extension for generated files.
    fn file_extension(&self) -> (r: &str)
        ensures
            r@ == self.spec_extension(),
    ;

    /// The full project tree for directory-mode compilation, or `None`
    /// when this compiler does not support it.
    fn compile_to_directory(&self, ast: &Element) -> (r: Option<ProjectTree>)
        ensures
            match r {
                Some(t) => self.spec_tree(elem_view(*ast)) == Some(t@),
                None => self.spec_tree(elem_view(*ast)) is None,
            },
    ;
}

/// A concrete backend, one variant per wired target type.
pub enum Backend {
    NextJS(NextJSCompiler),
    SwiftUI(SwiftUICompiler),
    Rust(RustCompiler),
    Tauri(TauriCompiler),
}

/// Whether a backend is wired for the target type; the factory's domain.
pub open spec fn has_backend(t: Seq<char>) -> bool {
    t == "next"@ || t == "swift"@ || t == "rust"@ || t == "tauri"@
}

/// Factory function to get the appropriate compiler for a target.
///
/// Its domain is deliberately independent of registry membership: a type
/// the registry knows may still have no backend here.
pub fn get_compiler(target: &str) -> (r: Option<Backend>)
    ensures
        match r {
            Some(b) => has_backend(target@) && (b is NextJS <==> target@ == "next"@) && (
            b is SwiftUI <==> target@ == "swift"@) && (b is Rust <==> target@ == "rust"@) && (
            b is Tauri <==> target@ == "tauri"@),
            None => !has_backend(target@),
        },
{
    proof {
        reveal_strlit("next");
        reveal_strlit("swift");
        reveal_strlit("rust");
        reveal_strlit("tauri");
        assert("next"@.len() != "swift"@.len());
        assert("next"@.len() != "tauri"@.len());
        assert("rust"@.len() != "swift"@.len());
        assert("rust"@.len() != "tauri"@.len());
        assert("next"@[0] != "rust"@[0]);
        assert("swift"@[0] != "tauri"@[0]);
    }
    if str_eq(target, "next") {
        Some(Backend::NextJS(NextJSCompiler::new()))
    } else if str_eq(target, "swift") {
        Some(Backend::SwiftUI(SwiftUICompiler::new()))
    } else if str_eq(target, "rust") {
        Some(Backend::Rust(RustCompiler::new()))
    } else if str_eq(target, "tauri") {
        Some(Backend::Tauri(TauriCompiler::new()))
    } else {
        None
    }
}

} // verus!
