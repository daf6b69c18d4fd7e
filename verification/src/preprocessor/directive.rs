//! The lines of a source file as the preprocessor sees them.

use vstd::prelude::*;

verus! {

/// A line that holds a directive, or a run of lines that hold none.
#[derive(Debug)]
pub enum Directive {
    /// `#include` of a file from the system's search path.
    IncludeGlobal(String),
    /// `#include` of a file beside the including one.
    IncludeLocal(String),
    /// `#define` of a macro.
    Define(Definition),
    /// Text that is passed on, with the macros in it replaced.
    Raw(String),
}

/// A macro: the identifier and what replaces it. Without a replacement the
/// identifier is replaced by nothing.
#[derive(Debug)]
pub struct Definition {
    pub identifier: String,
    pub replacement: Option<String>,
}

/// The mathematical value of a [`Directive`].
pub enum DirectiveView {
    IncludeGlobal(Seq<char>),
    IncludeLocal(Seq<char>),
    Define(Seq<char>, Option<Seq<char>>),
    Raw(Seq<char>),
}

impl View for Directive {
    type V = DirectiveView;

    open spec fn view(&self) -> DirectiveView {
        match self {
            Directive::IncludeGlobal(path) => DirectiveView::IncludeGlobal(path@),
            Directive::IncludeLocal(path) => DirectiveView::IncludeLocal(path@),
            Directive::Define(definition) => DirectiveView::Define(
                definition.identifier@,
                match definition.replacement {
                    Some(text) => Some(text@),
                    None => None,
                },
            ),
            Directive::Raw(text) => DirectiveView::Raw(text@),
        }
    }
}

/// The values of a list of directives.
pub open spec fn views(directives: Seq<Directive>) -> Seq<DirectiveView> {
    Seq::new(directives.len(), |i: int| directives[i]@)
}

} // verus!
