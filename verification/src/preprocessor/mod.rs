//! The preprocessor: macros are replaced in the text of a file, and the
//! files that it includes are spliced in. Reading the files is left to the
//! caller, who is asked for each included file in turn.

pub mod definitions;
pub mod directive;

pub use directive::Definition;
pub use directive::Directive;

use std::collections::VecDeque;
use vstd::prelude::*;
use vstd::string::*;
use indexmap::IndexMap;
use crate::error::CompilerError;
use crate::error::NotSupported;
use crate::preprocessor::definitions::applied;
use crate::preprocessor::definitions::apply_definitions;
use crate::preprocessor::definitions::define;
use crate::preprocessor::definitions::defined;
use crate::preprocessor::definitions::definitions_of;
use crate::preprocessor::definitions::is_defined;
use crate::preprocessor::definitions::no_definitions;
use crate::preprocessor::definitions::position_of;
use crate::preprocessor::definitions::undefine;
use crate::preprocessor::definitions::without;
use crate::preprocessor::directive::views;
use crate::preprocessor::directive::DirectiveView;

verus! {

/// Whether a line holds a directive: it does when it starts with `#`.
pub open spec fn directive_line(line: Seq<char>) -> bool {
    line.len() > 0 && line[0] == '#'
}

/// Whether a line holds a directive.
pub fn is_directive_line(line: &str) -> (r: bool)
    ensures
        r == directive_line(line@),
{
    line.unicode_len() > 0 && line.get_char(0) == '#'
}

/// The directives of a file after one more line: a line of text joins the
/// run of text before it, behind a line break; a directive that follows a run
/// of text closes the run with a line break.
pub open spec fn combined(directives: Seq<DirectiveView>, curr: DirectiveView) -> Seq<
    DirectiveView,
> {
    if directives.len() == 0 {
        seq![curr]
    } else {
        match directives.last() {
            DirectiveView::Raw(line) => match curr {
                DirectiveView::Raw(curr_line) => directives.drop_last().push(
                    DirectiveView::Raw(line + "\n"@ + curr_line),
                ),
                _ => directives.drop_last().push(DirectiveView::Raw(line + "\n"@)).push(curr),
            },
            _ => directives.push(curr),
        }
    }
}

/// Adds the next line of a file to the directives read so far.
pub fn combine(directives: &mut Vec<Directive>, curr: Directive)
    ensures
        views(final(directives)@) == combined(views(old(directives)@), curr@),
{
    match directives.pop() {
        None => {
            directives.push(curr);
        },
        Some(Directive::Raw(line)) => {
            let mut line = line;
            match curr {
                Directive::Raw(curr_line) => {
                    line.append("\n");
                    line.append(curr_line.as_str());
                    directives.push(Directive::Raw(line));
                },
                other => {
                    line.append("\n");
                    directives.push(Directive::Raw(line));
                    directives.push(other);
                },
            }
        },
        Some(x) => {
            directives.push(x);
            directives.push(curr);
        },
    }
    proof {
        assert(views(directives@) =~= combined(views(old(directives)@), curr@));
    }
}

/// Where the preprocessor stands after it has gone on as far as it can.
#[derive(Debug)]
pub enum Progress {
    /// Every directive is dealt with, and the output is complete.
    Finished,
    /// The file with this path, taken from beside the file that is being
    /// preprocessed, is included here: its directives are needed.
    Include(String),
    /// The file cannot be preprocessed.
    Failed(CompilerError),
}

/// The mathematical value of a [`Progress`].
pub enum ProgressView {
    Finished,
    Include(Seq<char>),
    Failed(CompilerError),
}

impl View for Progress {
    type V = ProgressView;

    open spec fn view(&self) -> ProgressView {
        match self {
            Progress::Finished => ProgressView::Finished,
            Progress::Include(path) => ProgressView::Include(path@),
            Progress::Failed(e) => ProgressView::Failed(*e),
        }
    }
}

/// The state of a preprocessor, as contracts speak of it.
pub struct PreprocessorView {
    /// The directives that are still to be dealt with, the next one first.
    pub directives: Seq<DirectiveView>,
    /// The macros defined so far, in the order of their definition.
    pub definitions: Seq<(Seq<char>, Seq<char>)>,
    /// The text put out so far.
    pub output: Seq<char>,
}

/// The directives in the opposite order.
pub open spec fn reversed(directives: Seq<DirectiveView>) -> Seq<DirectiveView> {
    Seq::new(directives.len(), |i: int| directives[directives.len() - 1 - i])
}

impl PreprocessorView {
    /// The state before anything is dealt with.
    pub open spec fn start(directives: Seq<DirectiveView>) -> PreprocessorView {
        PreprocessorView { directives, definitions: Seq::empty(), output: Seq::empty() }
    }

    /// Deals with directives until a file is needed, a directive cannot be
    /// dealt with, or none is left. Text is put out with the macros defined at
    /// that point replaced in it. A definition replaces an earlier one of the
    /// same identifier and comes last in the order; the macros defined before
    /// it are replaced in its own replacement.
    pub open spec fn advanced(self) -> (PreprocessorView, ProgressView)
        decreases self.directives.len(),
    {
        if self.directives.len() == 0 {
            (self, ProgressView::Finished)
        } else {
            let rest = self.directives.skip(1);
            match self.directives[0] {
                DirectiveView::Raw(raw) => PreprocessorView {
                    directives: rest,
                    output: self.output + applied(
                        self.definitions,
                        raw,
                        self.definitions.len() as int,
                    ),
                    ..self
                }.advanced(),
                DirectiveView::Define(identifier, replacement) => {
                    let kept = if position_of(self.definitions, identifier) is Some {
                        without(self.definitions, identifier)
                    } else {
                        self.definitions
                    };
                    let replace_with = match replacement {
                        Some(x) => applied(kept, x, kept.len() as int),
                        None => Seq::empty(),
                    };
                    PreprocessorView {
                        directives: rest,
                        definitions: defined(kept, identifier, replace_with),
                        ..self
                    }.advanced()
                },
                DirectiveView::IncludeLocal(path) => (
                    PreprocessorView { directives: rest, ..self },
                    ProgressView::Include(path),
                ),
                DirectiveView::IncludeGlobal(_) => (
                    PreprocessorView { directives: rest, ..self },
                    ProgressView::Failed(CompilerError::NotSupported(NotSupported::GlobalInclude)),
                ),
            }
        }
    }

    /// Splices an included file in at the front: a line break ends what the
    /// file puts out, and before it come the file's directives, the last of
    /// them first.
    pub open spec fn spliced(self, directives: Seq<DirectiveView>) -> PreprocessorView {
        PreprocessorView {
            directives: reversed(directives) + seq![DirectiveView::Raw("\n"@)] + self.directives,
            ..self
        }
    }
}

/// The preprocessing of one file.
pub struct Preprocessor {
    directives: VecDeque<Directive>,
    definitions: IndexMap<String, String>,
    output: String,
}

impl View for Preprocessor {
    type V = PreprocessorView;

    closed spec fn view(&self) -> PreprocessorView {
        PreprocessorView {
            directives: views(self.directives@),
            definitions: definitions_of(self.definitions),
            output: self.output@,
        }
    }
}

impl Preprocessor {
    /// Starts on the directives of a file, with no macro defined.
    pub fn new(directives: VecDeque<Directive>) -> (r: Preprocessor)
        ensures
            r@ == PreprocessorView::start(views(directives@)),
    {
        Preprocessor { directives, definitions: no_definitions(), output: String::new() }
    }

    /// Goes on until a file is needed, a directive cannot be dealt with, or
    /// the output is complete. After `Include`, hand the file's directives to
    /// [`Preprocessor::splice`] and go on.
    pub fn advance(&mut self) -> (r: Progress)
        ensures
            (final(self)@, r@) == old(self)@.advanced(),
    {
        loop
            invariant
                old(self)@.advanced() == self@.advanced(),
            decreases self.directives@.len(),
        {
            let ghost before = self@;
            let next = self.directives.pop_front();
            proof {
                if next is Some {
                    assert(self@.directives =~= before.directives.skip(1));
                    assert(before.directives[0] == next->Some_0@);
                }
            }
            match next {
                None => {
                    return Progress::Finished;
                },
                Some(Directive::Raw(raw)) => {
                    let text = apply_definitions(&self.definitions, raw.as_str());
                    self.output.append(text.as_str());
                },
                Some(Directive::Define(definition)) => {
                    if is_defined(&self.definitions, &definition.identifier) {
                        undefine(&mut self.definitions, &definition.identifier);
                    }
                    let replace_with = match definition.replacement {
                        Some(x) => apply_definitions(&self.definitions, x.as_str()),
                        None => String::new(),
                    };
                    define(&mut self.definitions, definition.identifier, replace_with);
                },
                Some(Directive::IncludeLocal(path)) => {
                    return Progress::Include(path);
                },
                Some(Directive::IncludeGlobal(_)) => {
                    return Progress::Failed(
                        CompilerError::NotSupported(NotSupported::GlobalInclude),
                    );
                },
            }
        }
    }

    /// Splices the directives of an included file in at the front.
    pub fn splice(&mut self, directives: VecDeque<Directive>)
        ensures
            final(self)@ == old(self)@.spliced(views(directives@)),
    {
        let mut rest = directives;
        self.directives.push_front(Directive::Raw(String::from_str("\n")));
        let ghost all = views(directives@);
        let ghost tail = self@.directives;
        let count = rest.len();
        let mut done: usize = 0;
        while rest.len() > 0
            invariant
                all.len() == count,
                done + rest@.len() == all.len(),
                views(rest@) =~= all.skip(done as int),
                self@.directives =~= reversed(all.take(done as int)) + tail,
                self@.definitions == old(self)@.definitions,
                self@.output == old(self)@.output,
            decreases rest@.len(),
        {
            let ghost before = self@.directives;
            let ghost left = views(rest@);
            let ghost left_items = rest@;
            match rest.pop_front() {
                Some(d) => {
                    self.directives.push_front(d);
                    proof {
                        assert(d@ == left[0]);
                        assert(left[0] == all[done as int]);
                        assert(rest@ =~= left_items.skip(1));
                        assert(views(rest@) =~= left.skip(1));
                        assert(views(rest@) =~= all.skip(done + 1));
                        assert(self@.directives =~= seq![d@] + before);
                        assert(reversed(all.take(done + 1)) =~= seq![all[done as int]] + reversed(
                            all.take(done as int),
                        ));
                    }
                    done += 1;
                },
                None => {},
            }
        }
        proof {
            assert(all.take(done as int) =~= all);
            assert(tail =~= seq![DirectiveView::Raw("\n"@)] + old(self)@.directives);
            assert(self@.directives =~= old(self)@.spliced(all).directives);
        }
    }

    /// The text put out so far.
    pub fn output(&self) -> (r: &String)
        ensures
            r@ == self@.output,
    {
        &self.output
    }

    /// Ends the preprocessing and hands the text over.
    pub fn into_output(self) -> (r: String)
        ensures
            r@ == self@.output,
    {
        self.output
    }
}

} // verus!
