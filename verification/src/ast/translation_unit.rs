//! A whole source file, as the parser hands it over.

use vstd::prelude::*;
use crate::ast::context::Context;
use crate::ast::context::ContextView;
use crate::ast::declaration::Declaration;
use crate::ast::statements::Outcome;
use crate::error::CompilerError;

verus! {

/// The declarations of one source file, in their order.
#[derive(Debug)]
pub struct TranslationUnit {
    pub declarations: Vec<Declaration>,
}

/// Checks the declarations from position `from` on, one after the other, up
/// to the first that breaks a rule.
pub open spec fn declared_in_order(decls: Seq<Declaration>, ctx: ContextView, from: int) -> Outcome
    decreases decls.len() - from,
{
    if from < 0 || from >= decls.len() {
        Outcome::passed(ctx)
    } else {
        let first = decls[from].checked(ctx);
        if first.result is Err {
            first
        } else {
            declared_in_order(decls, first.context, from + 1)
        }
    }
}

impl TranslationUnit {
    /// What checking the file from its own, empty scope comes to.
    pub open spec fn checked(&self) -> Result<(), CompilerError> {
        declared_in_order(self.declarations@, ContextView::root(), 0).result
    }

    /// Checks a file: `Ok` when no rule of the language is broken, else the
    /// first rule that is.
    pub fn verify(&self) -> (r: Result<(), CompilerError>)
        ensures
            r == self.checked(),
    {
        let mut context = Context::new();
        self.verify_with_context(&mut context)
    }

    /// Checks a file in a chain of scopes that the caller has made.
    pub fn verify_with_context(&self, context: &mut Context) -> (r: Result<(), CompilerError>)
        ensures
            r == declared_in_order(self.declarations@, old(context)@, 0).result,
            final(context)@ == declared_in_order(self.declarations@, old(context)@, 0).context,
    {
        let mut i: usize = 0;
        while i < self.declarations.len()
            invariant
                i <= self.declarations.len(),
                declared_in_order(self.declarations@, old(context)@, 0) == declared_in_order(
                    self.declarations@,
                    context@,
                    i as int,
                ),
            decreases self.declarations.len() - i,
        {
            self.declarations[i].verify(context)?;
            i += 1;
        }
        Ok(())
    }
}

} // verus!
