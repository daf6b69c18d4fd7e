//! Statements and the rules that they must keep.

use vstd::prelude::*;
use crate::ast::context::Context;
use crate::ast::context::ContextView;
use crate::ast::declaration::Declaration;
use crate::ast::expressions::rejected;
use crate::ast::expressions::Expression;
use crate::ast::types::Type;
use crate::ast::types::TypeView;
use crate::error::CompilerError;
use crate::error::SemanticError;

verus! {

/// A statement of the language.
#[derive(Debug)]
pub enum Statement {
    /// A block, which is a scope of its own.
    Compound(Vec<Statement>),
    Declaration(Declaration),
    Expression(Box<Expression>),
    If(Box<IfStatement>),
    WhileLoop(Box<WhileLoopStatement>),
    /// A return, with the value where the function returns one.
    Return(Box<Option<Expression>>),
}

/// `if (condition) if_block else else_block`; a chain of these makes an
/// if-else ladder.
#[derive(Debug)]
pub struct IfStatement {
    pub condition: Expression,
    pub if_block: Statement,
    pub else_block: Option<Statement>,
}

/// `while (condition) body`
#[derive(Debug)]
pub struct WhileLoopStatement {
    pub condition: Expression,
    pub body: Statement,
}

/// What checking a statement or a declaration leaves behind: the chain of
/// scopes as it then stands, and whether a rule was broken.
pub struct Outcome {
    pub context: ContextView,
    pub result: Result<(), CompilerError>,
}

impl Outcome {
    /// A check that passed and left the scopes as `context`.
    pub open spec fn passed(context: ContextView) -> Outcome {
        Outcome { context, result: Ok(()) }
    }

    /// A check that stopped at a broken rule, with the scopes as `context`.
    pub open spec fn failed(context: ContextView, e: CompilerError) -> Outcome {
        Outcome { context, result: Err(e) }
    }
}

/// Checks the statements from position `from` on, one after the other in one
/// chain of scopes, up to the first that breaks a rule.
pub open spec fn checked_in_order(stmts: Seq<Statement>, ctx: ContextView, from: int) -> Outcome
    decreases stmts, stmts.len() - from,
{
    if from < 0 || from >= stmts.len() {
        Outcome::passed(ctx)
    } else {
        let first = stmts[from].checked(ctx);
        if first.result is Err {
            first
        } else {
            checked_in_order(stmts, first.context, from + 1)
        }
    }
}

/// A block is checked in a scope of its own, which is left behind at its end.
pub open spec fn checked_compound(stmts: Seq<Statement>, ctx: ContextView) -> Outcome
    decreases stmts, stmts.len() + 1,
{
    Outcome { context: ctx, result: checked_in_order(stmts, ctx.enter(), 0).result }
}

/// A return must stand in a function. In a function that returns nothing it
/// carries no value; in any other it carries a value of the function's return
/// type.
pub open spec fn checked_return(expr: Option<Expression>, ctx: ContextView) -> Result<
    (),
    CompilerError,
>
    decreases expr, 0nat,
{
    match ctx.return_type() {
        None => rejected(SemanticError::ReturnOutsideFunction),
        Some(expected) => match expr {
            Some(ex) => if expected is Void {
                rejected(SemanticError::ReturnValueFromVoid)
            } else {
                match ex.checked_type(ctx) {
                    Err(e) => Err(e),
                    Ok(actual) => if !expected.same(actual) {
                        rejected(SemanticError::ReturnTypeMismatch)
                    } else {
                        Ok(())
                    },
                }
            },
            None => if !(expected is Void) {
                rejected(SemanticError::ReturnVoidFromNonVoid)
            } else {
                Ok(())
            },
        },
    }
}

impl IfStatement {
    /// The condition is an integer; the branches are checked in the scope
    /// that the statement stands in.
    pub open spec fn checked(&self, ctx: ContextView) -> Outcome
        decreases self, 0nat,
    {
        match self.condition.checked_type(ctx) {
            Err(e) => Outcome::failed(ctx, e),
            Ok(t) => if !t.is_integer() {
                Outcome::failed(
                    ctx,
                    CompilerError::SemanticError(SemanticError::IfConditionNotInteger),
                )
            } else {
                let taken = self.if_block.checked(ctx);
                if taken.result is Err {
                    taken
                } else {
                    match self.else_block {
                        Some(else_stmt) => else_stmt.checked(taken.context),
                        None => taken,
                    }
                }
            },
        }
    }

    /// Checks the condition and the branches.
    pub fn verify(&self, context: &mut Context) -> (r: Result<(), CompilerError>)
        ensures
            r == self.checked(old(context)@).result,
            final(context)@ == self.checked(old(context)@).context,
        decreases self, 0nat,
    {
        if !self.condition.verify(context)?.is_integer() {
            return Err(CompilerError::SemanticError(SemanticError::IfConditionNotInteger));
        }
        self.if_block.verify(context)?;
        if let Some(else_stmt) = &self.else_block {
            else_stmt.verify(context)?;
        }
        Ok(())
    }
}

impl WhileLoopStatement {
    /// The condition is an integer; the body is checked in the scope that the
    /// statement stands in.
    pub open spec fn checked(&self, ctx: ContextView) -> Outcome
        decreases self, 0nat,
    {
        match self.condition.checked_type(ctx) {
            Err(e) => Outcome::failed(ctx, e),
            Ok(t) => if !t.is_integer() {
                Outcome::failed(
                    ctx,
                    CompilerError::SemanticError(SemanticError::WhileConditionNotInteger),
                )
            } else {
                self.body.checked(ctx)
            },
        }
    }

    /// Checks the condition and the body.
    pub fn verify(&self, context: &mut Context) -> (r: Result<(), CompilerError>)
        ensures
            r == self.checked(old(context)@).result,
            final(context)@ == self.checked(old(context)@).context,
        decreases self, 0nat,
    {
        if !self.condition.verify(context)?.is_integer() {
            return Err(CompilerError::SemanticError(SemanticError::WhileConditionNotInteger));
        }
        self.body.verify(context)?;
        Ok(())
    }
}

/// Checks the statements of a block in a scope of their own.
pub fn verify_compound(stmts: &Vec<Statement>, context: &mut Context) -> (r: Result<
    (),
    CompilerError,
>)
    ensures
        r == checked_compound(stmts@, old(context)@).result,
        final(context)@ == old(context)@,
    decreases stmts@, stmts@.len() + 1,
{
    let mut inner = context.inner();
    verify_in_order(stmts, &mut inner)
}

/// Checks statements one after the other in one scope, up to the first that
/// breaks a rule.
pub fn verify_in_order(stmts: &Vec<Statement>, context: &mut Context) -> (r: Result<
    (),
    CompilerError,
>)
    ensures
        r == checked_in_order(stmts@, old(context)@, 0).result,
        final(context)@ == checked_in_order(stmts@, old(context)@, 0).context,
    decreases stmts@, stmts@.len(),
{
    let mut i: usize = 0;
    while i < stmts.len()
        invariant
            i <= stmts.len(),
            checked_in_order(stmts@, old(context)@, 0) == checked_in_order(
                stmts@,
                context@,
                i as int,
            ),
        decreases stmts.len() - i,
    {
        stmts[i].verify(context)?;
        i += 1;
    }
    Ok(())
}

/// Checks a return against the function that it stands in.
pub fn verify_return(expr: &Option<Expression>, context: &mut Context) -> (r: Result<
    (),
    CompilerError,
>)
    ensures
        r == checked_return(*expr, old(context)@),
        final(context)@ == old(context)@,
    decreases expr, 0nat,
{
    let expected_type = match context.return_type() {
        Some(t) => t.clone(),
        None => {
            return Err(CompilerError::SemanticError(SemanticError::ReturnOutsideFunction));
        },
    };
    let returns_nothing = match expected_type {
        Type::Void => true,
        _ => false,
    };
    match expr {
        Some(ex) => {
            if returns_nothing {
                return Err(CompilerError::SemanticError(SemanticError::ReturnValueFromVoid));
            }
            let actual_type = ex.verify(context)?;
            if !expected_type.same_as(&actual_type) {
                return Err(CompilerError::SemanticError(SemanticError::ReturnTypeMismatch));
            }
        },
        None => {
            if !returns_nothing {
                return Err(CompilerError::SemanticError(SemanticError::ReturnVoidFromNonVoid));
            }
        },
    }
    Ok(())
}

impl Statement {
    /// What checking the statement in a chain of scopes comes to.
    pub open spec fn checked(&self, ctx: ContextView) -> Outcome
        decreases self, 0nat,
    {
        match self {
            Statement::Compound(stmts) => checked_compound(stmts@, ctx),
            Statement::Declaration(decl) => decl.checked(ctx),
            Statement::Expression(expr) => match expr.checked_type(ctx) {
                Err(e) => Outcome::failed(ctx, e),
                Ok(_) => Outcome::passed(ctx),
            },
            Statement::If(x) => x.checked(ctx),
            Statement::WhileLoop(x) => x.checked(ctx),
            Statement::Return(expr) => Outcome { context: ctx, result: checked_return(**expr, ctx) },
        }
    }

    /// Checks the statement. A declaration adds its name to the current
    /// scope; nothing else changes the chain of scopes.
    pub fn verify(&self, context: &mut Context) -> (r: Result<(), CompilerError>)
        ensures
            r == self.checked(old(context)@).result,
            final(context)@ == self.checked(old(context)@).context,
        decreases self, 0nat,
    {
        match self {
            Statement::Compound(stmts) => verify_compound(stmts, context)?,
            Statement::Declaration(decl) => decl.verify(context)?,
            Statement::Expression(expr) => {
                expr.verify(context)?;
            },
            Statement::If(x) => x.verify(context)?,
            Statement::WhileLoop(x) => x.verify(context)?,
            Statement::Return(expr) => verify_return(expr, context)?,
        };
        Ok(())
    }
}

} // verus!
