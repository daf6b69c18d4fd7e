//! Declarations: names given a type and, for some, a value.

use vstd::prelude::*;
use crate::ast::context::Context;
use crate::ast::context::ContextView;
use crate::ast::expressions::Expression;
use crate::ast::statements::checked_in_order;
use crate::ast::statements::verify_in_order;
use crate::ast::statements::Outcome;
use crate::ast::statements::Statement;
use crate::ast::types::FunctionType;
use crate::ast::types::FunctionTypeView;
use crate::ast::types::Type;
use crate::ast::types::TypeView;
use crate::error::CompilerError;
use crate::error::SemanticError;

verus! {

/// A name with its type. Without a value it announces the name; an external
/// one lives in another unit and can have no value here.
#[derive(Debug)]
pub struct Declaration {
    pub name: String,
    pub type_of: Type,
    pub external: bool,
    pub value: Option<DeclarationValue>,
}

/// What a declaration defines its name to be.
#[derive(Debug)]
pub enum DeclarationValue {
    /// The initial value of a variable.
    Variable(Expression),
    /// The body of a function.
    Function(Vec<Statement>),
}

/// Declares the parameters from position `from` on in the current scope, up
/// to the first whose name the scope already holds.
pub open spec fn bound_params(params: Seq<(Seq<char>, TypeView)>, ctx: ContextView, from: int) -> Outcome
    decreases params.len() - from,
{
    if from < 0 || from >= params.len() {
        Outcome::passed(ctx)
    } else if ctx.declares_here(params[from].0) {
        Outcome::failed(ctx, CompilerError::SemanticError(SemanticError::NameRedefined))
    } else {
        bound_params(params, ctx.declare(params[from].0, params[from].1), from + 1)
    }
}

/// What checking a function's body comes to. The body is a scope of its own,
/// marked with the function's return type, in which the parameters are
/// declared before the statements are checked in their order. A function
/// cannot be defined where a function's return type is already in sight.
pub open spec fn checked_body(f: FunctionTypeView, stmts: Seq<Statement>, ctx: ContextView) -> Result<
    (),
    CompilerError,
>
    decreases stmts, stmts.len() + 1,
{
    if ctx.return_type() is Some {
        Err(CompilerError::SemanticError(SemanticError::NestedFunction))
    } else {
        let params = bound_params(f.args, ctx.enter().mark_function(f.return_type), 0);
        if params.result is Err {
            params.result
        } else {
            checked_in_order(stmts, params.context, 0).result
        }
    }
}

/// Checks a function's body in a fresh scope inside `context`.
pub fn verify_body(f: &FunctionType, stmts: &Vec<Statement>, context: &Context) -> (r: Result<
    (),
    CompilerError,
>)
    ensures
        r == checked_body(f@, stmts@, context@),
    decreases stmts@, stmts@.len() + 1,
{
    let mut inner = context.inner();
    proof {
        context.lemma_never_empty();
        lemma_enter_keeps_return_type(context@);
    }
    inner.set_return_type(f.return_type.clone())?;
    let mut i: usize = 0;
    while i < f.args.len()
        invariant
            i <= f.args.len(),
            context@.return_type() is None,
            bound_params(f@.args, context@.enter().mark_function(f@.return_type), 0)
                == bound_params(f@.args, inner@, i as int),
        decreases f.args.len() - i,
    {
        assert(f@.args[i as int] == (f.args@[i as int].0@, f.args@[i as int].1@));
        inner.add_name(f.args[i].0.clone(), f.args[i].1.clone())?;
        i += 1;
    }
    verify_in_order(stmts, &mut inner)
}

/// Opening a scope changes nothing about the function that one stands in.
pub proof fn lemma_enter_keeps_return_type(ctx: ContextView)
    ensures
        ctx.enter().return_type() == ctx.return_type(),
{
    assert(ctx.enter().outer().frames =~= ctx.frames);
}

/// An external declaration that carries a value is rejected, whatever the
/// value is and whatever the scopes hold.
pub proof fn lemma_external_with_value_fails(decl: &Declaration, ctx: ContextView)
    requires
        decl.external,
        decl.value is Some,
    ensures
        decl.checked(ctx).result is Err,
        !ctx.declares_here(decl.name@) ==> decl.checked(ctx).result == Err::<(), CompilerError>(
            CompilerError::SemanticError(SemanticError::ExternWithValue),
        ),
{
}

impl Expression {
    /// Whether the expression is a literal: the only thing that a variable at
    /// file scope may be initialised with.
    pub open spec fn literal(&self) -> bool {
        self is IntLiteral || self is CharLiteral || self is StringLiteral
    }
}

impl Declaration {
    /// What checking the value comes to, the name being declared already.
    pub open spec fn checked_value(&self, ctx: ContextView) -> Result<(), CompilerError>
        decreases self, 0nat,
    {
        match (self.external, self.value) {
            (_, None) => Ok(()),
            (false, Some(DeclarationValue::Variable(expr))) => if ctx.return_type() is None {
                if expr.literal() {
                    Ok(())
                } else {
                    Err(CompilerError::SemanticError(SemanticError::GlobalNotLiteral))
                }
            } else {
                match expr.checked_type(ctx) {
                    Err(e) => Err(e),
                    Ok(t) => if !t.same(self.type_of@) {
                        Err(CompilerError::SemanticError(SemanticError::DeclarationTypeMismatch))
                    } else {
                        Ok(())
                    },
                }
            },
            (false, Some(DeclarationValue::Function(stmts))) => match self.type_of@ {
                TypeView::Function(f) => checked_body(*f, stmts@, ctx),
                _ => Err(CompilerError::SemanticError(SemanticError::BodyWithoutFunctionType)),
            },
            (true, Some(_)) => Err(CompilerError::SemanticError(SemanticError::ExternWithValue)),
        }
    }

    /// What checking the declaration in a chain of scopes comes to. The name
    /// is declared first, so that a function's body can call the function.
    pub open spec fn checked(&self, ctx: ContextView) -> Outcome
        decreases self, 1nat,
    {
        if ctx.declares_here(self.name@) {
            Outcome::failed(ctx, CompilerError::SemanticError(SemanticError::NameRedefined))
        } else {
            let declared = ctx.declare(self.name@, self.type_of@);
            Outcome { context: declared, result: self.checked_value(declared) }
        }
    }

    /// Checks the declaration and adds its name to the current scope.
    pub fn verify(&self, context: &mut Context) -> (r: Result<(), CompilerError>)
        ensures
            r == self.checked(old(context)@).result,
            final(context)@ == self.checked(old(context)@).context,
        decreases self, 1nat,
    {
        context.add_name(self.name.clone(), self.type_of.clone())?;
        match (self.external, &self.value) {
            (_, None) => (),
            (false, Some(DeclarationValue::Variable(expr))) => {
                let is_global = context.return_type().is_none();
                if is_global {
                    match expr {
                        Expression::IntLiteral(_) => (),
                        Expression::CharLiteral(_) => (),
                        Expression::StringLiteral(_) => (),
                        _ => {
                            return Err(
                                CompilerError::SemanticError(SemanticError::GlobalNotLiteral),
                            );
                        },
                    }
                } else {
                    let t = expr.verify(context)?;
                    if !t.same_as(&self.type_of) {
                        return Err(
                            CompilerError::SemanticError(SemanticError::DeclarationTypeMismatch),
                        );
                    }
                }
            },
            (false, Some(DeclarationValue::Function(stmts))) => {
                if let Type::Function(f) = &self.type_of {
                    verify_body(f, stmts, context)?;
                } else {
                    return Err(
                        CompilerError::SemanticError(SemanticError::BodyWithoutFunctionType),
                    );
                }
            },
            (true, Some(_)) => {
                return Err(CompilerError::SemanticError(SemanticError::ExternWithValue));
            },
        };
        Ok(())
    }
}

} // verus!
