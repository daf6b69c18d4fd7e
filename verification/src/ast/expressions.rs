//! Expressions and the rules that give each one its type.

use vstd::prelude::*;
use crate::ast::context::Context;
use crate::ast::context::ContextView;
use crate::ast::types::FunctionTypeView;
use crate::ast::types::Type;
use crate::ast::types::TypeView;
use crate::error::CompilerError;
use crate::error::SemanticError;

verus! {

/// An expression of the language.
#[derive(Debug)]
pub enum Expression {
    /// `x = y`
    Assignment(Box<BinaryExpr>),
    /// `x ? y : z`
    Ternary(Box<TernaryExpr>),
    /// `x || y`
    LogicalOr(Box<BinaryExpr>),
    /// `x && y`
    LogicalAnd(Box<BinaryExpr>),
    /// `x | y`
    BitwiseOr(Box<BinaryExpr>),
    /// `x ^ y`
    BitwiseXor(Box<BinaryExpr>),
    /// `x & y`
    BitwiseAnd(Box<BinaryExpr>),
    /// `x == y`
    Equality(Box<BinaryExpr>),
    /// `x != y`
    Inequality(Box<BinaryExpr>),
    /// `x < y`
    LTCompare(Box<BinaryExpr>),
    /// `x > y`
    GTCompare(Box<BinaryExpr>),
    /// `x <= y`
    LECompare(Box<BinaryExpr>),
    /// `x >= y`
    GECompare(Box<BinaryExpr>),
    /// `x << y`
    ShiftLeft(Box<BinaryExpr>),
    /// `x >> y`
    ShiftRight(Box<BinaryExpr>),
    /// `x + y`
    Add(Box<BinaryExpr>),
    /// `x - y`
    Subtract(Box<BinaryExpr>),
    /// `x * y`
    Multiply(Box<BinaryExpr>),
    /// `x / y`
    Divide(Box<BinaryExpr>),
    /// `x % y`
    Modulo(Box<BinaryExpr>),
    /// `(int)x`
    Cast(Box<CastExpr>),
    /// `++x`
    PreInc(Box<UnaryExpr>),
    /// `--x`
    PreDec(Box<UnaryExpr>),
    /// `x++`
    PostInc(Box<UnaryExpr>),
    /// `x--`
    PostDec(Box<UnaryExpr>),
    /// `&x`
    AddressOf(Box<UnaryExpr>),
    /// `*x`
    Dereference(Box<UnaryExpr>),
    /// `-x`
    Negate(Box<UnaryExpr>),
    /// `~x`
    BitwiseNot(Box<UnaryExpr>),
    /// `!x`
    LogicalNot(Box<UnaryExpr>),
    /// `sizeof x`
    SizeOf(Box<UnaryExpr>),
    /// `x[y]`
    ArrayIndex(Box<BinaryExpr>),
    /// `x(...)`
    FuncCall(Box<FuncCallExpr>),
    /// `x`
    Identifier(String),
    /// `123`
    IntLiteral(u64),
    /// `'a'`
    CharLiteral(u8),
    /// `"hello world\n"`
    StringLiteral(String),
}

/// The parts of `condition ? true_expr : false_expr`.
#[derive(Debug)]
pub struct TernaryExpr {
    pub condition: Expression,
    pub true_expr: Expression,
    pub false_expr: Expression,
}

/// The two operands of a binary expression, in their order.
#[derive(Debug)]
pub struct BinaryExpr {
    pub first: Expression,
    pub second: Expression,
}

/// The operand of a unary expression.
#[derive(Debug)]
pub struct UnaryExpr {
    pub expr: Expression,
}

/// A cast: the type cast to and the operand.
#[derive(Debug)]
pub struct CastExpr {
    pub cast_to: Type,
    pub expr: Expression,
}

/// A call: the called expression and the arguments, in their order.
#[derive(Debug)]
pub struct FuncCallExpr {
    pub func: Expression,
    pub args: Vec<Expression>,
}

/// The failure with which the semantic check reports a broken rule.
pub open spec fn rejected<T>(rule: SemanticError) -> Result<T, CompilerError> {
    Err(CompilerError::SemanticError(rule))
}

/// What a check that yields a type has found, the type taken by its value.
pub open spec fn found(r: Result<Type, CompilerError>) -> Result<TypeView, CompilerError> {
    match r {
        Ok(t) => Ok(t@),
        Err(e) => Err(e),
    }
}

impl TernaryExpr {
    /// The type of `condition ? true_expr : false_expr`: the condition is an
    /// integer, the arms have one type, and that is the type of the whole.
    pub open spec fn checked_type(&self, ctx: ContextView) -> Result<TypeView, CompilerError>
        decreases self, 0nat,
    {
        match self.condition.checked_type(ctx) {
            Err(e) => Err(e),
            Ok(cond_t) => if !cond_t.is_integer() {
                rejected(SemanticError::TernaryConditionNotInteger)
            } else {
                match self.true_expr.checked_type(ctx) {
                    Err(e) => Err(e),
                    Ok(true_t) => match self.false_expr.checked_type(ctx) {
                        Err(e) => Err(e),
                        Ok(false_t) => if !true_t.same(false_t) {
                            rejected(SemanticError::TernaryArmsMismatch)
                        } else {
                            Ok(true_t)
                        },
                    },
                }
            },
        }
    }

    /// Checks the ternary and returns the type of its arms.
    pub fn verify(&self, context: &mut Context) -> (r: Result<Type, CompilerError>)
        ensures
            found(r) == self.checked_type(old(context)@),
            final(context)@ == old(context)@,
        decreases self, 0nat,
    {
        let cond_t = self.condition.verify(context)?;
        if !cond_t.is_integer() {
            return Err(CompilerError::SemanticError(SemanticError::TernaryConditionNotInteger));
        }
        let true_t = self.true_expr.verify(context)?;
        let false_t = self.false_expr.verify(context)?;
        if !true_t.same_as(&false_t) {
            return Err(CompilerError::SemanticError(SemanticError::TernaryArmsMismatch));
        }
        Ok(true_t)
    }
}

impl BinaryExpr {
    /// The type of a binary operation: both operands have one type, and that
    /// is the type of the whole.
    pub open spec fn checked_type(&self, ctx: ContextView) -> Result<TypeView, CompilerError>
        decreases self, 0nat,
    {
        match self.first.checked_type(ctx) {
            Err(e) => Err(e),
            Ok(first_t) => match self.second.checked_type(ctx) {
                Err(e) => Err(e),
                Ok(second_t) => if !first_t.same(second_t) {
                    rejected(SemanticError::BinaryTypeMismatch)
                } else {
                    Ok(first_t)
                },
            },
        }
    }

    /// The type of a shift: that of the shifted operand, where the amount is
    /// an integer.
    pub open spec fn shift_type(&self, ctx: ContextView) -> Result<TypeView, CompilerError>
        decreases self, 0nat,
    {
        match self.first.checked_type(ctx) {
            Err(e) => Err(e),
            Ok(val_t) => match self.second.checked_type(ctx) {
                Err(e) => Err(e),
                Ok(amt_t) => if !amt_t.is_integer() {
                    rejected(SemanticError::ShiftByNonInteger)
                } else {
                    Ok(val_t)
                },
            },
        }
    }

    /// The type of `first[second]`: the pointee's type, where `first` is a
    /// pointer and `second` an integer.
    pub open spec fn index_type(&self, ctx: ContextView) -> Result<TypeView, CompilerError>
        decreases self, 0nat,
    {
        match self.first.checked_type(ctx) {
            Err(e) => Err(e),
            Ok(TypeView::Pointer(inner)) => match self.second.checked_type(ctx) {
                Err(e) => Err(e),
                Ok(index_t) => if !index_t.is_integer() {
                    rejected(SemanticError::IndexNotInteger)
                } else {
                    Ok(*inner)
                },
            },
            Ok(_) => rejected(SemanticError::IndexNonPointer),
        }
    }

    /// Checks the operands of a binary operation and returns their common
    /// type.
    pub fn verify(&self, context: &mut Context) -> (r: Result<Type, CompilerError>)
        ensures
            found(r) == self.checked_type(old(context)@),
            final(context)@ == old(context)@,
        decreases self, 0nat,
    {
        let first_t = self.first.verify(context)?;
        let second_t = self.second.verify(context)?;
        if !first_t.same_as(&second_t) {
            return Err(CompilerError::SemanticError(SemanticError::BinaryTypeMismatch));
        }
        Ok(first_t)
    }
}

impl UnaryExpr {
    /// The type of the operand.
    pub open spec fn checked_type(&self, ctx: ContextView) -> Result<TypeView, CompilerError>
        decreases self, 0nat,
    {
        self.expr.checked_type(ctx)
    }

    /// Checks the operand and returns its type.
    pub fn verify(&self, context: &mut Context) -> (r: Result<Type, CompilerError>)
        ensures
            found(r) == self.checked_type(old(context)@),
            final(context)@ == old(context)@,
        decreases self, 0nat,
    {
        self.expr.verify(context)
    }
}

impl CastExpr {
    /// The type of a cast: the type cast to, where the operand has a type.
    pub open spec fn checked_type(&self, ctx: ContextView) -> Result<TypeView, CompilerError>
        decreases self, 0nat,
    {
        match self.expr.checked_type(ctx) {
            Err(e) => Err(e),
            Ok(_) => Ok(self.cast_to@),
        }
    }

    /// Checks the operand and returns the type cast to. Every cast of an
    /// operand that has a type is let through.
    pub fn verify(&self, context: &mut Context) -> (r: Result<Type, CompilerError>)
        ensures
            found(r) == self.checked_type(old(context)@),
            final(context)@ == old(context)@,
        decreases self, 0nat,
    {
        self.expr.verify(context)?;
        Ok(self.cast_to.clone())
    }
}

impl FuncCallExpr {
    /// The first failure among the arguments from position `from` on, each
    /// held against the parameter at its position. Arguments beyond the last
    /// parameter are not looked at, and missing arguments are not noticed.
    pub open spec fn args_failure(
        &self,
        params: Seq<(Seq<char>, TypeView)>,
        ctx: ContextView,
        from: int,
    ) -> Option<CompilerError>
        decreases self, self.args@.len() - from,
    {
        if from < 0 || from >= self.args@.len() || from >= params.len() {
            None
        } else {
            match self.args@[from].checked_type(ctx) {
                Err(e) => Some(e),
                Ok(t) => if !t.same(params[from].1) {
                    Some(CompilerError::SemanticError(SemanticError::IncorrectFunctionArgs))
                } else {
                    self.args_failure(params, ctx, from + 1)
                },
            }
        }
    }

    /// The type of a call: the callee's return type, where the callee is a
    /// function and the arguments fit its parameters.
    pub open spec fn checked_type(&self, ctx: ContextView) -> Result<TypeView, CompilerError>
        decreases self, self.args@.len() + 1,
    {
        match self.func.checked_type(ctx) {
            Err(e) => Err(e),
            Ok(TypeView::Function(f)) => match self.args_failure(f.args, ctx, 0) {
                Some(e) => Err(e),
                None => Ok(f.return_type),
            },
            Ok(_) => rejected(SemanticError::CallNonFunction),
        }
    }

    /// Checks the call and returns the callee's return type. Arguments are
    /// held against parameters position by position, as far as both reach.
    pub fn verify(&self, context: &mut Context) -> (r: Result<Type, CompilerError>)
        ensures
            found(r) == self.checked_type(old(context)@),
            final(context)@ == old(context)@,
        decreases self, self.args@.len() + 1,
    {
        let f_type = self.func.verify(context)?;
        if let Type::Function(f) = f_type {
            let mut i: usize = 0;
            while i < f.args.len() && i < self.args.len()
                invariant
                    context@ == old(context)@,
                    self.func.checked_type(old(context)@) == Ok::<TypeView, CompilerError>(
                        TypeView::Function(Box::new(f@)),
                    ),
                    self.args_failure(f@.args, old(context)@, 0) == self.args_failure(
                        f@.args,
                        old(context)@,
                        i as int,
                    ),
                decreases self.args.len() - i,
            {
                let t_actual = self.args[i].verify(context)?;
                assert(f@.args[i as int].1 == f.args@[i as int].1@);
                if !t_actual.same_as(&f.args[i].1) {
                    return Err(CompilerError::SemanticError(SemanticError::IncorrectFunctionArgs));
                }
                i += 1;
            }
            Ok(f.return_type)
        } else {
            Err(CompilerError::SemanticError(SemanticError::CallNonFunction))
        }
    }
}

/// Of a binary operator other than a shift, the operands are what matters:
/// where both have a type, the expression has that type if the two are equal,
/// and is rejected as a mismatch if they are not.
pub proof fn lemma_binary_operator_types(e: &Expression, ctx: ContextView)
    requires
        e.binary_operands() is Some,
    ensures
        ({
            let operands = e.binary_operands()->0;
            match (operands.first.checked_type(ctx), operands.second.checked_type(ctx)) {
                (Ok(first_t), Ok(second_t)) => if first_t.same(second_t) {
                    e.checked_type(ctx) == Ok::<TypeView, CompilerError>(first_t)
                } else {
                    e.checked_type(ctx) == rejected::<TypeView>(SemanticError::BinaryTypeMismatch)
                },
                (Err(error), _) => e.checked_type(ctx) == Err::<TypeView, CompilerError>(error),
                (Ok(_), Err(error)) => e.checked_type(ctx) == Err::<TypeView, CompilerError>(
                    error,
                ),
            }
        }),
{
    let operands = e.binary_operands()->0;
    assert(e.checked_type(ctx) == operands.checked_type(ctx));
}

/// Of a ternary whose condition is an integer and whose arms both have a
/// type: it has the arms' type if the two are equal, and is rejected if they
/// are not.
pub proof fn lemma_ternary_arms(x: &TernaryExpr, ctx: ContextView)
    requires
        x.condition.checked_type(ctx) matches Ok(t) && t.is_integer(),
        x.true_expr.checked_type(ctx) is Ok,
        x.false_expr.checked_type(ctx) is Ok,
    ensures
        ({
            let true_t = x.true_expr.checked_type(ctx)->Ok_0;
            let false_t = x.false_expr.checked_type(ctx)->Ok_0;
            if true_t.same(false_t) {
                x.checked_type(ctx) == Ok::<TypeView, CompilerError>(true_t)
            } else {
                x.checked_type(ctx) == rejected::<TypeView>(SemanticError::TernaryArmsMismatch)
            }
        }),
        Expression::Ternary(Box::new(*x)).checked_type(ctx) == x.checked_type(ctx),
{
}

/// Checks a shift: the amount must be an integer, and the result has the type
/// of the shifted operand.
pub fn verify_bitshift(expr: &BinaryExpr, context: &mut Context) -> (r: Result<
    Type,
    CompilerError,
>)
    ensures
        found(r) == expr.shift_type(old(context)@),
        final(context)@ == old(context)@,
    decreases expr, 0nat,
{
    let val_t = expr.first.verify(context)?;
    let amt_t = expr.second.verify(context)?;
    if !amt_t.is_integer() {
        return Err(CompilerError::SemanticError(SemanticError::ShiftByNonInteger));
    }
    Ok(val_t)
}

/// Checks an array access: the indexed operand must be a pointer and the
/// index an integer, and the result has the pointee's type.
pub fn verify_index(expr: &BinaryExpr, context: &mut Context) -> (r: Result<Type, CompilerError>)
    ensures
        found(r) == expr.index_type(old(context)@),
        final(context)@ == old(context)@,
    decreases expr, 0nat,
{
    let array_t = expr.first.verify(context)?;
    if let Type::Pointer(inner) = array_t {
        let index_t = expr.second.verify(context)?;
        if !index_t.is_integer() {
            return Err(CompilerError::SemanticError(SemanticError::IndexNotInteger));
        }
        return Ok(*inner);
    }
    Err(CompilerError::SemanticError(SemanticError::IndexNonPointer))
}

impl Expression {
    /// Whether the expression names a place in storage: an identifier, a
    /// dereference or an array element.
    pub open spec fn lvalue(&self) -> bool {
        self is Identifier || self is Dereference || self is ArrayIndex
    }

    /// The two operands, where the expression is built from a binary
    /// operator other than a shift; an assignment counts where its target is
    /// an lvalue.
    pub open spec fn binary_operands(&self) -> Option<BinaryExpr> {
        match self {
            Expression::Assignment(x) => if x.first.lvalue() {
                Some(**x)
            } else {
                None
            },
            Expression::LogicalOr(x) => Some(**x),
            Expression::LogicalAnd(x) => Some(**x),
            Expression::BitwiseOr(x) => Some(**x),
            Expression::BitwiseXor(x) => Some(**x),
            Expression::BitwiseAnd(x) => Some(**x),
            Expression::Equality(x) => Some(**x),
            Expression::Inequality(x) => Some(**x),
            Expression::LTCompare(x) => Some(**x),
            Expression::GTCompare(x) => Some(**x),
            Expression::LECompare(x) => Some(**x),
            Expression::GECompare(x) => Some(**x),
            Expression::Add(x) => Some(**x),
            Expression::Subtract(x) => Some(**x),
            Expression::Multiply(x) => Some(**x),
            Expression::Divide(x) => Some(**x),
            Expression::Modulo(x) => Some(**x),
            _ => None,
        }
    }

    /// Whether the expression names a place in storage, and so may be
    /// assigned to or have its address taken.
    pub fn is_lvalue(&self) -> (r: bool)
        ensures
            r == self.lvalue(),
    {
        match self {
            Expression::Identifier(_) | Expression::Dereference(_) | Expression::ArrayIndex(_) => true,
            _ => false,
        }
    }

    /// The type that the rules of the language give the expression in a
    /// chain of scopes, or the first rule that it breaks. Operands are looked
    /// at from left to right.
    pub open spec fn checked_type(&self, ctx: ContextView) -> Result<TypeView, CompilerError>
        decreases self, 0nat,
    {
        match self {
            Expression::Assignment(x) => if !x.first.lvalue() {
                rejected(SemanticError::AssignToNonLvalue)
            } else {
                x.checked_type(ctx)
            },
            Expression::Ternary(x) => x.checked_type(ctx),
            Expression::LogicalOr(x) => x.checked_type(ctx),
            Expression::LogicalAnd(x) => x.checked_type(ctx),
            Expression::BitwiseOr(x) => x.checked_type(ctx),
            Expression::BitwiseXor(x) => x.checked_type(ctx),
            Expression::BitwiseAnd(x) => x.checked_type(ctx),
            Expression::Equality(x) => x.checked_type(ctx),
            Expression::Inequality(x) => x.checked_type(ctx),
            Expression::LTCompare(x) => x.checked_type(ctx),
            Expression::GTCompare(x) => x.checked_type(ctx),
            Expression::LECompare(x) => x.checked_type(ctx),
            Expression::GECompare(x) => x.checked_type(ctx),
            Expression::ShiftLeft(x) => x.shift_type(ctx),
            Expression::ShiftRight(x) => x.shift_type(ctx),
            Expression::Add(x) => x.checked_type(ctx),
            Expression::Subtract(x) => x.checked_type(ctx),
            Expression::Multiply(x) => x.checked_type(ctx),
            Expression::Divide(x) => x.checked_type(ctx),
            Expression::Modulo(x) => x.checked_type(ctx),
            Expression::Cast(x) => x.checked_type(ctx),
            Expression::PreInc(x) => x.checked_type(ctx),
            Expression::PreDec(x) => x.checked_type(ctx),
            Expression::PostInc(x) => x.checked_type(ctx),
            Expression::PostDec(x) => x.checked_type(ctx),
            Expression::AddressOf(x) => if !x.expr.lvalue() {
                rejected(SemanticError::AddressOfNonLvalue)
            } else {
                match x.checked_type(ctx) {
                    Err(e) => Err(e),
                    Ok(t) => Ok(TypeView::Pointer(Box::new(t))),
                }
            },
            Expression::Dereference(x) => match x.expr.checked_type(ctx) {
                Err(e) => Err(e),
                Ok(TypeView::Pointer(inner)) => Ok(*inner),
                Ok(_) => rejected(SemanticError::DereferenceNonPointer),
            },
            Expression::Negate(x) => match x.expr.checked_type(ctx) {
                Err(e) => Err(e),
                Ok(t) => if !t.is_integer() {
                    rejected(SemanticError::NegateNonInteger)
                } else {
                    Ok(t)
                },
            },
            Expression::BitwiseNot(x) => x.checked_type(ctx),
            Expression::LogicalNot(x) => x.checked_type(ctx),
            Expression::SizeOf(x) => match x.checked_type(ctx) {
                Err(e) => Err(e),
                Ok(_) => Ok(TypeView::Uint64),
            },
            Expression::ArrayIndex(x) => x.index_type(ctx),
            Expression::FuncCall(x) => x.checked_type(ctx),
            Expression::Identifier(name) => match ctx.lookup(name@) {
                Some(t) => Ok(t),
                None => rejected(SemanticError::UndefinedSymbol),
            },
            Expression::IntLiteral(_) => Ok(TypeView::Int32),
            Expression::CharLiteral(_) => Ok(TypeView::Uint8),
            Expression::StringLiteral(_) => Ok(TypeView::Pointer(Box::new(TypeView::Uint8))),
        }
    }

    /// Checks the expression and returns its type. A literal's type is fixed:
    /// it does not follow from where the literal stands.
    pub fn verify(&self, context: &mut Context) -> (r: Result<Type, CompilerError>)
        ensures
            found(r) == self.checked_type(old(context)@),
            final(context)@ == old(context)@,
        decreases self, 0nat,
    {
        match self {
            Expression::Assignment(x) => {
                if !x.first.is_lvalue() {
                    return Err(CompilerError::SemanticError(SemanticError::AssignToNonLvalue));
                }
                x.verify(context)
            },
            Expression::Ternary(x) => x.verify(context),
            Expression::LogicalOr(x) => x.verify(context),
            Expression::LogicalAnd(x) => x.verify(context),
            Expression::BitwiseOr(x) => x.verify(context),
            Expression::BitwiseXor(x) => x.verify(context),
            Expression::BitwiseAnd(x) => x.verify(context),
            Expression::Equality(x) => x.verify(context),
            Expression::Inequality(x) => x.verify(context),
            Expression::LTCompare(x) => x.verify(context),
            Expression::GTCompare(x) => x.verify(context),
            Expression::LECompare(x) => x.verify(context),
            Expression::GECompare(x) => x.verify(context),
            Expression::ShiftLeft(x) => verify_bitshift(x, context),
            Expression::ShiftRight(x) => verify_bitshift(x, context),
            Expression::Add(x) => x.verify(context),
            Expression::Subtract(x) => x.verify(context),
            Expression::Multiply(x) => x.verify(context),
            Expression::Divide(x) => x.verify(context),
            Expression::Modulo(x) => x.verify(context),
            Expression::Cast(x) => x.verify(context),
            Expression::PreInc(x) => x.verify(context),
            Expression::PreDec(x) => x.verify(context),
            Expression::PostInc(x) => x.verify(context),
            Expression::PostDec(x) => x.verify(context),
            Expression::AddressOf(x) => {
                if !x.expr.is_lvalue() {
                    return Err(CompilerError::SemanticError(SemanticError::AddressOfNonLvalue));
                }
                let t = x.verify(context)?;
                Ok(Type::Pointer(Box::new(t)))
            },
            Expression::Dereference(x) => {
                let t = x.expr.verify(context)?;
                if let Type::Pointer(inner_t) = t {
                    Ok(*inner_t)
                } else {
                    Err(CompilerError::SemanticError(SemanticError::DereferenceNonPointer))
                }
            },
            Expression::Negate(x) => {
                let t = x.expr.verify(context)?;
                if !t.is_integer() {
                    return Err(CompilerError::SemanticError(SemanticError::NegateNonInteger));
                }
                Ok(t)
            },
            Expression::BitwiseNot(x) => x.verify(context),
            Expression::LogicalNot(x) => x.verify(context),
            Expression::SizeOf(x) => {
                x.verify(context)?;
                Ok(Type::Uint64)
            },
            Expression::ArrayIndex(x) => verify_index(x, context),
            Expression::FuncCall(x) => x.verify(context),
            Expression::Identifier(x) => match context.get_type(x.as_str()) {
                Some(t) => Ok(t.clone()),
                None => Err(CompilerError::SemanticError(SemanticError::UndefinedSymbol)),
            },
            Expression::IntLiteral(_) => Ok(Type::Int32),
            Expression::CharLiteral(_) => Ok(Type::Uint8),
            Expression::StringLiteral(_) => {
                let element = Type::Uint8;
                assert(element@ == TypeView::Uint8);
                Ok(Type::Pointer(Box::new(element)))
            },
        }
    }
}

} // verus!
