//! Builders that the grammar's actions call to put nodes of the tree together.

use vstd::prelude::*;
use crate::ast::expressions::BinaryExpr;
use crate::ast::expressions::Expression;
use crate::ast::expressions::UnaryExpr;
use crate::ast::statements::IfStatement;
use crate::ast::statements::Statement;
use crate::ast::statements::WhileLoopStatement;

verus! {

/// An `if` statement from its parts.
pub fn parse_if(condition: Expression, if_block: Statement, else_block: Option<Statement>) -> (r:
    Statement)
    ensures
        r == Statement::If(Box::new(IfStatement { condition, if_block, else_block })),
{
    Statement::If(Box::new(IfStatement { condition, if_block, else_block }))
}

/// A `while` statement from its parts.
pub fn parse_while(condition: Expression, body: Statement) -> (r: Statement)
    ensures
        r == Statement::WhileLoop(Box::new(WhileLoopStatement { condition, body })),
{
    Statement::WhileLoop(Box::new(WhileLoopStatement { condition, body }))
}

/// The operand of a unary expression, boxed for the tree.
pub fn parse_unary(expr: Expression) -> (r: Box<UnaryExpr>)
    ensures
        *r == (UnaryExpr { expr }),
{
    Box::new(UnaryExpr { expr })
}

/// The operands of a binary expression, boxed for the tree.
pub fn parse_binary(first: Expression, second: Expression) -> (r: Box<BinaryExpr>)
    ensures
        *r == (BinaryExpr { first, second }),
{
    Box::new(BinaryExpr { first, second })
}

} // verus!
