//! What lowering leaves as it found it. Whatever an expression lends on its
//! way, it returns, on every way out; a statement leaves the loans and the
//! depth of the scopes as they were; and what is kept for the function that
//! is being generated is cleared where the function ends.

use vstd::prelude::*;
use crate::ast::declaration::Declaration;
use crate::ast::declaration::DeclarationValue;
use crate::ast::expressions::BinaryExpr;
use crate::ast::expressions::CastExpr;
use crate::ast::expressions::Expression;
use crate::ast::expressions::FuncCallExpr;
use crate::ast::expressions::TernaryExpr;
use crate::ast::expressions::UnaryExpr;
use crate::ast::statements::IfStatement;
use crate::ast::statements::Statement;
use crate::ast::statements::WhileLoopStatement;
use crate::ast::types::FunctionTypeView;
use crate::ast::types::TypeView;
use crate::codegen::error::CodegenError;
use crate::codegen::x86_64::expression::ArithOp;
use crate::codegen::x86_64::expression::ComparisonType;
use crate::codegen::x86_64::expression::Lowered;
use crate::codegen::x86_64::expression::UnaryOp;
use crate::codegen::x86_64::expression::sized;
use crate::codegen::x86_64::declaration::literal_data;
use crate::codegen::x86_64::helpers::byte_size;
use crate::codegen::x86_64::helpers::register_size;
use crate::codegen::x86_64::instance::lemma_lease;
use crate::codegen::x86_64::instance::GeneratorView;
use crate::codegen::x86_64::instance::Scratch;
use crate::codegen::x86_64::instructions::InstrView;
use crate::codegen::x86_64::registers::arg_register_at;
use crate::codegen::x86_64::registers::Register;
use crate::codegen::x86_64::registers::RegisterSize;
use crate::codegen::x86_64::registers::NUM_ARG_REGS;
use crate::codegen::x86_64::statement::Emitted;
use crate::text::decimal;

verus! {

/// Between `before` and `after` exactly one loan was added: that of a
/// scratch register that was free.
pub open spec fn lends(before: GeneratorView, after: GeneratorView, s: Scratch) -> bool {
    &&& s.reg.reg.scratch()
    &&& !before.taken[s.reg.reg.index()]
    &&& after.taken == before.taken.update(s.reg.reg.index(), true)
}

/// A lowering that started in `before` kept the discipline: where it yields
/// a loan, that loan is the only one added; where it fails, the loans are
/// what they were.
pub open spec fn kept(before: GeneratorView, out: Lowered) -> bool {
    &&& out.0.wf()
    &&& match out.1 {
        Ok(s) => lends(before, out.0, s),
        Err(_) => out.0.taken == before.taken,
    }
}

/// A lowering that started in `before` and does not yet set the loans back
/// on failure: where it yields a loan, that loan is the only one added.
pub open spec fn kept_on_success(before: GeneratorView, out: Lowered) -> bool {
    &&& out.0.wf()
    &&& out.1 matches Ok(s) ==> lends(before, out.0, s)
}

/// Lowering an expression keeps the discipline of loans: on success the
/// register that holds the value is on loan and nothing else has changed
/// among the loans; on failure every register lent on the way is free again.
pub proof fn lemma_expr_returns_its_loans(m: GeneratorView, e: &Expression)
    requires
        m.wf(),
    ensures
        kept(m, m.lower_expr(e)),
    decreases e, 1nat,
{
    lemma_raw(m, e);
}

/// Lowering an expression for its value keeps the discipline of loans, and
/// the loan that it yields is of a width that a register has.
pub proof fn lemma_value_returns_its_loans(m: GeneratorView, e: &Expression)
    requires
        m.wf(),
    ensures
        kept(m, m.lower_value(e)),
        m.lower_value(e).1 matches Ok(s) ==> !(s.reg.size is Void),
    decreases e, 2nat,
{
    lemma_expr_returns_its_loans(m, e);
    let (m1, r1) = m.lower_expr(e);
    if r1 is Ok && r1->Ok_0.reg.size is Void {
        assert(m1.release(r1->Ok_0.reg.reg).taken =~= m.taken);
    }
}

/// After the operands of a binary expression, two loans are added.
proof fn lemma_operands(m: GeneratorView, x: &BinaryExpr)
    requires
        m.wf(),
    ensures
        m.lower_operands(x).0.wf(),
        m.lower_operands(x).1 matches Ok(pair) ==> {
            &&& lends(m, m.lower_value(&x.first).0, pair.0)
            &&& lends(m.lower_value(&x.first).0, m.lower_operands(x).0, pair.1)
            &&& pair.0.reg.reg != pair.1.reg.reg
        },
    decreases x, 0nat,
{
    lemma_value_returns_its_loans(m, &x.first);
    let (m1, r1) = m.lower_value(&x.first);
    if r1 is Ok {
        lemma_value_returns_its_loans(m1, &x.second);
    }
}

/// With the second operand returned, the first operand's loan is the only
/// one added.
proof fn lemma_second_returned(m: GeneratorView, x: &BinaryExpr, after: GeneratorView)
    requires
        m.wf(),
        m.lower_operands(x).1 is Ok,
        after.taken == m.lower_operands(x).0.taken.update(
            m.lower_operands(x).1->Ok_0.1.reg.reg.index(),
            false,
        ),
    ensures
        lends(m, after, m.lower_operands(x).1->Ok_0.0),
    decreases x, 1nat,
{
    lemma_operands(m, x);
    let pair = m.lower_operands(x).1->Ok_0;
    assert(after.taken =~= m.taken.update(pair.0.reg.reg.index(), true));
}

/// With both operands returned after a third loan, that loan is the only
/// one added.
proof fn lemma_both_returned(m: GeneratorView, x: &BinaryExpr, result: Scratch, after: GeneratorView)
    requires
        m.wf(),
        m.lower_operands(x).1 is Ok,
        m.lower_operands(x).0.lease(result.reg.size).1 == Ok::<Scratch, CodegenError>(result),
        after.taken == m.lower_operands(x).0.lease(result.reg.size).0.taken.update(
            m.lower_operands(x).1->Ok_0.1.reg.reg.index(),
            false,
        ).update(m.lower_operands(x).1->Ok_0.0.reg.reg.index(), false),
    ensures
        lends(m, after, result),
    decreases x, 1nat,
{
    lemma_operands(m, x);
    lemma_lease(m.lower_operands(x).0, result.reg.size);
    assert(after.taken =~= m.taken.update(result.reg.reg.index(), true));
}

proof fn lemma_arith(m: GeneratorView, x: &BinaryExpr, op: ArithOp)
    requires
        m.wf(),
    ensures
        kept_on_success(m, m.lower_arith(x, op)),
    decreases x, 2nat,
{
    lemma_operands(m, x);
    if m.lower_operands(x).1 is Ok {
        lemma_second_returned(m, x, m.lower_arith(x, op).0);
    }
}

proof fn lemma_division(m: GeneratorView, x: &BinaryExpr, remainder: bool)
    requires
        m.wf(),
    ensures
        kept_on_success(m, m.lower_division(x, remainder)),
    decreases x, 2nat,
{
    lemma_operands(m, x);
    if m.lower_operands(x).1 is Ok {
        lemma_second_returned(m, x, m.lower_division(x, remainder).0);
    }
}

proof fn lemma_comparison(m: GeneratorView, x: &BinaryExpr, cmp: ComparisonType)
    requires
        m.wf(),
    ensures
        kept_on_success(m, m.lower_comparison(x, cmp)),
    decreases x, 2nat,
{
    lemma_operands(m, x);
    let (m1, r1) = m.lower_operands(x);
    if r1 is Ok {
        lemma_lease(m1, RegisterSize::Byte);
        let (m2, r2) = m1.lease(RegisterSize::Byte);
        if m.lower_comparison(x, cmp).1 is Ok {
            lemma_both_returned(m, x, r2->Ok_0, m.lower_comparison(x, cmp).0);
        }
    }
}

proof fn lemma_logical(m: GeneratorView, x: &BinaryExpr, is_or: bool)
    requires
        m.wf(),
    ensures
        kept_on_success(m, m.lower_logical(x, is_or)),
    decreases x, 2nat,
{
    lemma_value_returns_its_loans(m, &x.first);
    let (m1, r1) = m.lower_value(&x.first);
    if r1 is Ok {
        let a = r1->Ok_0;
        let (m2, r2) = m1.fresh_label();
        if r2 is Ok {
            let (m3, r3) = m2.fresh_label();
            if r3 is Ok {
                let (m4, r4) = m3.fresh_label();
                if r4 is Ok {
                    let first_jump = if is_or {
                        InstrView::Jne(r2->Ok_0)
                    } else {
                        InstrView::Je(r3->Ok_0)
                    };
                    let head = m4.emit(InstrView::Cmp(a.reg.text(), "0"@)).emit(first_jump);
                    assert(head.taken == m1.taken);
                    lemma_value_returns_its_loans(head, &x.second);
                    let (m5, r5) = head.lower_value(&x.second);
                    if r5 is Ok {
                        let b = r5->Ok_0;
                        let tested = m5.emit(InstrView::Cmp(b.reg.text(), "0"@)).emit(
                            InstrView::Je(r3->Ok_0),
                        );
                        lemma_lease(tested, RegisterSize::Byte);
                        let (m6, r6) = tested.lease(RegisterSize::Byte);
                        if r6 is Ok {
                            assert(m.lower_logical(x, is_or).0.taken =~= m.taken.update(
                                r6->Ok_0.reg.reg.index(),
                                true,
                            ));
                        }
                    }
                }
            }
        }
    }
}

proof fn lemma_assignment(m: GeneratorView, x: &BinaryExpr)
    requires
        m.wf(),
    ensures
        kept_on_success(m, m.lower_assignment(x)),
    decreases x, 2nat,
{
    lemma_value_returns_its_loans(m, &x.second);
}

proof fn lemma_ternary(m: GeneratorView, x: &TernaryExpr)
    requires
        m.wf(),
    ensures
        kept_on_success(m, m.lower_ternary(x)),
    decreases x, 0nat,
{
    lemma_value_returns_its_loans(m, &x.condition);
    let (m1, r1) = m.lower_value(&x.condition);
    if r1 is Ok {
        let condition = r1->Ok_0;
        let (m2, r2) = m1.fresh_label();
        if r2 is Ok {
            let (m3, r3) = m2.fresh_label();
            if r3 is Ok {
                let head = m3.emit(InstrView::Cmp(condition.reg.text(), "0"@)).emit(
                    InstrView::Je(r2->Ok_0),
                );
                assert(head.taken == m1.taken);
                lemma_value_returns_its_loans(head, &x.true_expr);
                let (m4, r4) = head.lower_value(&x.true_expr);
                if r4 is Ok {
                    let if_t = r4->Ok_0;
                    lemma_lease(m4, if_t.reg.size);
                    let (m5, r5) = m4.lease(if_t.reg.size);
                    if r5 is Ok {
                        let result = r5->Ok_0;
                        let middle = m5.emit(
                            InstrView::Mov(result.reg.text(), if_t.reg.text()),
                        ).emit(InstrView::Jmp(r3->Ok_0)).place_label(r2->Ok_0);
                        assert(middle.taken == m5.taken);
                        lemma_value_returns_its_loans(middle, &x.false_expr);
                        let (m6, r6) = middle.lower_value(&x.false_expr);
                        if r6 is Ok {
                            assert(m.lower_ternary(x).0.taken =~= m.taken.update(
                                result.reg.reg.index(),
                                true,
                            ));
                        }
                    }
                }
            }
        }
    }
}

proof fn lemma_cast(m: GeneratorView, x: &CastExpr)
    requires
        m.wf(),
    ensures
        kept_on_success(m, m.lower_cast(x)),
    decreases x, 0nat,
{
    lemma_value_returns_its_loans(m, &x.expr);
}

proof fn lemma_address_of(m: GeneratorView, x: &UnaryExpr)
    requires
        m.wf(),
    ensures
        kept_on_success(m, m.lower_address_of(x)),
{
    lemma_lease(m, RegisterSize::QWord);
}

proof fn lemma_dereference(m: GeneratorView, x: &UnaryExpr)
    requires
        m.wf(),
    ensures
        kept_on_success(m, m.lower_dereference(x)),
    decreases x, 0nat,
{
    lemma_value_returns_its_loans(m, &x.expr);
}

proof fn lemma_unary(m: GeneratorView, x: &UnaryExpr, op: UnaryOp)
    requires
        m.wf(),
    ensures
        kept_on_success(m, m.lower_unary(x, op)),
    decreases x, 0nat,
{
    lemma_value_returns_its_loans(m, &x.expr);
}

proof fn lemma_logical_not(m: GeneratorView, x: &UnaryExpr)
    requires
        m.wf(),
    ensures
        kept_on_success(m, m.lower_logical_not(x)),
    decreases x, 0nat,
{
    lemma_value_returns_its_loans(m, &x.expr);
}

/// The arguments that go into registers leave no loan behind.
proof fn lemma_reg_args(m: GeneratorView, x: &FuncCallExpr, i: int, pushed: Seq<Register>)
    requires
        m.wf(),
    ensures
        m.lower_reg_args(x, i, pushed).0.wf(),
        m.lower_reg_args(x, i, pushed).1 is Ok ==> m.lower_reg_args(x, i, pushed).0.taken
            == m.taken,
    decreases x, NUM_ARG_REGS - i,
{
    if !(i < 0 || i >= NUM_ARG_REGS || i >= x.args@.len()) {
        lemma_value_returns_its_loans(m, &x.args@[i]);
        let (m1, r1) = m.lower_value(&x.args@[i]);
        if r1 is Ok {
            let value = r1->Ok_0.reg;
            let dest = arg_register_at(i);
            let m2 = if m1.arg_regs[dest.index()] {
                m1.push(sized(dest, RegisterSize::QWord))
            } else {
                m1
            };
            let now_pushed = if m1.arg_regs[dest.index()] {
                pushed.push(dest)
            } else {
                pushed
            };
            let m3 = m2.emit(InstrView::Mov(sized(dest, value.size), value.text())).release(
                value.reg,
            );
            assert(m3.wf());
            assert(m3.taken =~= m.taken);
            lemma_reg_args(m3, x, i + 1, now_pushed);
        }
    }
}

/// The arguments that go onto the stack leave no loan behind.
proof fn lemma_stack_args(m: GeneratorView, x: &FuncCallExpr, i: int)
    requires
        m.wf(),
    ensures
        m.lower_stack_args(x, i).0.wf(),
        m.lower_stack_args(x, i).1 is Ok ==> m.lower_stack_args(x, i).0.taken == m.taken,
    decreases x, i,
{
    if !(i <= NUM_ARG_REGS || i > x.args@.len()) {
        lemma_value_returns_its_loans(m, &x.args@[i - 1]);
        let (m1, r1) = m.lower_value(&x.args@[i - 1]);
        if r1 is Ok {
            let value = r1->Ok_0.reg;
            let m2 = m1.push(sized(value.reg, RegisterSize::QWord)).release(
                value.reg,
            );
            assert(m2.wf());
            assert(m2.taken =~= m.taken);
            lemma_stack_args(m2, x, i - 1);
        }
    }
}

/// Popping saved registers touches no loan.
proof fn lemma_pops(m: GeneratorView, pushed: Seq<Register>, k: int)
    requires
        m.wf(),
    ensures
        m.emit_pops(pushed, k).wf(),
        m.emit_pops(pushed, k).taken == m.taken,
    decreases k,
{
    if !(k <= 0 || k > pushed.len()) {
        lemma_pops(
            m.pop(sized(pushed[k - 1], RegisterSize::QWord)),
            pushed,
            k - 1,
        );
    }
}

proof fn lemma_finish_call(
    m: GeneratorView,
    callee: Seq<char>,
    return_type: TypeView,
    count: nat,
    pushed: Seq<Register>,
)
    requires
        m.wf(),
    ensures
        kept_on_success(m, m.finish_call(callee, return_type, count, pushed)),
{
    let m1 = m.emit(InstrView::Call(callee));
    let m2 = if count > NUM_ARG_REGS {
        m1.free_stack(((count - NUM_ARG_REGS) * 8) as nat)
    } else {
        m1
    };
    lemma_pops(m2, pushed, pushed.len() as int);
    let m3 = m2.emit_pops(pushed, pushed.len() as int);
    match register_size(return_type) {
        Err(_) => {},
        Ok(size) => {
            lemma_lease(m3, size);
        },
    }
}

proof fn lemma_call(m: GeneratorView, x: &FuncCallExpr)
    requires
        m.wf(),
    ensures
        kept_on_success(m, m.lower_call(x)),
    decreases x, x.args@.len() + NUM_ARG_REGS + 1,
{
    lemma_reg_args(m, x, 0, Seq::empty());
    let (m1, r1) = m.lower_reg_args(x, 0, Seq::empty());
    if r1 is Ok {
        lemma_stack_args(m1, x, x.args@.len() as int);
        let (m2, r2) = m1.lower_stack_args(x, x.args@.len() as int);
        if r2 is Ok {
            match x.func {
                Expression::Identifier(name) => match m.lookup(name@) {
                    Some(var) => match var.type_of {
                        TypeView::Function(f) => {
                            lemma_finish_call(
                                m2,
                                var.asm_rep,
                                f.return_type,
                                x.args@.len(),
                                r1->Ok_0,
                            );
                        },
                        _ => {},
                    },
                    None => {},
                },
                _ => {},
            }
        }
    }
}

proof fn lemma_raw(m: GeneratorView, e: &Expression)
    requires
        m.wf(),
    ensures
        kept_on_success(m, m.lower_raw(e)),
    decreases e, 0nat,
{
    match e {
        Expression::Assignment(x) => lemma_assignment(m, x),
        Expression::Ternary(x) => lemma_ternary(m, x),
        Expression::LogicalOr(x) => lemma_logical(m, x, true),
        Expression::LogicalAnd(x) => lemma_logical(m, x, false),
        Expression::BitwiseOr(x) => lemma_arith(m, x, ArithOp::Or),
        Expression::BitwiseXor(x) => lemma_arith(m, x, ArithOp::Xor),
        Expression::BitwiseAnd(x) => lemma_arith(m, x, ArithOp::And),
        Expression::Equality(x) => lemma_comparison(m, x, ComparisonType::Eq),
        Expression::Inequality(x) => lemma_comparison(m, x, ComparisonType::Ne),
        Expression::LTCompare(x) => lemma_comparison(m, x, ComparisonType::Lt),
        Expression::GTCompare(x) => lemma_comparison(m, x, ComparisonType::Gt),
        Expression::LECompare(x) => lemma_comparison(m, x, ComparisonType::Le),
        Expression::GECompare(x) => lemma_comparison(m, x, ComparisonType::Ge),
        Expression::Add(x) => lemma_arith(m, x, ArithOp::Add),
        Expression::Subtract(x) => lemma_arith(m, x, ArithOp::Sub),
        Expression::Multiply(x) => lemma_arith(m, x, ArithOp::Mul),
        Expression::Divide(x) => lemma_division(m, x, false),
        Expression::Modulo(x) => lemma_division(m, x, true),
        Expression::Cast(x) => lemma_cast(m, x),
        Expression::AddressOf(x) => lemma_address_of(m, x),
        Expression::Dereference(x) => lemma_dereference(m, x),
        Expression::Negate(x) => lemma_unary(m, x, UnaryOp::Neg),
        Expression::BitwiseNot(x) => lemma_unary(m, x, UnaryOp::Not),
        Expression::LogicalNot(x) => lemma_logical_not(m, x),
        Expression::FuncCall(x) => lemma_call(m, x),
        Expression::Identifier(name) => {
            match m.lookup(name@) {
                Some(var) => match register_size(var.type_of) {
                    Ok(size) => lemma_lease(m, size),
                    Err(_) => {},
                },
                None => {},
            }
        },
        Expression::IntLiteral(_) => lemma_lease(m, RegisterSize::DWord),
        Expression::CharLiteral(_) => lemma_lease(m, RegisterSize::Byte),
        _ => {},
    }
}

/// Between `before` and `after` labels were only added to those written, and
/// each label written since is one that was handed out since.
pub open spec fn wrote_fresh_labels(before: GeneratorView, after: GeneratorView) -> bool {
    &&& before.label_counter <= after.label_counter
    &&& before.labels.len() <= after.labels.len()
    &&& forall|i: int| 0 <= i < before.labels.len() ==> after.labels[i] == before.labels[i]
    &&& forall|i: int|
        before.labels.len() <= i < after.labels.len() ==> before.label_counter <= (
        #[trigger] after.labels[i]) < after.label_counter
}

/// Between `before` and `after` unconditional jumps were only added to those
/// written, and each one written since goes to a label that was handed out
/// since.
pub open spec fn jumped_to_fresh_labels(before: GeneratorView, after: GeneratorView) -> bool {
    &&& before.jumps.len() <= after.jumps.len()
    &&& forall|i: int| 0 <= i < before.jumps.len() ==> after.jumps[i] == before.jumps[i]
    &&& forall|i: int|
        before.jumps.len() <= i < after.jumps.len() ==> before.label_counter <= (
        #[trigger] after.jumps[i]) < after.label_counter
}

/// A lowering that started in `before` has left things as they were: the
/// loans are the same and as many scopes are open. What is kept for the
/// function that is being generated is either untouched or cleared.
pub open spec fn settled(before: GeneratorView, out: Emitted) -> bool {
    &&& out.0.wf()
    &&& wrote_fresh_labels(before, out.0)
    &&& out.0.taken == before.taken
    &&& out.0.scopes.len() == before.scopes.len()
    &&& {
        ||| out.0.return_label == before.return_label && out.0.return_size
            == before.return_size && out.0.arg_regs == before.arg_regs
        ||| out.0.return_label is None && out.0.return_size is Void && out.0.arg_regs
            == before.clear_args().arg_regs
    }
}

/// Between two declarations at file scope: no function is being generated,
/// so there is no return label and no register holds a parameter.
pub open spec fn between_functions(m: GeneratorView) -> bool {
    &&& m.wf()
    &&& m.at_file_scope()
    &&& m.return_label is None
    &&& m.return_size is Void
    &&& m.arg_regs == m.clear_args().arg_regs
}

/// Lowering a statement leaves the loans and the depth of the scopes as they
/// were, whether it goes through or fails. A block in particular is left at
/// its end on every way out, and the count of bytes given to locals is then
/// what it was before the block.
pub proof fn lemma_statement_settles(m: GeneratorView, stmt: &Statement)
    requires
        m.wf(),
    ensures
        settled(m, m.lower_stmt(stmt)),
        stmt is Compound ==> m.lower_stmt(stmt).0.rdp_offset == m.rdp_offset,
    decreases stmt, 0nat,
{
    match stmt {
        Statement::Compound(stmts) => lemma_compound(m, stmts@),
        Statement::Declaration(decl) => lemma_declaration_settles(m, decl),
        Statement::Expression(expr) => lemma_discarded(m, expr),
        Statement::If(x) => lemma_if(m, x),
        Statement::WhileLoop(x) => lemma_while(m, x),
        Statement::Return(value) => lemma_return(m, value),
    }
}

/// Lowering a declaration leaves the loans and the depth of the scopes as
/// they were, whether it goes through or fails. Where it is a function with
/// its body, the scope of the body is left, the count of bytes given to
/// locals is what it was, and the return label and the note of the registers
/// that hold parameters are cleared, on every way out.
pub proof fn lemma_declaration_settles(m: GeneratorView, decl: &Declaration)
    requires
        m.wf(),
    ensures
        settled(m, m.lower_decl(decl)),
        between_functions(m) ==> between_functions(m.lower_decl(decl).0),
        decl.value matches Some(DeclarationValue::Function(_)) ==> m.lower_decl(decl).0.rdp_offset
            == m.rdp_offset,
    decreases decl, 0nat,
{
    match decl.value {
        None => {},
        Some(DeclarationValue::Function(stmts)) => {
            if m.at_file_scope() {
                match decl.type_of@ {
                    TypeView::Function(f) => lemma_function(m, decl.name@, *f, stmts@),
                    _ => {},
                }
            }
        },
        Some(DeclarationValue::Variable(e)) => {
            if !m.at_file_scope() {
                lemma_local_value(m, decl.name@, decl.type_of@, &e);
            }
        },
    }
}

/// Where a global variable is kept: one with a literal for its value gets
/// an entry in the data section that holds the literal, and none in the bss
/// section; one without a value gets an entry in the bss section of the size
/// of its type, and none in the data section. A function without a body and
/// an external name get neither.
pub proof fn lemma_global_storage(m: GeneratorView, decl: &Declaration)
    requires
        m.wf(),
        m.at_file_scope(),
        !(decl.value matches Some(DeclarationValue::Function(_))),
        m.lower_decl(decl).1 is Ok,
    ensures
        ({
            let after = m.lower_decl(decl).0;
            match decl.value {
                Some(DeclarationValue::Variable(e)) => {
                    &&& literal_data(&e) is Some
                    &&& after.data == m.data + decl.name@ + ": "@ + literal_data(&e)->0 + "\n"@
                    &&& after.bss == m.bss
                },
                _ => {
                    &&& after.data == m.data
                    &&& if decl.external || decl.type_of@ is Function {
                        after.bss == m.bss
                    } else {
                        &&& byte_size(decl.type_of@) is Ok
                        &&& after.bss == m.bss + decl.name@ + ": resb "@ + decimal(
                            byte_size(decl.type_of@)->Ok_0 as nat,
                        ) + "\n"@
                    }
                },
            }
        }),
{
}

/// Lowering the declarations of a unit one after the other never leaves a
/// function half generated: after each of them, and after the first that
/// fails, no return label stands and no register holds a parameter.
pub proof fn lemma_unit_settles(m: GeneratorView, decls: Seq<Declaration>, from: int)
    requires
        between_functions(m),
    ensures
        between_functions(m.lower_decls(decls, from).0),
        m.lower_decls(decls, from).0.taken == m.taken,
    decreases decls.len() - from,
{
    if !(from < 0 || from >= decls.len()) {
        lemma_declaration_settles(m, &decls[from]);
        let (m1, r1) = m.lower_decl(&decls[from]);
        if r1 is Ok {
            lemma_unit_settles(m1, decls, from + 1);
        }
    }
}

proof fn lemma_statements(m: GeneratorView, stmts: Seq<Statement>, from: int)
    requires
        m.wf(),
    ensures
        settled(m, m.lower_stmts(stmts, from)),
    decreases stmts, stmts.len() - from,
{
    if !(from < 0 || from >= stmts.len()) {
        lemma_statement_settles(m, &stmts[from]);
        let (m1, r1) = m.lower_stmt(&stmts[from]);
        if r1 is Ok {
            lemma_statements(m1, stmts, from + 1);
        }
    }
}

proof fn lemma_compound(m: GeneratorView, stmts: Seq<Statement>)
    requires
        m.wf(),
    ensures
        settled(m, m.lower_compound(stmts)),
        m.lower_compound(stmts).0.rdp_offset == m.rdp_offset,
    decreases stmts, stmts.len() + 1,
{
    lemma_statements(m.enter(), stmts, 0);
}

proof fn lemma_discarded(m: GeneratorView, expr: &Expression)
    requires
        m.wf(),
    ensures
        settled(m, m.lower_discarded(expr)),
{
    lemma_expr_returns_its_loans(m, expr);
    lemma_expr_keeps_the_rest(m, expr);
    let (m1, r1) = m.lower_expr(expr);
    if r1 is Ok {
        assert(m1.release(r1->Ok_0.reg.reg).taken =~= m.taken);
    }
}

proof fn lemma_test(m: GeneratorView, condition: &Expression, target: u64)
    requires
        m.wf(),
    ensures
        settled(m, m.lower_test(condition, target)),
{
    lemma_value_returns_its_loans(m, condition);
    lemma_value_keeps_the_rest(m, condition);
    let (m1, r1) = m.lower_value(condition);
    if r1 is Ok {
        assert(m.lower_test(condition, target).0.taken =~= m.taken);
    }
}

proof fn lemma_return(m: GeneratorView, value: &Option<Expression>)
    requires
        m.wf(),
    ensures
        settled(m, m.lower_return(value)),
{
    match value {
        Some(expr) => {
            lemma_value_returns_its_loans(m, expr);
            lemma_value_keeps_the_rest(m, expr);
            let (m1, r1) = m.lower_value(expr);
            if r1 is Ok && m.return_label is Some && !(m.return_size is Void) {
                assert(m.lower_return(value).0.taken =~= m.taken);
            }
        },
        None => {},
    }
}

proof fn lemma_else(m: GeneratorView, else_block: &Option<Statement>)
    requires
        m.wf(),
    ensures
        settled(m, m.lower_else(else_block)),
    decreases else_block, 1nat,
{
    match else_block {
        None => {},
        Some(else_stmt) => lemma_statement_settles(m, else_stmt),
    }
}

proof fn lemma_if(m: GeneratorView, x: &IfStatement)
    requires
        m.wf(),
    ensures
        settled(m, m.lower_if(x)),
    decreases x, 1nat,
{
    if x.else_block is None {
        lemma_if_alone(m, x);
    } else {
        lemma_if_else(m, x);
    }
}

proof fn lemma_if_alone(m: GeneratorView, x: &IfStatement)
    requires
        m.wf(),
    ensures
        settled(m, m.lower_if_alone(x)),
    decreases x, 0nat,
{
    let (m1, r1) = m.fresh_label();
    if r1 is Ok {
        lemma_test(m1, &x.condition, r1->Ok_0);
        let (m2, r2) = m1.lower_test(&x.condition, r1->Ok_0);
        if r2 is Ok {
            lemma_statement_settles(m2, &x.if_block);
        }
    }
}

proof fn lemma_if_else(m: GeneratorView, x: &IfStatement)
    requires
        m.wf(),
    ensures
        settled(m, m.lower_if_else(x)),
    decreases x, 0nat,
{
    let (m1, r1) = m.fresh_label();
    if r1 is Ok {
        let (m2, r2) = m1.fresh_label();
        if r2 is Ok {
            lemma_test(m2, &x.condition, r1->Ok_0);
            let (m3, r3) = m2.lower_test(&x.condition, r1->Ok_0);
            if r3 is Ok {
                lemma_statement_settles(m3, &x.if_block);
                let (m4, r4) = m3.lower_stmt(&x.if_block);
                if r4 is Ok {
                    lemma_else(
                        m4.emit(InstrView::Jmp(r2->Ok_0)).place_label(r1->Ok_0),
                        &x.else_block,
                    );
                }
            }
        }
    }
}

proof fn lemma_while(m: GeneratorView, x: &WhileLoopStatement)
    requires
        m.wf(),
    ensures
        settled(m, m.lower_while(x)),
    decreases x, 0nat,
{
    let (m1, r1) = m.fresh_label();
    if r1 is Ok {
        let (m2, r2) = m1.fresh_label();
        if r2 is Ok {
            lemma_test(m2.place_label(r1->Ok_0), &x.condition, r2->Ok_0);
            let (m3, r3) = m2.place_label(r1->Ok_0).lower_test(&x.condition, r2->Ok_0);
            if r3 is Ok {
                lemma_statement_settles(m3, &x.body);
            }
        }
    }
}

proof fn lemma_local_value(m: GeneratorView, name: Seq<char>, t: TypeView, e: &Expression)
    requires
        m.wf(),
    ensures
        settled(m, m.lower_local_value(name, t, e)),
{
    let (m1, r1) = m.bind_local(name, t);
    if r1 is Ok {
        lemma_value_returns_its_loans(m1, e);
        lemma_value_keeps_the_rest(m1, e);
        let (m2, r2) = m1.lower_value(e);
        if r2 is Ok {
            assert(m.lower_local_value(name, t, e).0.taken =~= m.taken);
        }
    }
}

/// Binding parameters touches neither the loans nor the depth of the scopes.
proof fn lemma_params(m: GeneratorView, params: Seq<(Seq<char>, TypeView)>, i: int)
    requires
        m.wf(),
    ensures
        m.bind_params(params, i).0.wf(),
        m.bind_params(params, i).0.taken == m.taken,
        m.bind_params(params, i).0.scopes.len() == m.scopes.len(),
        m.bind_params(params, i).0.rdp_offset == m.rdp_offset,
        m.bind_params(params, i).0.labels == m.labels,
        m.bind_params(params, i).0.label_counter == m.label_counter,
        m.bind_params(params, i).0.jumps == m.jumps,
        m.bind_params(params, i).0.return_label == m.return_label,
        m.bind_params(params, i).0.return_size == m.return_size,
    decreases params.len() - i,
{
    if !(i < 0 || i >= params.len()) {
        match register_size(params[i].1) {
            Err(_) => {},
            Ok(size) => {
                if !(size is Void) {
                    if i < NUM_ARG_REGS {
                        let reg = arg_register_at(i);
                        lemma_params(
                            m.hold_arg(reg).bind(
                                params[i].0,
                                crate::codegen::x86_64::instance::VariableView {
                                    asm_rep: sized(reg, size),
                                    type_of: params[i].1,
                                },
                            ),
                            params,
                            i + 1,
                        );
                    } else {
                        lemma_params(
                            m.bind(
                                params[i].0,
                                crate::codegen::x86_64::instance::VariableView {
                                    asm_rep: crate::codegen::x86_64::declaration::stack_param_operand(
                                        size,
                                        i,
                                    ),
                                    type_of: params[i].1,
                                },
                            ),
                            params,
                            i + 1,
                        );
                    }
                }
            },
        }
    }
}

proof fn lemma_body(
    m: GeneratorView,
    params: Seq<(Seq<char>, TypeView)>,
    stmts: Seq<Statement>,
    ret_label: u64,
)
    requires
        m.wf(),
    ensures
        m.lower_body(params, stmts, ret_label).0.wf(),
        m.lower_body(params, stmts, ret_label).0.taken == m.taken,
        m.lower_body(params, stmts, ret_label).0.scopes.len() == m.scopes.len(),
        m.lower_body(params, stmts, ret_label).1 is Err ==> wrote_fresh_labels(
            m,
            m.lower_body(params, stmts, ret_label).0,
        ),
        m.lower_body(params, stmts, ret_label).1 is Ok ==> ends_in_label(
            m,
            m.lower_body(params, stmts, ret_label).0,
            ret_label,
        ),
    decreases stmts, stmts.len() + 1,
{
    let start = m.emit(InstrView::Push("RBP"@)).emit(InstrView::Mov("RBP"@, "RSP"@));
    lemma_params(start, params, 0);
    let (m1, r1) = start.bind_params(params, 0);
    if r1 is Ok {
        lemma_statements(m1, stmts, 0);
    }
}

/// Between `before` and `after` labels were written that were handed out
/// since, and after them, as the last, the label `last`.
pub open spec fn ends_in_label(before: GeneratorView, after: GeneratorView, last: u64) -> bool {
    &&& before.label_counter <= after.label_counter
    &&& before.labels.len() < after.labels.len()
    &&& forall|i: int| 0 <= i < before.labels.len() ==> after.labels[i] == before.labels[i]
    &&& forall|i: int|
        before.labels.len() <= i < after.labels.len() - 1 ==> before.label_counter <= (
        #[trigger] after.labels[i]) < after.label_counter
    &&& after.labels[after.labels.len() - 1] == last
}

/// A function that is lowered to its end has one return label: the label is
/// the one that was next to be handed out when the function began; it is
/// written once, as the last label of the function, and no label written
/// before it in the function is the same.
pub proof fn lemma_function_returns_at_one_label(
    m: GeneratorView,
    name: Seq<char>,
    f: FunctionTypeView,
    stmts: Seq<Statement>,
)
    requires
        m.wf(),
        m.lower_function(name, f, stmts).1 is Ok,
    ensures
        ({
            let after = m.lower_function(name, f, stmts).0;
            &&& m.labels.len() < after.labels.len()
            &&& after.labels[after.labels.len() - 1] == m.label_counter
            &&& forall|i: int|
                m.labels.len() <= i < after.labels.len() - 1 ==> (#[trigger] after.labels[i])
                    != m.label_counter
            &&& forall|i: int| 0 <= i < m.labels.len() ==> after.labels[i] == m.labels[i]
        }),
{
    match register_size(f.return_type) {
        Err(_) => {},
        Ok(size) => {
            let (m1, r1) = m.bind_global(name, TypeView::Function(Box::new(f)));
            if r1 is Ok {
                let (m2, r2) = m1.place_fn_label(name).fresh_label();
                if r2 is Ok {
                    lemma_body(
                        m2.with_return(Some(r2->Ok_0), size).enter(),
                        f.args,
                        stmts,
                        r2->Ok_0,
                    );
                }
            }
        },
    }
}

proof fn lemma_function(
    m: GeneratorView,
    name: Seq<char>,
    f: FunctionTypeView,
    stmts: Seq<Statement>,
)
    requires
        m.wf(),
    ensures
        settled(m, m.lower_function(name, f, stmts)),
        between_functions(m) ==> between_functions(m.lower_function(name, f, stmts).0),
        m.lower_function(name, f, stmts).0.rdp_offset == m.rdp_offset,
    decreases stmts, stmts.len() + 2,
{
    match register_size(f.return_type) {
        Err(_) => {},
        Ok(size) => {
            let (m1, r1) = m.bind_global(name, TypeView::Function(Box::new(f)));
            if r1 is Ok {
                let (m2, r2) = m1.place_fn_label(name).fresh_label();
                if r2 is Ok {
                    lemma_body(
                        m2.with_return(Some(r2->Ok_0), size).enter(),
                        f.args,
                        stmts,
                        r2->Ok_0,
                    );
                }
            }
        },
    }
}

/// Lowering an expression touches nothing but the loans, the labels and the
/// text: the scopes, the return label and the note of the registers that
/// hold parameters stay as they are, and the labels that it writes are
/// labels that it was handed.
pub proof fn lemma_expr_keeps_the_rest(m: GeneratorView, e: &Expression)
    requires
        m.wf(),
    ensures
        same_but_loans(m, m.lower_expr(e).0),
        m.lower_expr(e).1 is Ok ==> m.lower_expr(e).0.stack == m.stack,
    decreases e, 1nat,
{
    lemma_raw_keeps(m, e);
}

/// How many of the first `i` arguments of a call go onto the stack: those
/// behind the sixth.
pub open spec fn stack_arguments(x: &FuncCallExpr, i: int) -> int {
    if NUM_ARG_REGS < i <= x.args@.len() {
        i - NUM_ARG_REGS
    } else {
        0
    }
}

/// What an expression may change is the loans, the labels and the text;
/// this says that the rest is the same, that the labels written are new, and
/// that the jumps written go to new labels.
pub open spec fn same_but_loans(before: GeneratorView, after: GeneratorView) -> bool {
    &&& wrote_fresh_labels(before, after)
    &&& jumped_to_fresh_labels(before, after)
    &&& after.scopes == before.scopes
    &&& after.arg_regs == before.arg_regs
    &&& after.return_label == before.return_label
    &&& after.return_size == before.return_size
    &&& after.rdp_offset == before.rdp_offset
    &&& after.externs == before.externs
    &&& after.globals == before.globals
    &&& after.data == before.data
    &&& after.bss == before.bss
}

/// Lowering an expression for its value touches nothing but the loans, the
/// labels and the text.
pub proof fn lemma_value_keeps_the_rest(m: GeneratorView, e: &Expression)
    requires
        m.wf(),
    ensures
        same_but_loans(m, m.lower_value(e).0),
        m.lower_value(e).1 is Ok ==> m.lower_value(e).0.stack == m.stack,
    decreases e, 2nat,
{
    lemma_expr_keeps_the_rest(m, e);
}

proof fn lemma_operands_keep(m: GeneratorView, x: &BinaryExpr)
    requires
        m.wf(),
    ensures
        same_but_loans(m, m.lower_operands(x).0),
        m.lower_operands(x).1 is Ok ==> m.lower_operands(x).0.stack == m.stack,
    decreases x, 0nat,
{
    lemma_value_keeps_the_rest(m, &x.first);
    lemma_value_returns_its_loans(m, &x.first);
    let (m1, r1) = m.lower_value(&x.first);
    if r1 is Ok {
        lemma_value_keeps_the_rest(m1, &x.second);
    }
}

proof fn lemma_ternary_keeps(m: GeneratorView, x: &TernaryExpr)
    requires
        m.wf(),
    ensures
        same_but_loans(m, m.lower_ternary(x).0),
        m.lower_ternary(x).1 is Ok ==> m.lower_ternary(x).0.stack == m.stack,
    decreases x, 0nat,
{
    lemma_value_keeps_the_rest(m, &x.condition);
    lemma_value_returns_its_loans(m, &x.condition);
    let (m1, r1) = m.lower_value(&x.condition);
    if r1 is Ok {
        let condition = r1->Ok_0;
        let (m2, r2) = m1.fresh_label();
        if r2 is Ok {
            let (m3, r3) = m2.fresh_label();
            if r3 is Ok {
                let head = m3.emit(InstrView::Cmp(condition.reg.text(), "0"@)).emit(
                    InstrView::Je(r2->Ok_0),
                );
                lemma_value_keeps_the_rest(head, &x.true_expr);
                lemma_value_returns_its_loans(head, &x.true_expr);
                let (m4, r4) = head.lower_value(&x.true_expr);
                if r4 is Ok {
                    let if_t = r4->Ok_0;
                    lemma_lease(m4, if_t.reg.size);
                    let (m5, r5) = m4.lease(if_t.reg.size);
                    if r5 is Ok {
                        let result = r5->Ok_0;
                        let middle = m5.emit(
                            InstrView::Mov(result.reg.text(), if_t.reg.text()),
                        ).emit(InstrView::Jmp(r3->Ok_0)).place_label(r2->Ok_0);
                        lemma_value_keeps_the_rest(middle, &x.false_expr);
                    }
                }
            }
        }
    }
}

proof fn lemma_reg_args_keep(m: GeneratorView, x: &FuncCallExpr, i: int, pushed: Seq<Register>)
    requires
        m.wf(),
    ensures
        same_but_loans(m, m.lower_reg_args(x, i, pushed).0),
        m.lower_reg_args(x, i, pushed).1 matches Ok(saved) ==> {
            &&& pushed.len() <= saved.len()
            &&& m.lower_reg_args(x, i, pushed).0.stack == m.stack + 8 * (saved.len()
                - pushed.len())
        },
    decreases x, NUM_ARG_REGS - i,
{
    if !(i < 0 || i >= NUM_ARG_REGS || i >= x.args@.len()) {
        lemma_value_keeps_the_rest(m, &x.args@[i]);
        lemma_value_returns_its_loans(m, &x.args@[i]);
        let (m1, r1) = m.lower_value(&x.args@[i]);
        if r1 is Ok {
            let value = r1->Ok_0.reg;
            let dest = arg_register_at(i);
            let m2 = if m1.arg_regs[dest.index()] {
                m1.push(sized(dest, RegisterSize::QWord))
            } else {
                m1
            };
            let now_pushed = if m1.arg_regs[dest.index()] {
                pushed.push(dest)
            } else {
                pushed
            };
            let m3 = m2.emit(InstrView::Mov(sized(dest, value.size), value.text())).release(
                value.reg,
            );
            lemma_reg_args_keep(m3, x, i + 1, now_pushed);
        }
    }
}

proof fn lemma_stack_args_keep(m: GeneratorView, x: &FuncCallExpr, i: int)
    requires
        m.wf(),
    ensures
        same_but_loans(m, m.lower_stack_args(x, i).0),
        m.lower_stack_args(x, i).1 is Ok ==> m.lower_stack_args(x, i).0.stack == m.stack + 8
            * stack_arguments(x, i),
    decreases x, i,
{
    if !(i <= NUM_ARG_REGS || i > x.args@.len()) {
        lemma_value_keeps_the_rest(m, &x.args@[i - 1]);
        lemma_value_returns_its_loans(m, &x.args@[i - 1]);
        let (m1, r1) = m.lower_value(&x.args@[i - 1]);
        if r1 is Ok {
            let value = r1->Ok_0.reg;
            let m2 = m1.push(sized(value.reg, RegisterSize::QWord)).release(
                value.reg,
            );
            lemma_stack_args_keep(m2, x, i - 1);
        }
    }
}

proof fn lemma_pops_keep(m: GeneratorView, pushed: Seq<Register>, k: int)
    ensures
        same_but_loans(m, m.emit_pops(pushed, k)),
        0 <= k <= pushed.len() ==> m.emit_pops(pushed, k).stack == m.stack - 8 * k,
    decreases k,
{
    if !(k <= 0 || k > pushed.len()) {
        lemma_pops_keep(
            m.pop(sized(pushed[k - 1], RegisterSize::QWord)),
            pushed,
            k - 1,
        );
    }
}

proof fn lemma_call_keeps(m: GeneratorView, x: &FuncCallExpr)
    requires
        m.wf(),
    ensures
        same_but_loans(m, m.lower_call(x).0),
        m.lower_call(x).1 is Ok ==> m.lower_call(x).0.stack == m.stack,
    decreases x, x.args@.len() + NUM_ARG_REGS + 1,
{
    lemma_reg_args_keep(m, x, 0, Seq::empty());
    lemma_reg_args(m, x, 0, Seq::empty());
    let (m1, r1) = m.lower_reg_args(x, 0, Seq::empty());
    if r1 is Ok {
        lemma_stack_args_keep(m1, x, x.args@.len() as int);
        let (m2, r2) = m1.lower_stack_args(x, x.args@.len() as int);
        if r2 is Ok {
            let count = x.args@.len();
            match x.func {
                Expression::Identifier(name) => match m.lookup(name@) {
                    Some(var) => {
                        let c1 = m2.emit(InstrView::Call(var.asm_rep));
                        let c2 = if count > NUM_ARG_REGS {
                            c1.free_stack(((count - NUM_ARG_REGS) * 8) as nat)
                        } else {
                            c1
                        };
                        lemma_pops_keep(c2, r1->Ok_0, r1->Ok_0.len() as int);
                    },
                    None => {},
                },
                _ => {},
            }
        }
    }
}

proof fn lemma_assignment_keeps(m: GeneratorView, x: &BinaryExpr)
    requires
        m.wf(),
    ensures
        same_but_loans(m, m.lower_assignment(x).0),
        m.lower_assignment(x).1 is Ok ==> m.lower_assignment(x).0.stack == m.stack,
    decreases x, 2nat,
{
    lemma_value_keeps_the_rest(m, &x.second);
}

proof fn lemma_logical_keeps(m: GeneratorView, x: &BinaryExpr, is_or: bool)
    requires
        m.wf(),
    ensures
        same_but_loans(m, m.lower_logical(x, is_or).0),
        m.lower_logical(x, is_or).1 is Ok ==> m.lower_logical(x, is_or).0.stack == m.stack,
    decreases x, 2nat,
{
    lemma_value_keeps_the_rest(m, &x.first);
    lemma_value_returns_its_loans(m, &x.first);
    let (m1, r1) = m.lower_value(&x.first);
    if r1 is Ok {
        let a = r1->Ok_0;
        let (m2, r2) = m1.fresh_label();
        if r2 is Ok {
            let (m3, r3) = m2.fresh_label();
            if r3 is Ok {
                let (m4, r4) = m3.fresh_label();
                if r4 is Ok {
                    let first_jump = if is_or {
                        InstrView::Jne(r2->Ok_0)
                    } else {
                        InstrView::Je(r3->Ok_0)
                    };
                    let head = m4.emit(InstrView::Cmp(a.reg.text(), "0"@)).emit(first_jump);
                    lemma_value_keeps_the_rest(head, &x.second);
                }
            }
        }
    }
}

proof fn lemma_comparison_keeps(m: GeneratorView, x: &BinaryExpr, cmp: ComparisonType)
    requires
        m.wf(),
    ensures
        same_but_loans(m, m.lower_comparison(x, cmp).0),
        m.lower_comparison(x, cmp).1 is Ok ==> m.lower_comparison(x, cmp).0.stack == m.stack,
    decreases x, 2nat,
{
    lemma_operands_keep(m, x);
}

proof fn lemma_arith_keeps(m: GeneratorView, x: &BinaryExpr, op: ArithOp)
    requires
        m.wf(),
    ensures
        same_but_loans(m, m.lower_arith(x, op).0),
        m.lower_arith(x, op).1 is Ok ==> m.lower_arith(x, op).0.stack == m.stack,
    decreases x, 2nat,
{
    lemma_operands_keep(m, x);
}

proof fn lemma_division_keeps(m: GeneratorView, x: &BinaryExpr, remainder: bool)
    requires
        m.wf(),
    ensures
        same_but_loans(m, m.lower_division(x, remainder).0),
        m.lower_division(x, remainder).1 is Ok ==> m.lower_division(x, remainder).0.stack == m.stack,
    decreases x, 2nat,
{
    lemma_operands_keep(m, x);
}

proof fn lemma_cast_keeps(m: GeneratorView, x: &CastExpr)
    requires
        m.wf(),
    ensures
        same_but_loans(m, m.lower_cast(x).0),
        m.lower_cast(x).1 is Ok ==> m.lower_cast(x).0.stack == m.stack,
    decreases x, 0nat,
{
    lemma_value_keeps_the_rest(m, &x.expr);
}

proof fn lemma_address_of_keeps(m: GeneratorView, x: &UnaryExpr)
    requires
        m.wf(),
    ensures
        same_but_loans(m, m.lower_address_of(x).0),
        m.lower_address_of(x).1 is Ok ==> m.lower_address_of(x).0.stack == m.stack,
{
}

proof fn lemma_dereference_keeps(m: GeneratorView, x: &UnaryExpr)
    requires
        m.wf(),
    ensures
        same_but_loans(m, m.lower_dereference(x).0),
        m.lower_dereference(x).1 is Ok ==> m.lower_dereference(x).0.stack == m.stack,
    decreases x, 0nat,
{
    lemma_value_keeps_the_rest(m, &x.expr);
}

proof fn lemma_unary_keeps(m: GeneratorView, x: &UnaryExpr, op: UnaryOp)
    requires
        m.wf(),
    ensures
        same_but_loans(m, m.lower_unary(x, op).0),
        m.lower_unary(x, op).1 is Ok ==> m.lower_unary(x, op).0.stack == m.stack,
    decreases x, 0nat,
{
    lemma_value_keeps_the_rest(m, &x.expr);
}

proof fn lemma_logical_not_keeps(m: GeneratorView, x: &UnaryExpr)
    requires
        m.wf(),
    ensures
        same_but_loans(m, m.lower_logical_not(x).0),
        m.lower_logical_not(x).1 is Ok ==> m.lower_logical_not(x).0.stack == m.stack,
    decreases x, 0nat,
{
    lemma_value_keeps_the_rest(m, &x.expr);
}

proof fn lemma_raw_keeps(m: GeneratorView, e: &Expression)
    requires
        m.wf(),
    ensures
        same_but_loans(m, m.lower_raw(e).0),
        m.lower_raw(e).1 is Ok ==> m.lower_raw(e).0.stack == m.stack,
    decreases e, 0nat,
{
    match e {
        Expression::Assignment(x) => lemma_assignment_keeps(m, x),
        Expression::Ternary(x) => lemma_ternary_keeps(m, x),
        Expression::LogicalOr(x) => lemma_logical_keeps(m, x, true),
        Expression::LogicalAnd(x) => lemma_logical_keeps(m, x, false),
        Expression::BitwiseOr(x) => lemma_arith_keeps(m, x, ArithOp::Or),
        Expression::BitwiseXor(x) => lemma_arith_keeps(m, x, ArithOp::Xor),
        Expression::BitwiseAnd(x) => lemma_arith_keeps(m, x, ArithOp::And),
        Expression::Equality(x) => lemma_comparison_keeps(m, x, ComparisonType::Eq),
        Expression::Inequality(x) => lemma_comparison_keeps(m, x, ComparisonType::Ne),
        Expression::LTCompare(x) => lemma_comparison_keeps(m, x, ComparisonType::Lt),
        Expression::GTCompare(x) => lemma_comparison_keeps(m, x, ComparisonType::Gt),
        Expression::LECompare(x) => lemma_comparison_keeps(m, x, ComparisonType::Le),
        Expression::GECompare(x) => lemma_comparison_keeps(m, x, ComparisonType::Ge),
        Expression::Add(x) => lemma_arith_keeps(m, x, ArithOp::Add),
        Expression::Subtract(x) => lemma_arith_keeps(m, x, ArithOp::Sub),
        Expression::Multiply(x) => lemma_arith_keeps(m, x, ArithOp::Mul),
        Expression::Divide(x) => lemma_division_keeps(m, x, false),
        Expression::Modulo(x) => lemma_division_keeps(m, x, true),
        Expression::Cast(x) => lemma_cast_keeps(m, x),
        Expression::AddressOf(x) => lemma_address_of_keeps(m, x),
        Expression::Dereference(x) => lemma_dereference_keeps(m, x),
        Expression::Negate(x) => lemma_unary_keeps(m, x, UnaryOp::Neg),
        Expression::BitwiseNot(x) => lemma_unary_keeps(m, x, UnaryOp::Not),
        Expression::LogicalNot(x) => lemma_logical_not_keeps(m, x),
        Expression::FuncCall(x) => lemma_call_keeps(m, x),
        _ => {},
    }
}

/// How often `x` occurs in `s`.
pub open spec fn count_of(s: Seq<u64>, x: u64) -> nat
    decreases s.len(),
{
    if s.len() == 0 {
        0
    } else {
        count_of(s.drop_last(), x) + if s.last() == x {
            1nat
        } else {
            0nat
        }
    }
}

/// How many `return` statements a statement holds, at any depth.
pub open spec fn returns_in(stmt: &Statement) -> nat
    decreases stmt, 0nat,
{
    match stmt {
        Statement::Compound(stmts) => returns_among(stmts@, 0),
        Statement::If(x) => returns_in(&x.if_block) + match x.else_block {
            Some(else_stmt) => returns_in(&else_stmt),
            None => 0,
        },
        Statement::WhileLoop(x) => returns_in(&x.body),
        Statement::Return(_) => 1,
        _ => 0,
    }
}

/// How many `return` statements the statements from position `from` on
/// hold, at any depth.
pub open spec fn returns_among(stmts: Seq<Statement>, from: int) -> nat
    decreases stmts, stmts.len() - from,
{
    if from < 0 || from >= stmts.len() {
        0
    } else {
        returns_in(&stmts[from]) + returns_among(stmts, from + 1)
    }
}

/// A lowering inside a function that returns at label `n` has kept the
/// function's return label and width and the depth of the scopes, and, where
/// it went through, has written `returns` jumps to `n`, neither more nor
/// fewer.
pub open spec fn returned_to(before: GeneratorView, out: Emitted, n: u64, returns: nat) -> bool {
    &&& out.0.wf()
    &&& out.0.return_label == before.return_label
    &&& out.0.return_size == before.return_size
    &&& out.0.scopes.len() == before.scopes.len()
    &&& before.label_counter <= out.0.label_counter
    &&& out.1 is Ok ==> count_of(out.0.jumps, n) == count_of(before.jumps, n) + returns
}

/// Inside a function that returns at label `n`: no function is being begun,
/// and `n` is a label that was handed out.
pub open spec fn inside_function(m: GeneratorView, n: u64) -> bool {
    &&& m.wf()
    &&& !m.at_file_scope()
    &&& m.return_label == Some(n)
    &&& n < m.label_counter
}

/// One more jump is one more occurrence of its target and of nothing else.
proof fn lemma_count_push(s: Seq<u64>, target: u64, n: u64)
    ensures
        count_of(s.push(target), n) == count_of(s, n) + if target == n {
            1nat
        } else {
            0nat
        },
{
    assert(s.push(target).drop_last() =~= s);
}

/// Jumps to labels that were handed out later are no jumps to `n`.
proof fn lemma_fresh_jumps_miss(before: GeneratorView, after: GeneratorView, n: u64)
    requires
        jumped_to_fresh_labels(before, after),
        n < before.label_counter,
    ensures
        count_of(after.jumps, n) == count_of(before.jumps, n),
    decreases after.jumps.len(),
{
    if after.jumps.len() > before.jumps.len() {
        let shorter = GeneratorView { jumps: after.jumps.drop_last(), ..after };
        lemma_fresh_jumps_miss(before, shorter, n);
    } else {
        assert(after.jumps =~= before.jumps);
    }
}

/// Every `return` of a statement that is lowered inside a function jumps to
/// the function's return label, and nothing else in the statement jumps
/// there: where the lowering goes through, it has written as many jumps to
/// that label as the statement holds `return` statements, at any depth. The
/// return label stays set throughout.
pub proof fn lemma_returns_jump_to_the_label(m: GeneratorView, stmt: &Statement, n: u64)
    requires
        inside_function(m, n),
    ensures
        returned_to(m, m.lower_stmt(stmt), n, returns_in(stmt)),
    decreases stmt, 0nat,
{
    match stmt {
        Statement::Compound(stmts) => lemma_returns_compound(m, stmts@, n),
        Statement::Declaration(decl) => lemma_returns_declaration(m, decl, n),
        Statement::Expression(expr) => lemma_returns_discarded(m, expr, n),
        Statement::If(x) => lemma_returns_if(m, x, n),
        Statement::WhileLoop(x) => lemma_returns_while(m, x, n),
        Statement::Return(value) => lemma_returns_return(m, value, n),
    }
}

proof fn lemma_returns_statements(m: GeneratorView, stmts: Seq<Statement>, from: int, n: u64)
    requires
        inside_function(m, n),
    ensures
        returned_to(m, m.lower_stmts(stmts, from), n, returns_among(stmts, from)),
    decreases stmts, stmts.len() - from,
{
    if !(from < 0 || from >= stmts.len()) {
        lemma_returns_jump_to_the_label(m, &stmts[from], n);
        let (m1, r1) = m.lower_stmt(&stmts[from]);
        if r1 is Ok {
            lemma_returns_statements(m1, stmts, from + 1, n);
        }
    }
}

proof fn lemma_returns_compound(m: GeneratorView, stmts: Seq<Statement>, n: u64)
    requires
        inside_function(m, n),
    ensures
        returned_to(m, m.lower_compound(stmts), n, returns_among(stmts, 0)),
    decreases stmts, stmts.len() + 1,
{
    lemma_returns_statements(m.enter(), stmts, 0, n);
}

proof fn lemma_returns_discarded(m: GeneratorView, expr: &Expression, n: u64)
    requires
        inside_function(m, n),
    ensures
        returned_to(m, m.lower_discarded(expr), n, 0),
{
    lemma_expr_returns_its_loans(m, expr);
    lemma_expr_keeps_the_rest(m, expr);
    lemma_fresh_jumps_miss(m, m.lower_expr(expr).0, n);
}

proof fn lemma_returns_test(m: GeneratorView, condition: &Expression, target: u64, n: u64)
    requires
        inside_function(m, n),
    ensures
        returned_to(m, m.lower_test(condition, target), n, 0),
{
    lemma_value_returns_its_loans(m, condition);
    lemma_value_keeps_the_rest(m, condition);
    lemma_fresh_jumps_miss(m, m.lower_value(condition).0, n);
}

proof fn lemma_returns_return(m: GeneratorView, value: &Option<Expression>, n: u64)
    requires
        inside_function(m, n),
    ensures
        returned_to(m, m.lower_return(value), n, 1),
{
    match value {
        Some(expr) => {
            lemma_value_returns_its_loans(m, expr);
            lemma_value_keeps_the_rest(m, expr);
            let (m1, r1) = m.lower_value(expr);
            lemma_fresh_jumps_miss(m, m1, n);
            if r1 is Ok && !(m.return_size is Void) {
                let ret_val = r1->Ok_0.reg;
                let moved = m1.emit(
                    InstrView::Mov(
                        sized(Register::Rax, m.return_size),
                        sized(ret_val.reg, m.return_size),
                    ),
                ).release(ret_val.reg);
                lemma_count_push(moved.jumps, n, n);
            }
        },
        None => {
            lemma_count_push(m.jumps, n, n);
        },
    }
}

proof fn lemma_returns_else(m: GeneratorView, else_block: &Option<Statement>, n: u64)
    requires
        inside_function(m, n),
    ensures
        returned_to(
            m,
            m.lower_else(else_block),
            n,
            match else_block {
                Some(else_stmt) => returns_in(else_stmt),
                None => 0,
            },
        ),
    decreases else_block, 1nat,
{
    match else_block {
        None => {},
        Some(else_stmt) => lemma_returns_jump_to_the_label(m, else_stmt, n),
    }
}

proof fn lemma_returns_if(m: GeneratorView, x: &IfStatement, n: u64)
    requires
        inside_function(m, n),
    ensures
        returned_to(m, m.lower_if(x), n, returns_in(&Statement::If(Box::new(*x)))),
    decreases x, 1nat,
{
    if x.else_block is None {
        lemma_returns_if_alone(m, x, n);
    } else {
        lemma_returns_if_else(m, x, n);
    }
}

proof fn lemma_returns_if_alone(m: GeneratorView, x: &IfStatement, n: u64)
    requires
        inside_function(m, n),
    ensures
        returned_to(m, m.lower_if_alone(x), n, returns_in(&x.if_block)),
    decreases x, 0nat,
{
    let (m1, r1) = m.fresh_label();
    if r1 is Ok {
        lemma_returns_test(m1, &x.condition, r1->Ok_0, n);
        let (m2, r2) = m1.lower_test(&x.condition, r1->Ok_0);
        if r2 is Ok {
            lemma_returns_jump_to_the_label(m2, &x.if_block, n);
        }
    }
}

proof fn lemma_returns_if_else(m: GeneratorView, x: &IfStatement, n: u64)
    requires
        inside_function(m, n),
        x.else_block is Some,
    ensures
        returned_to(
            m,
            m.lower_if_else(x),
            n,
            returns_in(&x.if_block) + returns_in(&x.else_block->0),
        ),
    decreases x, 0nat,
{
    let (m1, r1) = m.fresh_label();
    if r1 is Ok {
        let (m2, r2) = m1.fresh_label();
        if r2 is Ok {
            lemma_returns_test(m2, &x.condition, r1->Ok_0, n);
            let (m3, r3) = m2.lower_test(&x.condition, r1->Ok_0);
            if r3 is Ok {
                lemma_returns_jump_to_the_label(m3, &x.if_block, n);
                let (m4, r4) = m3.lower_stmt(&x.if_block);
                if r4 is Ok {
                    lemma_count_push(m4.jumps, r2->Ok_0, n);
                    lemma_returns_else(
                        m4.emit(InstrView::Jmp(r2->Ok_0)).place_label(r1->Ok_0),
                        &x.else_block,
                        n,
                    );
                }
            }
        }
    }
}

proof fn lemma_returns_while(m: GeneratorView, x: &WhileLoopStatement, n: u64)
    requires
        inside_function(m, n),
    ensures
        returned_to(m, m.lower_while(x), n, returns_in(&x.body)),
    decreases x, 0nat,
{
    let (m1, r1) = m.fresh_label();
    if r1 is Ok {
        let (m2, r2) = m1.fresh_label();
        if r2 is Ok {
            lemma_returns_test(m2.place_label(r1->Ok_0), &x.condition, r2->Ok_0, n);
            let (m3, r3) = m2.place_label(r1->Ok_0).lower_test(&x.condition, r2->Ok_0);
            if r3 is Ok {
                lemma_returns_jump_to_the_label(m3, &x.body, n);
                let (m4, r4) = m3.lower_stmt(&x.body);
                if r4 is Ok {
                    lemma_count_push(m4.jumps, r1->Ok_0, n);
                }
            }
        }
    }
}

proof fn lemma_returns_declaration(m: GeneratorView, decl: &Declaration, n: u64)
    requires
        inside_function(m, n),
    ensures
        returned_to(m, m.lower_decl(decl), n, 0),
{
    match decl.value {
        Some(DeclarationValue::Variable(e)) => {
            let (m1, r1) = m.bind_local(decl.name@, decl.type_of@);
            if r1 is Ok {
                lemma_value_returns_its_loans(m1, &e);
                lemma_value_keeps_the_rest(m1, &e);
                lemma_fresh_jumps_miss(m1, m1.lower_value(&e).0, n);
            }
        },
        _ => {},
    }
}

/// Every `return` in a function jumps to the function's one return label: a
/// function that is lowered to its end has written as many jumps to its
/// return label as its body holds `return` statements, at any depth. The
/// return label is the one that was next to be handed out when the function
/// began.
pub proof fn lemma_function_returns_jump_to_its_label(
    m: GeneratorView,
    name: Seq<char>,
    f: FunctionTypeView,
    stmts: Seq<Statement>,
)
    requires
        m.wf(),
        m.lower_function(name, f, stmts).1 is Ok,
    ensures
        count_of(m.lower_function(name, f, stmts).0.jumps, m.label_counter) == count_of(
            m.jumps,
            m.label_counter,
        ) + returns_among(stmts, 0),
{
    match register_size(f.return_type) {
        Err(_) => {},
        Ok(size) => {
            let (m1, r1) = m.bind_global(name, TypeView::Function(Box::new(f)));
            if r1 is Ok {
                let (m2, r2) = m1.place_fn_label(name).fresh_label();
                if r2 is Ok {
                    let n = r2->Ok_0;
                    let entered = m2.with_return(Some(n), size).enter();
                    let start = entered.emit(InstrView::Push("RBP"@)).emit(
                        InstrView::Mov("RBP"@, "RSP"@),
                    );
                    lemma_params(start, f.args, 0);
                    let (m3, r3) = start.bind_params(f.args, 0);
                    if r3 is Ok {
                        lemma_returns_statements(m3, stmts, 0, n);
                    }
                }
            }
        },
    }
}

/// No register holds a parameter of the function that is being generated.
pub open spec fn no_parameter_held(m: GeneratorView) -> bool {
    forall|i: int| 0 <= i < m.arg_regs.len() ==> !(#[trigger] m.arg_regs[i])
}

/// The arguments of a call that go into registers, one position at a time.
/// Where no register holds a parameter, the argument at position `i` of the
/// first six is computed, and then one instruction moves it into the
/// register of that position, named at the width of the value: nothing is
/// saved, and no other register receives the argument. The same then holds
/// of the next position.
pub proof fn lemma_register_argument(m: GeneratorView, x: &FuncCallExpr, i: int, pushed: Seq<Register>)
    requires
        m.wf(),
        no_parameter_held(m),
        0 <= i < NUM_ARG_REGS,
        i < x.args@.len(),
        m.lower_value(&x.args@[i]).1 is Ok,
    ensures
        ({
            let (m1, r1) = m.lower_value(&x.args@[i]);
            let value = r1->Ok_0.reg;
            let moved = m1.emit(
                InstrView::Mov(sized(arg_register_at(i), value.size), value.text()),
            ).release(value.reg);
            &&& m.lower_reg_args(x, i, pushed) == moved.lower_reg_args(x, i + 1, pushed)
            &&& moved.wf()
            &&& no_parameter_held(moved)
            &&& moved.taken == m.taken
            &&& moved.stack == m.stack
        }),
{
    lemma_value_returns_its_loans(m, &x.args@[i]);
    lemma_value_keeps_the_rest(m, &x.args@[i]);
    let (m1, r1) = m.lower_value(&x.args@[i]);
    let value = r1->Ok_0.reg;
    let moved = m1.emit(
        InstrView::Mov(sized(arg_register_at(i), value.size), value.text()),
    ).release(value.reg);
    assert(!m1.arg_regs[arg_register_at(i).index()]);
    assert(moved.taken =~= m.taken);
}

/// Where no register holds a parameter, the register arguments of a call
/// save nothing: no register is pushed before the call, so none is popped
/// after it.
pub proof fn lemma_register_arguments_save_nothing(
    m: GeneratorView,
    x: &FuncCallExpr,
    i: int,
    pushed: Seq<Register>,
)
    requires
        m.wf(),
        no_parameter_held(m),
    ensures
        m.lower_reg_args(x, i, pushed).1 matches Ok(saved) ==> saved == pushed
            && m.lower_reg_args(x, i, pushed).0.stack == m.stack,
    decreases NUM_ARG_REGS - i,
{
    if !(i < 0 || i >= NUM_ARG_REGS || i >= x.args@.len()) {
        if m.lower_value(&x.args@[i]).1 is Ok {
            lemma_register_argument(m, x, i, pushed);
            let (m1, r1) = m.lower_value(&x.args@[i]);
            let value = r1->Ok_0.reg;
            let moved = m1.emit(
                InstrView::Mov(sized(arg_register_at(i), value.size), value.text()),
            ).release(value.reg);
            lemma_register_arguments_save_nothing(moved, x, i + 1, pushed);
        }
    }
}

/// The arguments of a call that go onto the stack, and what becomes of them.
/// Of a call that is lowered to its end: the arguments behind the sixth are
/// pushed, eight bytes each, and what their pushes add to the stack is
/// eight bytes for each of them, neither more nor fewer; a call of at most
/// six arguments pushes none and writes nothing for them. After the call the
/// stack is as deep as it was before the first argument: what was pushed for
/// the arguments, and what was pushed to save registers, is taken off again.
pub proof fn lemma_call_takes_off_what_it_pushed(m: GeneratorView, x: &FuncCallExpr)
    requires
        m.wf(),
        m.lower_call(x).1 is Ok,
    ensures
        ({
            let count = x.args@.len() as int;
            let (m1, r1) = m.lower_reg_args(x, 0, Seq::empty());
            let (m2, r2) = m1.lower_stack_args(x, count);
            &&& r1 is Ok
            &&& r2 is Ok
            &&& m1.stack == m.stack + 8 * r1->Ok_0.len()
            &&& m2.stack == m1.stack + 8 * (if count > NUM_ARG_REGS {
                count - NUM_ARG_REGS
            } else {
                0
            })
            &&& count <= NUM_ARG_REGS ==> m2 == m1
            &&& m.lower_call(x).0.stack == m.stack
        }),
{
    lemma_reg_args(m, x, 0, Seq::empty());
    lemma_reg_args_keep(m, x, 0, Seq::empty());
    let (m1, r1) = m.lower_reg_args(x, 0, Seq::empty());
    if r1 is Ok {
        lemma_stack_args_keep(m1, x, x.args@.len() as int);
    }
    lemma_call_keeps(m, x);
}

/// An expression that is lowered to its end leaves the stack as deep as it
/// found it: whatever its code pushes, its code takes off again.
pub proof fn lemma_expr_leaves_the_stack(m: GeneratorView, e: &Expression)
    requires
        m.wf(),
        m.lower_expr(e).1 is Ok,
    ensures
        m.lower_expr(e).0.stack == m.stack,
{
    lemma_expr_keeps_the_rest(m, e);
}

} // verus!
