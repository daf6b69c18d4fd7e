//! Lowering of expressions: the instructions that compute an expression's
//! value into a scratch register.

use vstd::prelude::*;
use vstd::string::*;
use crate::ast::expressions::BinaryExpr;
use crate::ast::expressions::CastExpr;
use crate::ast::expressions::Expression;
use crate::ast::expressions::FuncCallExpr;
use crate::ast::expressions::TernaryExpr;
use crate::ast::expressions::UnaryExpr;
use crate::ast::types::Type;
use crate::ast::types::TypeView;
use crate::codegen::error::CodegenError;
use crate::codegen::error::Malformed;
use crate::codegen::error::Unsupported;
use crate::codegen::x86_64::helpers::get_size;
use crate::codegen::x86_64::helpers::register_size;
use crate::codegen::x86_64::instance::GeneratorInstance;
use crate::codegen::x86_64::instance::GeneratorView;
use crate::codegen::x86_64::instance::Scratch;
use crate::codegen::x86_64::instructions::Instr;
use crate::codegen::x86_64::instructions::InstrView;
use crate::codegen::x86_64::registers::arg_register;
use crate::codegen::x86_64::registers::arg_register_at;
use crate::codegen::x86_64::registers::Register;
use crate::codegen::x86_64::registers::RegisterSize;
use crate::codegen::x86_64::registers::SizedRegister;
use crate::codegen::x86_64::registers::NUM_ARG_REGS;
use crate::text::decimal;
use crate::text::decimal_string;

verus! {

/// The six comparisons, which are lowered alike but for the jump.
#[derive(Debug, Clone, Copy, PartialEq, Eq, Structural)]
pub enum ComparisonType {
    Eq,
    Ne,
    Lt,
    Gt,
    Le,
    Ge,
}

/// The binary operations that one instruction computes in place.
#[derive(Debug, Clone, Copy, PartialEq, Eq, Structural)]
pub enum ArithOp {
    Or,
    Xor,
    And,
    Add,
    Sub,
    Mul,
}

/// The unary operations that one instruction computes in place.
#[derive(Debug, Clone, Copy, PartialEq, Eq, Structural)]
pub enum UnaryOp {
    Neg,
    Not,
}

/// The state after a lowering, and the loan that holds the value or the
/// reason why there is none.
pub type Lowered = (GeneratorView, Result<Scratch, CodegenError>);

/// A lowering that gave up in state `m`.
pub open spec fn fail<T>(m: GeneratorView, e: CodegenError) -> (
    GeneratorView,
    Result<T, CodegenError>,
) {
    (m, Err(e))
}

/// The register `reg` at width `size`, as it is written.
pub open spec fn sized(reg: Register, size: RegisterSize) -> Seq<char> {
    SizedRegister { reg, size }.text()
}

impl ComparisonType {
    /// The jump that is taken when the comparison holds.
    pub open spec fn jump(self, label: u64) -> InstrView {
        match self {
            ComparisonType::Eq => InstrView::Je(label),
            ComparisonType::Ne => InstrView::Jne(label),
            ComparisonType::Lt => InstrView::Jl(label),
            ComparisonType::Gt => InstrView::Jg(label),
            ComparisonType::Le => InstrView::Jle(label),
            ComparisonType::Ge => InstrView::Jge(label),
        }
    }

    /// The jump that is taken when the comparison holds.
    pub fn jump_instr(&self, label: u64) -> (r: Instr)
        ensures
            r@ == self.jump(label),
    {
        match self {
            ComparisonType::Eq => Instr::Je(label),
            ComparisonType::Ne => Instr::Jne(label),
            ComparisonType::Lt => Instr::Jl(label),
            ComparisonType::Gt => Instr::Jg(label),
            ComparisonType::Le => Instr::Jle(label),
            ComparisonType::Ge => Instr::Jge(label),
        }
    }
}

impl ArithOp {
    /// The instruction that computes the operation on `a` and `b` into `a`.
    pub open spec fn instr(self, a: Seq<char>, b: Seq<char>) -> InstrView {
        match self {
            ArithOp::Or => InstrView::Or(a, b),
            ArithOp::Xor => InstrView::Xor(a, b),
            ArithOp::And => InstrView::And(a, b),
            ArithOp::Add => InstrView::Add(a, b),
            ArithOp::Sub => InstrView::Sub(a, b),
            ArithOp::Mul => InstrView::Imul(a, b),
        }
    }

    /// The instruction that computes the operation on `a` and `b` into `a`.
    pub fn make(&self, a: String, b: String) -> (r: Instr)
        ensures
            r@ == self.instr(a@, b@),
    {
        match self {
            ArithOp::Or => Instr::Or(a, b),
            ArithOp::Xor => Instr::Xor(a, b),
            ArithOp::And => Instr::And(a, b),
            ArithOp::Add => Instr::Add(a, b),
            ArithOp::Sub => Instr::Sub(a, b),
            ArithOp::Mul => Instr::Imul(a, b),
        }
    }
}

impl UnaryOp {
    /// The instruction that computes the operation on `a` in place.
    pub open spec fn instr(self, a: Seq<char>) -> InstrView {
        match self {
            UnaryOp::Neg => InstrView::Neg(a),
            UnaryOp::Not => InstrView::Not(a),
        }
    }

    /// The instruction that computes the operation on `a` in place.
    pub fn make(&self, a: String) -> (r: Instr)
        ensures
            r@ == self.instr(a@),
    {
        match self {
            UnaryOp::Neg => Instr::Neg(a),
            UnaryOp::Not => Instr::Not(a),
        }
    }
}

impl GeneratorView {
    /// Lowers an expression. On success one more register is on loan: the
    /// one that holds the value. On failure the loans are what they were
    /// before, whatever had been lent on the way.
    pub open spec fn lower_expr(self, e: &Expression) -> Lowered
        decreases e, 1nat,
    {
        let (m, r) = self.lower_raw(e);
        if r is Err {
            (m.with_pool(self.taken), r)
        } else {
            (m, r)
        }
    }

    /// Lowers an expression whose value is put to use: a value of type
    /// `Void` will not do.
    pub open spec fn lower_value(self, e: &Expression) -> Lowered
        decreases e, 2nat,
    {
        let (m, r) = self.lower_expr(e);
        if r is Ok && r->Ok_0.reg.size is Void {
            fail(m.release(r->Ok_0.reg.reg), CodegenError::Malformed(Malformed::VoidValue))
        } else {
            (m, r)
        }
    }

    /// Lowers the two operands of a binary expression, the first one first.
    pub open spec fn lower_operands(self, x: &BinaryExpr) -> (
        GeneratorView,
        Result<(Scratch, Scratch), CodegenError>,
    )
        decreases x, 0nat,
    {
        let (m1, r1) = self.lower_value(&x.first);
        if r1 is Err {
            fail(m1, r1->Err_0)
        } else {
            let (m2, r2) = m1.lower_value(&x.second);
            if r2 is Err {
                fail(m2, r2->Err_0)
            } else {
                (m2, Ok((r1->Ok_0, r2->Ok_0)))
            }
        }
    }

    /// Loads a number into a fresh register.
    pub open spec fn lower_literal(self, size: RegisterSize, n: nat) -> Lowered {
        let (m, r) = self.lease(size);
        if r is Err {
            (m, r)
        } else {
            (m.emit(InstrView::Mov(r->Ok_0.reg.text(), decimal(n))), r)
        }
    }

    /// Loads a variable into a fresh register of the width of its type.
    pub open spec fn lower_identifier(self, name: Seq<char>) -> Lowered {
        match self.lookup(name) {
            None => fail(self, CodegenError::Malformed(Malformed::UndefinedSymbol)),
            Some(var) => match register_size(var.type_of) {
                Err(e) => fail(self, e),
                Ok(size) => if size is Void {
                    fail(self, CodegenError::Malformed(Malformed::VoidValue))
                } else {
                    let (m, r) = self.lease(size);
                    if r is Err {
                        (m, r)
                    } else {
                        (m.emit(InstrView::Mov(r->Ok_0.reg.text(), var.asm_rep)), r)
                    }
                },
            },
        }
    }

    /// `name = value`: the value is computed and stored at the name's
    /// operand; the register that holds it is the value of the whole.
    pub open spec fn lower_assignment(self, x: &BinaryExpr) -> Lowered
        decreases x, 1nat,
    {
        match x.first {
            Expression::Identifier(id) => match self.lookup(id@) {
                None => fail(self, CodegenError::Malformed(Malformed::UndefinedSymbol)),
                Some(var) => {
                    let (m, r) = self.lower_value(&x.second);
                    if r is Err {
                        (m, r)
                    } else {
                        (m.emit(InstrView::Mov(var.asm_rep, r->Ok_0.reg.text())), r)
                    }
                },
            },
            _ => fail(self, CodegenError::Unsupported(Unsupported::AssignmentTarget)),
        }
    }

    /// `c ? t : f`: the condition is held against zero; on zero a jump goes
    /// to the second arm. Both arms move their value into one register,
    /// which is the value of the whole. That register is lent at the width
    /// of the first arm, and both arms are moved at that width.
    pub open spec fn lower_ternary(self, x: &TernaryExpr) -> Lowered
        decreases x, 0nat,
    {
        let (m1, r1) = self.lower_value(&x.condition);
        if r1 is Err {
            (m1, r1)
        } else {
            let condition = r1->Ok_0;
            let (m2, r2) = m1.fresh_label();
            if r2 is Err {
                fail(m2, r2->Err_0)
            } else {
                let to_branch = r2->Ok_0;
                let (m3, r3) = m2.fresh_label();
                if r3 is Err {
                    fail(m3, r3->Err_0)
                } else {
                    let to_end = r3->Ok_0;
                    let (m4, r4) = m3.emit(InstrView::Cmp(condition.reg.text(), "0"@)).emit(
                        InstrView::Je(to_branch),
                    ).lower_value(&x.true_expr);
                    if r4 is Err {
                        (m4, r4)
                    } else {
                        let if_t = r4->Ok_0;
                        let (m5, r5) = m4.lease(if_t.reg.size);
                        if r5 is Err {
                            (m5, r5)
                        } else {
                            let result = r5->Ok_0;
                            let (m6, r6) = m5.emit(
                                InstrView::Mov(result.reg.text(), if_t.reg.text()),
                            ).emit(InstrView::Jmp(to_end)).place_label(to_branch).lower_value(
                                &x.false_expr,
                            );
                            if r6 is Err {
                                (m6, r6)
                            } else {
                                let if_f = r6->Ok_0;
                                (
                                    m6.emit(
                                        InstrView::Mov(
                                            result.reg.text(),
                                            sized(if_f.reg.reg, result.reg.size),
                                        ),
                                    ).place_label(to_end).release(if_f.reg.reg).release(
                                        if_t.reg.reg,
                                    ).release(condition.reg.reg),
                                    r5,
                                )
                            }
                        }
                    }
                }
            }
        }
    }

    /// `a || b` and `a && b`, with the second operand looked at only where
    /// the first does not decide. Three labels serve: where the outcome is
    /// true, where it is false, and the end. The first operand is computed
    /// and held against zero; where it decides, a jump goes past the code of
    /// the second operand, which is computed and held against zero behind
    /// that jump. The outcome, 1 or 0, stands in a fresh byte register.
    pub open spec fn lower_logical(self, x: &BinaryExpr, is_or: bool) -> Lowered
        decreases x, 1nat,
    {
        let (m1, r1) = self.lower_value(&x.first);
        if r1 is Err {
            (m1, r1)
        } else {
            let a = r1->Ok_0;
            let (m2, r2) = m1.fresh_label();
            if r2 is Err {
                fail(m2, r2->Err_0)
            } else {
                let to_true = r2->Ok_0;
                let (m3, r3) = m2.fresh_label();
                if r3 is Err {
                    fail(m3, r3->Err_0)
                } else {
                    let to_false = r3->Ok_0;
                    let (m4, r4) = m3.fresh_label();
                    if r4 is Err {
                        fail(m4, r4->Err_0)
                    } else {
                        let to_end = r4->Ok_0;
                        let first_jump = if is_or {
                            InstrView::Jne(to_true)
                        } else {
                            InstrView::Je(to_false)
                        };
                        let (m5, r5) = m4.emit(InstrView::Cmp(a.reg.text(), "0"@)).emit(
                            first_jump,
                        ).lower_value(&x.second);
                        if r5 is Err {
                            (m5, r5)
                        } else {
                            let b = r5->Ok_0;
                            let (m6, r6) = m5.emit(InstrView::Cmp(b.reg.text(), "0"@)).emit(
                                InstrView::Je(to_false),
                            ).lease(RegisterSize::Byte);
                            if r6 is Err {
                                (m6, r6)
                            } else {
                                let result = r6->Ok_0;
                                (
                                    m6.place_label(to_true).emit(
                                        InstrView::Mov(result.reg.text(), "1"@),
                                    ).emit(InstrView::Jmp(to_end)).place_label(to_false).emit(
                                        InstrView::Mov(result.reg.text(), "0"@),
                                    ).place_label(to_end).release(b.reg.reg).release(a.reg.reg),
                                    r6,
                                )
                            }
                        }
                    }
                }
            }
        }
    }

    /// A comparison: the operands are compared, and a jump on the condition
    /// decides between 0 and 1 in a fresh byte register.
    pub open spec fn lower_comparison(self, x: &BinaryExpr, cmp: ComparisonType) -> Lowered
        decreases x, 1nat,
    {
        let (m1, r1) = self.lower_operands(x);
        if r1 is Err {
            fail(m1, r1->Err_0)
        } else {
            let (a, b) = r1->Ok_0;
            let (m2, r2) = m1.lease(RegisterSize::Byte);
            if r2 is Err {
                (m2, r2)
            } else {
                let result = r2->Ok_0;
                let (m3, r3) = m2.fresh_label();
                if r3 is Err {
                    fail(m3, r3->Err_0)
                } else {
                    let to_branch = r3->Ok_0;
                    let (m4, r4) = m3.fresh_label();
                    if r4 is Err {
                        fail(m4, r4->Err_0)
                    } else {
                        let to_end = r4->Ok_0;
                        (
                            m4.emit(InstrView::Cmp(a.reg.text(), b.reg.text())).emit(
                                cmp.jump(to_branch),
                            ).emit(InstrView::Mov(result.reg.text(), "0"@)).emit(
                                InstrView::Jmp(to_end),
                            ).place_label(to_branch).emit(
                                InstrView::Mov(result.reg.text(), "1"@),
                            ).place_label(to_end).release(b.reg.reg).release(a.reg.reg),
                            r2,
                        )
                    }
                }
            }
        }
    }

    /// An operation that one instruction computes into its first operand,
    /// whose register then holds the value of the whole.
    pub open spec fn lower_arith(self, x: &BinaryExpr, op: ArithOp) -> Lowered
        decreases x, 1nat,
    {
        let (m1, r1) = self.lower_operands(x);
        if r1 is Err {
            fail(m1, r1->Err_0)
        } else {
            let (a, b) = r1->Ok_0;
            (m1.emit(op.instr(a.reg.text(), b.reg.text())).release(b.reg.reg), Ok(a))
        }
    }

    /// Division and remainder: the dividend goes into the accumulator and
    /// is sign-extended into the data register, which is saved around the
    /// division; the quotient comes out of the accumulator, the remainder
    /// out of the data register.
    pub open spec fn lower_division(self, x: &BinaryExpr, remainder: bool) -> Lowered
        decreases x, 1nat,
    {
        let (m1, r1) = self.lower_operands(x);
        if r1 is Err {
            fail(m1, r1->Err_0)
        } else {
            let (a, b) = r1->Ok_0;
            let rax = sized(Register::Rax, a.reg.size);
            let rdx = sized(Register::Rdx, a.reg.size);
            (
                m1.push("RDX"@).emit(InstrView::Mov(rax, a.reg.text())).emit(
                    InstrView::Cqo,
                ).emit(InstrView::Idiv(b.reg.text())).emit(
                    InstrView::Mov(
                        a.reg.text(),
                        if remainder {
                            rdx
                        } else {
                            rax
                        },
                    ),
                ).pop("RDX"@).release(b.reg.reg),
                Ok(a),
            )
        }
    }

    /// A cast: to a wider type the value is sign-extended within its
    /// register; to a narrower one the register is read at the smaller
    /// width and nothing is emitted.
    pub open spec fn lower_cast(self, x: &CastExpr) -> Lowered
        decreases x, 0nat,
    {
        let (m1, r1) = self.lower_value(&x.expr);
        if r1 is Err {
            (m1, r1)
        } else {
            let old = r1->Ok_0.reg;
            match register_size(x.cast_to@) {
                Err(e) => fail(m1, e),
                Ok(size) => {
                    let new = SizedRegister { reg: old.reg, size };
                    (
                        if size.bytes() > old.size.bytes() {
                            m1.emit(InstrView::Movsx(new.text(), old.text()))
                        } else {
                            m1
                        },
                        Ok(Scratch { reg: new }),
                    )
                },
            }
        }
    }

    /// `&name`: the address of the name's operand is loaded into a fresh
    /// register of pointer width.
    pub open spec fn lower_address_of(self, x: &UnaryExpr) -> Lowered {
        match x.expr {
            Expression::Identifier(name) => {
                let (m1, r1) = self.lease(RegisterSize::QWord);
                if r1 is Err {
                    (m1, r1)
                } else {
                    match m1.lookup(name@) {
                        None => fail(m1, CodegenError::Malformed(Malformed::UndefinedSymbol)),
                        Some(var) => (
                            m1.emit(InstrView::Lea(r1->Ok_0.reg.text(), var.asm_rep)),
                            r1,
                        ),
                    }
                }
            },
            Expression::Dereference(_) => fail(
                self,
                CodegenError::Unsupported(Unsupported::AddressOfTarget),
            ),
            Expression::ArrayIndex(_) => fail(
                self,
                CodegenError::Unsupported(Unsupported::AddressOfTarget),
            ),
            _ => fail(self, CodegenError::Malformed(Malformed::AddressOfNonLvalue)),
        }
    }

    /// `*p`: the register that holds the address is loaded through itself.
    pub open spec fn lower_dereference(self, x: &UnaryExpr) -> Lowered
        decreases x, 0nat,
    {
        let (m1, r1) = self.lower_value(&x.expr);
        if r1 is Err {
            (m1, r1)
        } else {
            let a = r1->Ok_0.reg.text();
            (m1.emit(InstrView::Mov(a, "["@ + a + "]"@)), r1)
        }
    }

    /// An operation that one instruction computes on its operand in place.
    pub open spec fn lower_unary(self, x: &UnaryExpr, op: UnaryOp) -> Lowered
        decreases x, 0nat,
    {
        let (m1, r1) = self.lower_value(&x.expr);
        if r1 is Err {
            (m1, r1)
        } else {
            (m1.emit(op.instr(r1->Ok_0.reg.text())), r1)
        }
    }

    /// `!a`: the operand is held against zero and replaced by 1 if it was
    /// zero and by 0 if it was not.
    pub open spec fn lower_logical_not(self, x: &UnaryExpr) -> Lowered
        decreases x, 0nat,
    {
        let (m1, r1) = self.lower_value(&x.expr);
        if r1 is Err {
            (m1, r1)
        } else {
            let a = r1->Ok_0.reg.text();
            let (m2, r2) = m1.fresh_label();
            if r2 is Err {
                fail(m2, r2->Err_0)
            } else {
                let to_branch = r2->Ok_0;
                let (m3, r3) = m2.fresh_label();
                if r3 is Err {
                    fail(m3, r3->Err_0)
                } else {
                    let to_end = r3->Ok_0;
                    (
                        m3.emit(InstrView::Cmp(a, "0"@)).emit(InstrView::Je(to_branch)).emit(
                            InstrView::Mov(a, "0"@),
                        ).emit(InstrView::Jmp(to_end)).place_label(to_branch).emit(
                            InstrView::Mov(a, "1"@),
                        ).place_label(to_end),
                        r1,
                    )
                }
            }
        }
    }

    /// Moves the arguments from position `i` up to the sixth into their
    /// registers, each right after it is computed. A register that holds a
    /// parameter of the function being generated is pushed before it is
    /// overwritten. Yields `pushed` with the registers pushed here behind it.
    pub open spec fn lower_reg_args(self, x: &FuncCallExpr, i: int, pushed: Seq<Register>) -> (
        GeneratorView,
        Result<Seq<Register>, CodegenError>,
    )
        decreases x, NUM_ARG_REGS - i,
    {
        if i < 0 || i >= NUM_ARG_REGS || i >= x.args@.len() {
            (self, Ok(pushed))
        } else {
            let (m1, r1) = self.lower_value(&x.args@[i]);
            if r1 is Err {
                fail(m1, r1->Err_0)
            } else {
                let value = r1->Ok_0.reg;
                let dest = arg_register_at(i);
                let m2 = if m1.arg_regs[dest.index()] {
                    m1.push(sized(dest, RegisterSize::QWord))
                } else {
                    m1
                };
                let now_pushed = if m1.arg_regs[dest.index()] {
                    pushed.push(dest)
                } else {
                    pushed
                };
                m2.emit(InstrView::Mov(sized(dest, value.size), value.text())).release(
                    value.reg,
                ).lower_reg_args(x, i + 1, now_pushed)
            }
        }
    }

    /// Pushes the arguments from the last down to the seventh, each right
    /// after it is computed, at the full width of its register. `i` is the
    /// number of arguments that are still to be looked at.
    pub open spec fn lower_stack_args(self, x: &FuncCallExpr, i: int) -> (
        GeneratorView,
        Result<(), CodegenError>,
    )
        decreases x, i,
    {
        if i <= NUM_ARG_REGS || i > x.args@.len() {
            (self, Ok(()))
        } else {
            let (m1, r1) = self.lower_value(&x.args@[i - 1]);
            if r1 is Err {
                fail(m1, r1->Err_0)
            } else {
                let value = r1->Ok_0.reg;
                m1.push(sized(value.reg, RegisterSize::QWord)).release(
                    value.reg,
                ).lower_stack_args(x, i - 1)
            }
        }
    }

    /// Pops the first `k` of the pushed registers, the last of them first.
    pub open spec fn emit_pops(self, pushed: Seq<Register>, k: int) -> GeneratorView
        decreases k,
    {
        if k <= 0 || k > pushed.len() {
            self
        } else {
            self.pop(sized(pushed[k - 1], RegisterSize::QWord)).emit_pops(
                pushed,
                k - 1,
            )
        }
    }

    /// What follows the arguments of a call: the call itself, the stack
    /// pointer raised by eight bytes for each argument that was pushed, the
    /// saved registers popped, and the result taken from the accumulator at
    /// the width of the return type, unless that is `Void`.
    pub open spec fn finish_call(
        self,
        callee: Seq<char>,
        return_type: TypeView,
        count: nat,
        pushed: Seq<Register>,
    ) -> Lowered {
        let m1 = self.emit(InstrView::Call(callee));
        let m2 = if count > NUM_ARG_REGS {
            m1.free_stack(((count - NUM_ARG_REGS) * 8) as nat)
        } else {
            m1
        };
        let m3 = m2.emit_pops(pushed, pushed.len() as int);
        match register_size(return_type) {
            Err(e) => fail(m3, e),
            Ok(size) => {
                let (m4, r4) = m3.lease(size);
                if r4 is Err {
                    (m4, r4)
                } else if return_type is Void {
                    (m4, r4)
                } else {
                    (
                        m4.emit(InstrView::Mov(r4->Ok_0.reg.text(), sized(Register::Rax, size))),
                        r4,
                    )
                }
            },
        }
    }

    /// A call of a named function: the first six arguments go into the
    /// argument registers in their order, the others onto the stack from the
    /// last to the seventh.
    pub open spec fn lower_call(self, x: &FuncCallExpr) -> Lowered
        decreases x, x.args@.len() + NUM_ARG_REGS + 1,
    {
        match x.func {
            Expression::Identifier(name) => match self.lookup(name@) {
                None => fail(self, CodegenError::Malformed(Malformed::UndefinedSymbol)),
                Some(var) => match var.type_of {
                    TypeView::Function(f) => {
                        let (m1, r1) = self.lower_reg_args(x, 0, Seq::empty());
                        if r1 is Err {
                            fail(m1, r1->Err_0)
                        } else {
                            let (m2, r2) = m1.lower_stack_args(x, x.args@.len() as int);
                            if r2 is Err {
                                fail(m2, r2->Err_0)
                            } else {
                                m2.finish_call(
                                    var.asm_rep,
                                    f.return_type,
                                    x.args@.len(),
                                    r1->Ok_0,
                                )
                            }
                        }
                    },
                    _ => fail(self, CodegenError::Malformed(Malformed::CalleeNotFunction)),
                },
            },
            _ => fail(self, CodegenError::Malformed(Malformed::CalleeNotIdentifier)),
        }
    }

    /// Lowers an expression, without setting the loans back on failure.
    pub open spec fn lower_raw(self, e: &Expression) -> Lowered
        decreases e, 0nat,
    {
        match e {
            Expression::Assignment(x) => self.lower_assignment(x),
            Expression::Ternary(x) => self.lower_ternary(x),
            Expression::LogicalOr(x) => self.lower_logical(x, true),
            Expression::LogicalAnd(x) => self.lower_logical(x, false),
            Expression::BitwiseOr(x) => self.lower_arith(x, ArithOp::Or),
            Expression::BitwiseXor(x) => self.lower_arith(x, ArithOp::Xor),
            Expression::BitwiseAnd(x) => self.lower_arith(x, ArithOp::And),
            Expression::Equality(x) => self.lower_comparison(x, ComparisonType::Eq),
            Expression::Inequality(x) => self.lower_comparison(x, ComparisonType::Ne),
            Expression::LTCompare(x) => self.lower_comparison(x, ComparisonType::Lt),
            Expression::GTCompare(x) => self.lower_comparison(x, ComparisonType::Gt),
            Expression::LECompare(x) => self.lower_comparison(x, ComparisonType::Le),
            Expression::GECompare(x) => self.lower_comparison(x, ComparisonType::Ge),
            Expression::ShiftLeft(_) => fail(
                self,
                CodegenError::Unsupported(Unsupported::BitShift),
            ),
            Expression::ShiftRight(_) => fail(
                self,
                CodegenError::Unsupported(Unsupported::BitShift),
            ),
            Expression::Add(x) => self.lower_arith(x, ArithOp::Add),
            Expression::Subtract(x) => self.lower_arith(x, ArithOp::Sub),
            Expression::Multiply(x) => self.lower_arith(x, ArithOp::Mul),
            Expression::Divide(x) => self.lower_division(x, false),
            Expression::Modulo(x) => self.lower_division(x, true),
            Expression::Cast(x) => self.lower_cast(x),
            Expression::PreInc(_) => fail(
                self,
                CodegenError::Unsupported(Unsupported::Increment),
            ),
            Expression::PreDec(_) => fail(
                self,
                CodegenError::Unsupported(Unsupported::Increment),
            ),
            Expression::PostInc(_) => fail(
                self,
                CodegenError::Unsupported(Unsupported::Increment),
            ),
            Expression::PostDec(_) => fail(
                self,
                CodegenError::Unsupported(Unsupported::Increment),
            ),
            Expression::AddressOf(x) => self.lower_address_of(x),
            Expression::Dereference(x) => self.lower_dereference(x),
            Expression::Negate(x) => self.lower_unary(x, UnaryOp::Neg),
            Expression::BitwiseNot(x) => self.lower_unary(x, UnaryOp::Not),
            Expression::LogicalNot(x) => self.lower_logical_not(x),
            Expression::SizeOf(_) => fail(self, CodegenError::Unsupported(Unsupported::SizeOf)),
            Expression::ArrayIndex(_) => fail(
                self,
                CodegenError::Unsupported(Unsupported::ArrayIndex),
            ),
            Expression::FuncCall(x) => self.lower_call(x),
            Expression::Identifier(name) => self.lower_identifier(name@),
            Expression::IntLiteral(n) => self.lower_literal(RegisterSize::DWord, *n as nat),
            Expression::CharLiteral(c) => self.lower_literal(RegisterSize::Byte, *c as nat),
            Expression::StringLiteral(_) => fail(
                self,
                CodegenError::Unsupported(Unsupported::StringLiteral),
            ),
        }
    }
}

/// The text of the number zero.
fn zero() -> (r: String)
    ensures
        r@ == "0"@,
{
    String::from_str("0")
}

/// The text of the number one.
fn one() -> (r: String)
    ensures
        r@ == "1"@,
{
    String::from_str("1")
}

/// The register `reg` at width `size`, as it is written.
fn sized_name(reg: Register, size: RegisterSize) -> (r: String)
    requires
        !(size is Void),
    ensures
        r@ == sized(reg, size),
{
    SizedRegister { reg, size }.to_string()
}

impl GeneratorInstance {
    /// Lowers an expression whose value is put to use: the loan that comes
    /// back is never of width `Void`.
    pub fn gen_value(&mut self, expr: &Expression) -> (r: Result<Scratch, CodegenError>)
        requires
            old(self).wf(),
        ensures
            final(self).wf(),
            (final(self)@, r) == old(self)@.lower_value(expr),
            r matches Ok(s) ==> !(s.reg.size is Void),
        decreases expr, 2nat,
    {
        let scratch = self.gen_expr(expr)?;
        match scratch.reg.size {
            RegisterSize::Void => {
                self.free_scratch(scratch);
                Err(CodegenError::Malformed(Malformed::VoidValue))
            },
            _ => Ok(scratch),
        }
    }

    /// Lowers the two operands of a binary expression, the first one first.
    pub fn get_binary_scratches(&mut self, args: &BinaryExpr) -> (r: Result<
        (Scratch, Scratch),
        CodegenError,
    >)
        requires
            old(self).wf(),
        ensures
            final(self).wf(),
            (final(self)@, r) == old(self)@.lower_operands(args),
            r matches Ok(pair) ==> !(pair.0.reg.size is Void) && !(pair.1.reg.size is Void),
        decreases args, 0nat,
    {
        let a = self.gen_value(&args.first)?;
        let b = self.gen_value(&args.second)?;
        Ok((a, b))
    }

    /// Lowers one of the six comparisons.
    pub fn gen_comparison(&mut self, args: &BinaryExpr, cmp: ComparisonType) -> (r: Result<
        Scratch,
        CodegenError,
    >)
        requires
            old(self).wf(),
        ensures
            final(self).wf(),
            (final(self)@, r) == old(self)@.lower_comparison(args, cmp),
        decreases args, 1nat,
    {
        let (a, b) = self.get_binary_scratches(args)?;
        let result = self.alloc_scratch(RegisterSize::Byte)?;
        let to_branch = self.new_label()?;
        let to_end = self.new_label()?;
        self.add_instr(Instr::Cmp(a.reg.to_string(), b.reg.to_string()));
        self.add_instr(cmp.jump_instr(to_branch));
        self.add_instr(Instr::Mov(result.reg.to_string(), zero()));
        self.add_instr(Instr::Jmp(to_end));
        self.add_label(to_branch);
        self.add_instr(Instr::Mov(result.reg.to_string(), one()));
        self.add_label(to_end);
        self.free_scratch(b);
        self.free_scratch(a);
        Ok(result)
    }

    /// Lowers `a || b` (with `is_or`) or `a && b` (without). The code of the
    /// second operand stands behind the jump that the first operand takes
    /// where it decides, so that it runs only where it is needed.
    fn gen_logical(&mut self, args: &BinaryExpr, is_or: bool) -> (r: Result<Scratch, CodegenError>)
        requires
            old(self).wf(),
        ensures
            final(self).wf(),
            (final(self)@, r) == old(self)@.lower_logical(args, is_or),
        decreases args, 1nat,
    {
        let a = self.gen_value(&args.first)?;
        let to_true = self.new_label()?;
        let to_false = self.new_label()?;
        let to_end = self.new_label()?;
        self.add_instr(Instr::Cmp(a.reg.to_string(), zero()));
        if is_or {
            self.add_instr(Instr::Jne(to_true));
        } else {
            self.add_instr(Instr::Je(to_false));
        }
        let b = self.gen_value(&args.second)?;
        self.add_instr(Instr::Cmp(b.reg.to_string(), zero()));
        self.add_instr(Instr::Je(to_false));
        let result = self.alloc_scratch(RegisterSize::Byte)?;
        self.add_label(to_true);
        self.add_instr(Instr::Mov(result.reg.to_string(), one()));
        self.add_instr(Instr::Jmp(to_end));
        self.add_label(to_false);
        self.add_instr(Instr::Mov(result.reg.to_string(), zero()));
        self.add_label(to_end);
        self.free_scratch(b);
        self.free_scratch(a);
        Ok(result)
    }

    /// Lowers an operation that one instruction computes in place.
    fn gen_arith(&mut self, args: &BinaryExpr, op: ArithOp) -> (r: Result<Scratch, CodegenError>)
        requires
            old(self).wf(),
        ensures
            final(self).wf(),
            (final(self)@, r) == old(self)@.lower_arith(args, op),
        decreases args, 1nat,
    {
        let (a, b) = self.get_binary_scratches(args)?;
        self.add_instr(op.make(a.reg.to_string(), b.reg.to_string()));
        self.free_scratch(b);
        Ok(a)
    }

    /// Lowers a division (without `remainder`) or a remainder (with it).
    fn gen_division(&mut self, args: &BinaryExpr, remainder: bool) -> (r: Result<
        Scratch,
        CodegenError,
    >)
        requires
            old(self).wf(),
        ensures
            final(self).wf(),
            (final(self)@, r) == old(self)@.lower_division(args, remainder),
        decreases args, 1nat,
    {
        let (a, b) = self.get_binary_scratches(args)?;
        let rax = sized_name(Register::Rax, a.reg.size);
        let from = if remainder {
            sized_name(Register::Rdx, a.reg.size)
        } else {
            sized_name(Register::Rax, a.reg.size)
        };
        self.push_operand(String::from_str("RDX"));
        self.add_instr(Instr::Mov(rax, a.reg.to_string()));
        self.add_instr(Instr::Cqo);
        self.add_instr(Instr::Idiv(b.reg.to_string()));
        self.add_instr(Instr::Mov(a.reg.to_string(), from));
        self.pop_operand(String::from_str("RDX"));
        self.free_scratch(b);
        Ok(a)
    }

    /// Lowers an assignment to a name.
    fn gen_assignment(&mut self, x: &BinaryExpr) -> (r: Result<Scratch, CodegenError>)
        requires
            old(self).wf(),
        ensures
            final(self).wf(),
            (final(self)@, r) == old(self)@.lower_assignment(x),
        decreases x, 1nat,
    {
        if let Expression::Identifier(id) = &x.first {
            let symbol = match self.get_symbol(id.as_str()) {
                Some(var) => var.asm_rep,
                None => {
                    return Err(CodegenError::Malformed(Malformed::UndefinedSymbol));
                },
            };
            let scratch = self.gen_value(&x.second)?;
            self.add_instr(Instr::Mov(symbol, scratch.reg.to_string()));
            Ok(scratch)
        } else {
            Err(CodegenError::Unsupported(Unsupported::AssignmentTarget))
        }
    }

    /// Lowers `condition ? true_expr : false_expr`.
    fn gen_ternary(&mut self, x: &TernaryExpr) -> (r: Result<Scratch, CodegenError>)
        requires
            old(self).wf(),
        ensures
            final(self).wf(),
            (final(self)@, r) == old(self)@.lower_ternary(x),
        decreases x, 0nat,
    {
        let condition = self.gen_value(&x.condition)?;
        let to_branch = self.new_label()?;
        let to_end = self.new_label()?;
        self.add_instr(Instr::Cmp(condition.reg.to_string(), zero()));
        self.add_instr(Instr::Je(to_branch));
        let if_t = self.gen_value(&x.true_expr)?;
        let result = self.alloc_scratch(if_t.reg.size)?;
        self.add_instr(Instr::Mov(result.reg.to_string(), if_t.reg.to_string()));
        self.add_instr(Instr::Jmp(to_end));
        self.add_label(to_branch);
        let if_f = self.gen_value(&x.false_expr)?;
        self.add_instr(
            Instr::Mov(result.reg.to_string(), sized_name(if_f.reg.reg, result.reg.size)),
        );
        self.add_label(to_end);
        self.free_scratch(if_f);
        self.free_scratch(if_t);
        self.free_scratch(condition);
        Ok(result)
    }

    /// Lowers a cast.
    fn gen_cast(&mut self, x: &CastExpr) -> (r: Result<Scratch, CodegenError>)
        requires
            old(self).wf(),
        ensures
            final(self).wf(),
            (final(self)@, r) == old(self)@.lower_cast(x),
        decreases x, 0nat,
    {
        let scratch = self.gen_value(&x.expr)?;
        let old_reg = scratch.reg;
        let size = get_size(&x.cast_to)?;
        let new_reg = SizedRegister { reg: old_reg.reg, size };
        if size.width() > old_reg.size.width() {
            self.add_instr(Instr::Movsx(new_reg.to_string(), old_reg.to_string()));
        }
        Ok(Scratch { reg: new_reg })
    }

    /// Lowers `&name`.
    fn gen_address_of(&mut self, x: &UnaryExpr) -> (r: Result<Scratch, CodegenError>)
        requires
            old(self).wf(),
        ensures
            final(self).wf(),
            (final(self)@, r) == old(self)@.lower_address_of(x),
    {
        match &x.expr {
            Expression::Identifier(name) => {
                let reg = self.alloc_scratch(RegisterSize::QWord)?;
                let x_rep = match self.get_symbol(name.as_str()) {
                    Some(var) => var.asm_rep,
                    None => {
                        return Err(CodegenError::Malformed(Malformed::UndefinedSymbol));
                    },
                };
                self.add_instr(Instr::Lea(reg.reg.to_string(), x_rep));
                Ok(reg)
            },
            Expression::Dereference(_) => Err(
                CodegenError::Unsupported(Unsupported::AddressOfTarget),
            ),
            Expression::ArrayIndex(_) => Err(
                CodegenError::Unsupported(Unsupported::AddressOfTarget),
            ),
            _ => Err(CodegenError::Malformed(Malformed::AddressOfNonLvalue)),
        }
    }

    /// Lowers `*p`.
    fn gen_dereference(&mut self, x: &UnaryExpr) -> (r: Result<Scratch, CodegenError>)
        requires
            old(self).wf(),
        ensures
            final(self).wf(),
            (final(self)@, r) == old(self)@.lower_dereference(x),
        decreases x, 0nat,
    {
        let a = self.gen_value(&x.expr)?;
        let name = a.reg.to_string();
        let mut through = String::from_str("[");
        through.append(name.as_str());
        through.append("]");
        self.add_instr(Instr::Mov(name, through));
        Ok(a)
    }

    /// Lowers an operation that one instruction computes on its operand.
    fn gen_unary(&mut self, x: &UnaryExpr, op: UnaryOp) -> (r: Result<Scratch, CodegenError>)
        requires
            old(self).wf(),
        ensures
            final(self).wf(),
            (final(self)@, r) == old(self)@.lower_unary(x, op),
        decreases x, 0nat,
    {
        let a = self.gen_value(&x.expr)?;
        self.add_instr(op.make(a.reg.to_string()));
        Ok(a)
    }

    /// Lowers `!a`.
    fn gen_logical_not(&mut self, x: &UnaryExpr) -> (r: Result<Scratch, CodegenError>)
        requires
            old(self).wf(),
        ensures
            final(self).wf(),
            (final(self)@, r) == old(self)@.lower_logical_not(x),
        decreases x, 0nat,
    {
        let a = self.gen_value(&x.expr)?;
        let to_branch = self.new_label()?;
        let to_end = self.new_label()?;
        self.add_instr(Instr::Cmp(a.reg.to_string(), zero()));
        self.add_instr(Instr::Je(to_branch));
        self.add_instr(Instr::Mov(a.reg.to_string(), zero()));
        self.add_instr(Instr::Jmp(to_end));
        self.add_label(to_branch);
        self.add_instr(Instr::Mov(a.reg.to_string(), one()));
        self.add_label(to_end);
        Ok(a)
    }

    /// Loads a number into a fresh register.
    fn gen_literal(&mut self, size: RegisterSize, n: u64) -> (r: Result<Scratch, CodegenError>)
        requires
            old(self).wf(),
            !(size is Void),
        ensures
            final(self).wf(),
            (final(self)@, r) == old(self)@.lower_literal(size, n as nat),
    {
        let scratch = self.alloc_scratch(size)?;
        self.add_instr(Instr::Mov(scratch.reg.to_string(), decimal_string(n as u128)));
        Ok(scratch)
    }

    /// Loads a variable into a fresh register.
    fn gen_identifier(&mut self, id: &String) -> (r: Result<Scratch, CodegenError>)
        requires
            old(self).wf(),
        ensures
            final(self).wf(),
            (final(self)@, r) == old(self)@.lower_identifier(id@),
    {
        let var = match self.get_symbol(id.as_str()) {
            Some(var) => var,
            None => {
                return Err(CodegenError::Malformed(Malformed::UndefinedSymbol));
            },
        };
        let size = get_size(&var.type_of)?;
        match size {
            RegisterSize::Void => {
                return Err(CodegenError::Malformed(Malformed::VoidValue));
            },
            _ => {},
        }
        let scratch = self.alloc_scratch(size)?;
        self.add_instr(Instr::Mov(scratch.reg.to_string(), var.asm_rep));
        Ok(scratch)
    }

    /// Moves the first six arguments into their registers and reports which
    /// registers it pushed to save them.
    fn gen_reg_args(&mut self, x: &FuncCallExpr) -> (r: Result<Vec<Register>, CodegenError>)
        requires
            old(self).wf(),
        ensures
            final(self).wf(),
            match r {
                Ok(pushed) => (final(self)@, Ok::<Seq<Register>, CodegenError>(pushed@)) == old(
                    self,
                )@.lower_reg_args(x, 0, Seq::empty()),
                Err(e) => (final(self)@, Err::<Seq<Register>, CodegenError>(e)) == old(
                    self,
                )@.lower_reg_args(x, 0, Seq::empty()),
            },
        decreases x, NUM_ARG_REGS,
    {
        let mut pushed: Vec<Register> = Vec::new();
        let mut i: usize = 0;
        while i < NUM_ARG_REGS && i < x.args.len()
            invariant
                self.wf(),
                i <= NUM_ARG_REGS,
                old(self)@.lower_reg_args(x, 0, Seq::empty()) == self@.lower_reg_args(
                    x,
                    i as int,
                    pushed@,
                ),
            decreases NUM_ARG_REGS - i,
        {
            let arg_scratch = self.gen_value(&x.args[i])?;
            let dest = arg_register(i);
            if self.arg_reg_in_use(dest) {
                self.push_operand(sized_name(dest, RegisterSize::QWord));
                pushed.push(dest);
            }
            self.add_instr(
                Instr::Mov(sized_name(dest, arg_scratch.reg.size), arg_scratch.reg.to_string()),
            );
            self.free_scratch(arg_scratch);
            i += 1;
        }
        Ok(pushed)
    }

    /// Pushes the arguments behind the sixth, the last of them first.
    fn gen_stack_args(&mut self, x: &FuncCallExpr) -> (r: Result<(), CodegenError>)
        requires
            old(self).wf(),
        ensures
            final(self).wf(),
            (final(self)@, r) == old(self)@.lower_stack_args(x, x.args@.len() as int),
        decreases x, x.args@.len(),
    {
        let mut i: usize = x.args.len();
        while i > NUM_ARG_REGS
            invariant
                self.wf(),
                i <= x.args.len(),
                old(self)@.lower_stack_args(x, x.args@.len() as int) == self@.lower_stack_args(
                    x,
                    i as int,
                ),
            decreases i,
        {
            let arg_scratch = self.gen_value(&x.args[i - 1])?;
            self.push_operand(sized_name(arg_scratch.reg.reg, RegisterSize::QWord));
            self.free_scratch(arg_scratch);
            i -= 1;
        }
        Ok(())
    }

    /// Emits what follows the arguments of a call.
    fn gen_call_end(
        &mut self,
        callee: String,
        return_type: &Type,
        count: usize,
        pushed: &Vec<Register>,
    ) -> (r: Result<Scratch, CodegenError>)
        requires
            old(self).wf(),
        ensures
            final(self).wf(),
            (final(self)@, r) == old(self)@.finish_call(
                callee@,
                return_type@,
                count as nat,
                pushed@,
            ),
    {
        self.add_instr(Instr::Call(callee));
        if count > NUM_ARG_REGS {
            let bytes_to_pop: u128 = (count as u128 - NUM_ARG_REGS as u128) * 8;
            self.free_stack(bytes_to_pop);
        }
        let ghost before_pops = self@;
        let mut k: usize = pushed.len();
        while k > 0
            invariant
                self.wf(),
                k <= pushed.len(),
                before_pops.emit_pops(pushed@, pushed@.len() as int) == self@.emit_pops(
                    pushed@,
                    k as int,
                ),
            decreases k,
        {
            self.pop_operand(sized_name(pushed[k - 1], RegisterSize::QWord));
            k -= 1;
        }
        let size = get_size(return_type)?;
        let ret = self.alloc_scratch(size)?;
        let is_void = match return_type {
            Type::Void => true,
            _ => false,
        };
        if !is_void {
            self.add_instr(Instr::Mov(ret.reg.to_string(), sized_name(Register::Rax, size)));
        }
        Ok(ret)
    }

    /// Lowers a call of a named function.
    fn gen_call(&mut self, x: &FuncCallExpr) -> (r: Result<Scratch, CodegenError>)
        requires
            old(self).wf(),
        ensures
            final(self).wf(),
            (final(self)@, r) == old(self)@.lower_call(x),
        decreases x, x.args@.len() + NUM_ARG_REGS + 1,
    {
        let fn_name = match &x.func {
            Expression::Identifier(s) => s,
            _ => {
                return Err(CodegenError::Malformed(Malformed::CalleeNotIdentifier));
            },
        };
        let var = match self.get_symbol(fn_name.as_str()) {
            Some(var) => var,
            None => {
                return Err(CodegenError::Malformed(Malformed::UndefinedSymbol));
            },
        };
        let ret_type = match &var.type_of {
            Type::Function(f) => {
                assert(var.type_of@ == TypeView::Function(Box::new(f@)));
                f.return_type.clone()
            },
            _ => {
                return Err(CodegenError::Malformed(Malformed::CalleeNotFunction));
            },
        };
        let pushed = self.gen_reg_args(x)?;
        self.gen_stack_args(x)?;
        self.gen_call_end(var.asm_rep, &ret_type, x.args.len(), &pushed)
    }

    /// Lowers an expression, without setting the loans back on failure.
    fn gen_raw(&mut self, expr: &Expression) -> (r: Result<Scratch, CodegenError>)
        requires
            old(self).wf(),
        ensures
            final(self).wf(),
            (final(self)@, r) == old(self)@.lower_raw(expr),
        decreases expr, 0nat,
    {
        match expr {
            Expression::Assignment(x) => self.gen_assignment(x),
            Expression::Ternary(x) => self.gen_ternary(x),
            Expression::LogicalOr(x) => self.gen_logical(x, true),
            Expression::LogicalAnd(x) => self.gen_logical(x, false),
            Expression::BitwiseOr(x) => self.gen_arith(x, ArithOp::Or),
            Expression::BitwiseXor(x) => self.gen_arith(x, ArithOp::Xor),
            Expression::BitwiseAnd(x) => self.gen_arith(x, ArithOp::And),
            Expression::Equality(x) => self.gen_comparison(x, ComparisonType::Eq),
            Expression::Inequality(x) => self.gen_comparison(x, ComparisonType::Ne),
            Expression::LTCompare(x) => self.gen_comparison(x, ComparisonType::Lt),
            Expression::GTCompare(x) => self.gen_comparison(x, ComparisonType::Gt),
            Expression::LECompare(x) => self.gen_comparison(x, ComparisonType::Le),
            Expression::GECompare(x) => self.gen_comparison(x, ComparisonType::Ge),
            Expression::ShiftLeft(_) => Err(CodegenError::Unsupported(Unsupported::BitShift)),
            Expression::ShiftRight(_) => Err(CodegenError::Unsupported(Unsupported::BitShift)),
            Expression::Add(x) => self.gen_arith(x, ArithOp::Add),
            Expression::Subtract(x) => self.gen_arith(x, ArithOp::Sub),
            Expression::Multiply(x) => self.gen_arith(x, ArithOp::Mul),
            Expression::Divide(x) => self.gen_division(x, false),
            Expression::Modulo(x) => self.gen_division(x, true),
            Expression::Cast(x) => self.gen_cast(x),
            Expression::PreInc(_) => Err(CodegenError::Unsupported(Unsupported::Increment)),
            Expression::PreDec(_) => Err(CodegenError::Unsupported(Unsupported::Increment)),
            Expression::PostInc(_) => Err(CodegenError::Unsupported(Unsupported::Increment)),
            Expression::PostDec(_) => Err(CodegenError::Unsupported(Unsupported::Increment)),
            Expression::AddressOf(x) => self.gen_address_of(x),
            Expression::Dereference(x) => self.gen_dereference(x),
            Expression::Negate(x) => self.gen_unary(x, UnaryOp::Neg),
            Expression::BitwiseNot(x) => self.gen_unary(x, UnaryOp::Not),
            Expression::LogicalNot(x) => self.gen_logical_not(x),
            Expression::SizeOf(_) => Err(CodegenError::Unsupported(Unsupported::SizeOf)),
            Expression::ArrayIndex(_) => Err(CodegenError::Unsupported(Unsupported::ArrayIndex)),
            Expression::FuncCall(x) => self.gen_call(x),
            Expression::Identifier(id) => self.gen_identifier(id),
            Expression::IntLiteral(n) => self.gen_literal(RegisterSize::DWord, *n),
            Expression::CharLiteral(c) => self.gen_literal(RegisterSize::Byte, *c as u64),
            Expression::StringLiteral(_) => Err(
                CodegenError::Unsupported(Unsupported::StringLiteral),
            ),
        }
    }

    /// Lowers an expression: emits the instructions that compute its value
    /// and returns the loan of the register that then holds it, at the width
    /// of the value. Every register lent on the way is returned before this
    /// returns, on success and on failure alike.
    pub fn gen_expr(&mut self, expr: &Expression) -> (r: Result<Scratch, CodegenError>)
        requires
            old(self).wf(),
        ensures
            final(self).wf(),
            (final(self)@, r) == old(self)@.lower_expr(expr),
        decreases expr, 1nat,
    {
        let held = self.held_scratches();
        let r = self.gen_raw(expr);
        if r.is_err() {
            self.restore_scratches(held);
        }
        r
    }
}

} // verus!
