//! Lowering of statements.

use vstd::prelude::*;
use vstd::string::*;
use crate::ast::expressions::Expression;
use crate::ast::statements::IfStatement;
use crate::ast::statements::Statement;
use crate::ast::statements::WhileLoopStatement;
use crate::codegen::error::CodegenError;
use crate::codegen::error::Malformed;
use crate::codegen::x86_64::expression::fail;
use crate::codegen::x86_64::expression::sized;
use crate::codegen::x86_64::instance::GeneratorInstance;
use crate::codegen::x86_64::instance::GeneratorView;
use crate::codegen::x86_64::instructions::Instr;
use crate::codegen::x86_64::instructions::InstrView;
use crate::codegen::x86_64::registers::Register;
use crate::codegen::x86_64::registers::RegisterSize;
use crate::codegen::x86_64::registers::SizedRegister;

verus! {

/// The state after a lowering that yields no value, and whether it went
/// through.
pub type Emitted = (GeneratorView, Result<(), CodegenError>);

impl GeneratorView {
    /// Lowers the statements from position `from` on in their order, up to
    /// the first that fails.
    pub open spec fn lower_stmts(self, stmts: Seq<Statement>, from: int) -> Emitted
        decreases stmts, stmts.len() - from,
    {
        if from < 0 || from >= stmts.len() {
            (self, Ok(()))
        } else {
            let (m, r) = self.lower_stmt(&stmts[from]);
            if r is Err {
                (m, r)
            } else {
                m.lower_stmts(stmts, from + 1)
            }
        }
    }

    /// A block: its statements are lowered in a scope of their own, which is
    /// left at the block's end, whether they went through or not.
    pub open spec fn lower_compound(self, stmts: Seq<Statement>) -> Emitted
        decreases stmts, stmts.len() + 1,
    {
        let (m, r) = self.enter().lower_stmts(stmts, 0);
        (m.exit(self.rdp_offset), r)
    }

    /// The test at the head of an `if` or a `while`: the condition is
    /// computed and held against zero, and on zero a jump goes to `target`.
    pub open spec fn lower_test(self, condition: &Expression, target: u64) -> Emitted
        decreases condition, 3nat,
    {
        let (m, r) = self.lower_value(condition);
        if r is Err {
            fail(m, r->Err_0)
        } else {
            (
                m.emit(InstrView::Cmp(r->Ok_0.reg.text(), "0"@)).emit(
                    InstrView::Je(target),
                ).release(r->Ok_0.reg.reg),
                Ok(()),
            )
        }
    }

    /// The second branch of an `if`, where there is one.
    pub open spec fn lower_else(self, else_block: &Option<Statement>) -> Emitted
        decreases else_block, 1nat,
    {
        match else_block {
            None => (self, Ok(())),
            Some(else_stmt) => self.lower_stmt(else_stmt),
        }
    }

    /// `if (c) a`: one label is taken, for the end. On a zero condition a jump
    /// goes around the branch to the end.
    pub open spec fn lower_if_alone(self, x: &IfStatement) -> Emitted
        decreases x, 0nat,
    {
        let (m1, r1) = self.fresh_label();
        if r1 is Err {
            fail(m1, r1->Err_0)
        } else {
            let to_end = r1->Ok_0;
            let (m2, r2) = m1.lower_test(&x.condition, to_end);
            if r2 is Err {
                (m2, r2)
            } else {
                let (m3, r3) = m2.lower_stmt(&x.if_block);
                if r3 is Err {
                    (m3, r3)
                } else {
                    (m3.place_label(to_end), Ok(()))
                }
            }
        }
    }

    /// An `if`, with or without a second branch.
    pub open spec fn lower_if(self, x: &IfStatement) -> Emitted
        decreases x, 1nat,
    {
        if x.else_block is None {
            self.lower_if_alone(x)
        } else {
            self.lower_if_else(x)
        }
    }

    /// `if (c) a else b`: two labels are taken, for the second branch and for
    /// the end. On a zero condition a jump goes to the second branch; the
    /// first branch ends in a jump to the end.
    pub open spec fn lower_if_else(self, x: &IfStatement) -> Emitted
        decreases x, 0nat,
    {
        let (m1, r1) = self.fresh_label();
        if r1 is Err {
            fail(m1, r1->Err_0)
        } else {
            let to_else = r1->Ok_0;
            let (m2, r2) = m1.fresh_label();
            if r2 is Err {
                fail(m2, r2->Err_0)
            } else {
                let to_end = r2->Ok_0;
                let (m3, r3) = m2.lower_test(&x.condition, to_else);
                if r3 is Err {
                    (m3, r3)
                } else {
                    let (m4, r4) = m3.lower_stmt(&x.if_block);
                    if r4 is Err {
                        (m4, r4)
                    } else {
                        let (m5, r5) = m4.emit(InstrView::Jmp(to_end)).place_label(
                            to_else,
                        ).lower_else(&x.else_block);
                        if r5 is Err {
                            (m5, r5)
                        } else {
                            (m5.place_label(to_end), Ok(()))
                        }
                    }
                }
            }
        }
    }

    /// `while (c) body`: two labels are taken, for the start and for the
    /// end. On a zero condition a jump goes to the end; the body ends in a
    /// jump back to the start.
    pub open spec fn lower_while(self, x: &WhileLoopStatement) -> Emitted
        decreases x, 0nat,
    {
        let (m1, r1) = self.fresh_label();
        if r1 is Err {
            fail(m1, r1->Err_0)
        } else {
            let to_start = r1->Ok_0;
            let (m2, r2) = m1.fresh_label();
            if r2 is Err {
                fail(m2, r2->Err_0)
            } else {
                let to_end = r2->Ok_0;
                let (m3, r3) = m2.place_label(to_start).lower_test(&x.condition, to_end);
                if r3 is Err {
                    (m3, r3)
                } else {
                    let (m4, r4) = m3.lower_stmt(&x.body);
                    if r4 is Err {
                        (m4, r4)
                    } else {
                        (m4.emit(InstrView::Jmp(to_start)).place_label(to_end), Ok(()))
                    }
                }
            }
        }
    }

    /// A return: the value, if there is one, is moved into the accumulator
    /// at the width of the function's return type, at which the register
    /// that holds the value is read too; then a jump goes to the one label
    /// at which the function returns.
    pub open spec fn lower_return(self, value: &Option<Expression>) -> Emitted
        decreases value, 3nat,
    {
        match self.return_label {
            None => fail(self, CodegenError::Malformed(Malformed::ReturnOutsideFunction)),
            Some(label) => match value {
                None => (self.emit(InstrView::Jmp(label)), Ok(())),
                Some(expr) => if self.return_size is Void {
                    fail(self, CodegenError::Malformed(Malformed::VoidValue))
                } else {
                    let (m, r) = self.lower_value(expr);
                    if r is Err {
                        fail(m, r->Err_0)
                    } else {
                        let ret_val = r->Ok_0.reg;
                        (
                            m.emit(
                                InstrView::Mov(
                                    sized(Register::Rax, self.return_size),
                                    sized(ret_val.reg, self.return_size),
                                ),
                            ).release(ret_val.reg).emit(InstrView::Jmp(label)),
                            Ok(()),
                        )
                    }
                },
            },
        }
    }

    /// An expression as a statement: its value is computed and let go.
    pub open spec fn lower_discarded(self, expr: &Expression) -> Emitted
        decreases expr, 3nat,
    {
        let (m, r) = self.lower_expr(expr);
        if r is Err {
            fail(m, r->Err_0)
        } else {
            (m.release(r->Ok_0.reg.reg), Ok(()))
        }
    }

    /// Lowers a statement.
    pub open spec fn lower_stmt(self, stmt: &Statement) -> Emitted
        decreases stmt, 0nat,
    {
        match stmt {
            Statement::Compound(stmts) => self.lower_compound(stmts@),
            Statement::Declaration(decl) => self.lower_decl(decl),
            Statement::Expression(expr) => self.lower_discarded(expr),
            Statement::If(x) => self.lower_if(x),
            Statement::WhileLoop(x) => self.lower_while(x),
            Statement::Return(value) => self.lower_return(value),
        }
    }
}

impl GeneratorInstance {
    /// Lowers statements in their order, up to the first that fails.
    pub fn gen_statements(&mut self, stmts: &Vec<Statement>) -> (r: Result<(), CodegenError>)
        requires
            old(self).wf(),
        ensures
            final(self).wf(),
            (final(self)@, r) == old(self)@.lower_stmts(stmts@, 0),
        decreases stmts@, stmts@.len(),
    {
        let mut i: usize = 0;
        while i < stmts.len()
            invariant
                self.wf(),
                i <= stmts.len(),
                old(self)@.lower_stmts(stmts@, 0) == self@.lower_stmts(stmts@, i as int),
            decreases stmts.len() - i,
        {
            self.gen_statement(&stmts[i])?;
            i += 1;
        }
        Ok(())
    }

    /// Emits the test at the head of an `if` or a `while`.
    fn gen_test(&mut self, condition: &Expression, target: u64) -> (r: Result<(), CodegenError>)
        requires
            old(self).wf(),
        ensures
            final(self).wf(),
            (final(self)@, r) == old(self)@.lower_test(condition, target),
        decreases condition, 3nat,
    {
        let c = self.gen_value(condition)?;
        self.add_instr(Instr::Cmp(c.reg.to_string(), String::from_str("0")));
        self.add_instr(Instr::Je(target));
        self.free_scratch(c);
        Ok(())
    }

    /// Lowers an `if`.
    fn gen_if(&mut self, x: &IfStatement) -> (r: Result<(), CodegenError>)
        requires
            old(self).wf(),
        ensures
            final(self).wf(),
            (final(self)@, r) == old(self)@.lower_if(x),
        decreases x, 1nat,
    {
        if x.else_block.is_none() {
            self.gen_if_alone(x)
        } else {
            self.gen_if_else(x)
        }
    }

    /// Lowers an `if` without a second branch.
    fn gen_if_alone(&mut self, x: &IfStatement) -> (r: Result<(), CodegenError>)
        requires
            old(self).wf(),
        ensures
            final(self).wf(),
            (final(self)@, r) == old(self)@.lower_if_alone(x),
        decreases x, 0nat,
    {
        let to_end = self.new_label()?;
        self.gen_test(&x.condition, to_end)?;
        self.gen_statement(&x.if_block)?;
        self.add_label(to_end);
        Ok(())
    }

    /// Lowers an `if` with a second branch.
    fn gen_if_else(&mut self, x: &IfStatement) -> (r: Result<(), CodegenError>)
        requires
            old(self).wf(),
        ensures
            final(self).wf(),
            (final(self)@, r) == old(self)@.lower_if_else(x),
        decreases x, 0nat,
    {
        let to_else = self.new_label()?;
        let to_end = self.new_label()?;
        self.gen_test(&x.condition, to_else)?;
        self.gen_statement(&x.if_block)?;
        self.add_instr(Instr::Jmp(to_end));
        self.add_label(to_else);
        self.gen_else(&x.else_block)?;
        self.add_label(to_end);
        Ok(())
    }

    /// Lowers the second branch of an `if`, where there is one.
    fn gen_else(&mut self, else_block: &Option<Statement>) -> (r: Result<(), CodegenError>)
        requires
            old(self).wf(),
        ensures
            final(self).wf(),
            (final(self)@, r) == old(self)@.lower_else(else_block),
        decreases else_block, 1nat,
    {
        match else_block {
            None => Ok(()),
            Some(else_stmt) => self.gen_statement(else_stmt),
        }
    }

    /// Lowers a `while`.
    fn gen_while(&mut self, x: &WhileLoopStatement) -> (r: Result<(), CodegenError>)
        requires
            old(self).wf(),
        ensures
            final(self).wf(),
            (final(self)@, r) == old(self)@.lower_while(x),
        decreases x, 0nat,
    {
        let to_start = self.new_label()?;
        let to_end = self.new_label()?;
        self.add_label(to_start);
        self.gen_test(&x.condition, to_end)?;
        self.gen_statement(&x.body)?;
        self.add_instr(Instr::Jmp(to_start));
        self.add_label(to_end);
        Ok(())
    }

    /// Lowers a `return`.
    fn gen_return(&mut self, value: &Option<Expression>) -> (r: Result<(), CodegenError>)
        requires
            old(self).wf(),
        ensures
            final(self).wf(),
            (final(self)@, r) == old(self)@.lower_return(value),
        decreases value, 3nat,
    {
        let label = match self.return_label() {
            Some(label) => label,
            None => {
                return Err(CodegenError::Malformed(Malformed::ReturnOutsideFunction));
            },
        };
        if let Some(expr) = value {
            let size = self.return_size();
            match size {
                RegisterSize::Void => {
                    return Err(CodegenError::Malformed(Malformed::VoidValue));
                },
                _ => {},
            }
            proof {
                crate::codegen::x86_64::discipline::lemma_value_keeps_the_rest(self@, expr);
            }
            let ret_val = self.gen_value(expr)?;
            let rax_sized = SizedRegister { reg: Register::Rax, size };
            let value_sized = SizedRegister { reg: ret_val.reg.reg, size };
            self.add_instr(Instr::Mov(rax_sized.to_string(), value_sized.to_string()));
            self.free_scratch(ret_val);
        }
        self.add_instr(Instr::Jmp(label));
        Ok(())
    }

    /// Lowers a statement. A block opens a scope and closes it again; a
    /// return funnels into the function's one return label.
    pub fn gen_statement(&mut self, stmt: &Statement) -> (r: Result<(), CodegenError>)
        requires
            old(self).wf(),
        ensures
            final(self).wf(),
            (final(self)@, r) == old(self)@.lower_stmt(stmt),
        decreases stmt, 0nat,
    {
        match stmt {
            Statement::Compound(stmts) => {
                let owner = self.enter_scope();
                let r = self.gen_statements(stmts);
                self.exit_scope(owner);
                r
            },
            Statement::Declaration(decl) => self.gen_declaration(decl),
            Statement::Expression(expr) => {
                let scratch = self.gen_expr(expr)?;
                self.free_scratch(scratch);
                Ok(())
            },
            Statement::If(x) => self.gen_if(x),
            Statement::WhileLoop(x) => self.gen_while(x),
            Statement::Return(value) => self.gen_return(value),
        }
    }
}

} // verus!
