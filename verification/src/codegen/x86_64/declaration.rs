//! Lowering of declarations: symbols, storage and function bodies.

use vstd::prelude::*;
use vstd::string::*;
use crate::ast::declaration::Declaration;
use crate::ast::declaration::DeclarationValue;
use crate::ast::expressions::Expression;
use crate::ast::statements::Statement;
use crate::ast::types::FunctionType;
use crate::ast::types::FunctionTypeView;
use crate::ast::types::Type;
use crate::ast::types::TypeView;
use crate::codegen::error::CodegenError;
use crate::codegen::error::Malformed;
use crate::codegen::x86_64::expression::fail;
use crate::codegen::x86_64::expression::sized;
use crate::codegen::x86_64::helpers::get_size;
use crate::codegen::x86_64::helpers::register_size;
use crate::codegen::x86_64::instance::GeneratorInstance;
use crate::codegen::x86_64::instance::GeneratorView;
use crate::codegen::x86_64::instance::ScopeVariable;
use crate::codegen::x86_64::instance::VariableView;
use crate::codegen::x86_64::instructions::Instr;
use crate::codegen::x86_64::instructions::InstrView;
use crate::codegen::x86_64::registers::arg_register;
use crate::codegen::x86_64::registers::arg_register_at;
use crate::codegen::x86_64::registers::RegisterSize;
use crate::codegen::x86_64::registers::SizedRegister;
use crate::codegen::x86_64::registers::NUM_ARG_REGS;
use crate::codegen::x86_64::statement::Emitted;
use crate::text::decimal;
use crate::text::decimal_string;

verus! {

/// The operand for a parameter that arrives on the stack: the memory at an
/// offset above the frame pointer. The seventh parameter lies 16 bytes above
/// it, and each further one 8 bytes higher.
pub open spec fn stack_param_operand(size: RegisterSize, i: int) -> Seq<char> {
    size.text() + " [RBP + "@ + decimal((16 + (i - NUM_ARG_REGS) * 8) as nat) + "]"@
}

/// The entry of the data section that holds a literal: an integer is a
/// 4-byte datum, a character a 1-byte datum, a string its bytes and a zero
/// byte behind them. Nothing else can initialise a global.
pub open spec fn literal_data(e: &Expression) -> Option<Seq<char>> {
    match e {
        Expression::IntLiteral(i) => Some("dd "@ + decimal(*i as nat)),
        Expression::CharLiteral(c) => Some("db "@ + decimal(*c as nat)),
        Expression::StringLiteral(s) => Some("db "@ + s@ + ", 0"@),
        _ => None,
    }
}

/// Writes the entry of the data section that holds a literal.
fn literal_entry(e: &Expression) -> (r: Option<String>)
    ensures
        match r {
            Some(s) => literal_data(e) == Some(s@),
            None => literal_data(e) is None,
        },
{
    match e {
        Expression::IntLiteral(i) => {
            let mut s = String::from_str("dd ");
            let n = decimal_string(*i as u128);
            s.append(n.as_str());
            Some(s)
        },
        Expression::CharLiteral(c) => {
            let mut s = String::from_str("db ");
            let n = decimal_string(*c as u128);
            s.append(n.as_str());
            Some(s)
        },
        Expression::StringLiteral(text) => {
            let mut s = String::from_str("db ");
            s.append(text.as_str());
            s.append(", 0");
            Some(s)
        },
        _ => None,
    }
}

impl GeneratorView {
    /// Binds the parameters from position `i` on in the current scope: each
    /// of the first six to its argument register at the width of its type,
    /// which is then known to hold a parameter, and each further one to its
    /// place above the frame pointer.
    pub open spec fn bind_params(self, params: Seq<(Seq<char>, TypeView)>, i: int) -> Emitted
        decreases params.len() - i,
    {
        if i < 0 || i >= params.len() {
            (self, Ok(()))
        } else {
            match register_size(params[i].1) {
                Err(e) => fail(self, e),
                Ok(size) => if size is Void {
                    fail(self, CodegenError::Malformed(Malformed::VoidValue))
                } else if i < NUM_ARG_REGS {
                    let reg = arg_register_at(i);
                    self.hold_arg(reg).bind(
                        params[i].0,
                        VariableView { asm_rep: sized(reg, size), type_of: params[i].1 },
                    ).bind_params(params, i + 1)
                } else {
                    self.bind(
                        params[i].0,
                        VariableView {
                            asm_rep: stack_param_operand(size, i),
                            type_of: params[i].1,
                        },
                    ).bind_params(params, i + 1)
                },
            }
        }
    }

    /// The code of a function: the prologue saves the frame pointer and sets
    /// it to the stack pointer; the parameters are bound and the statements
    /// lowered; then come the return label and the epilogue, which sets the
    /// stack pointer back, restores the frame pointer and returns.
    pub open spec fn lower_body(
        self,
        params: Seq<(Seq<char>, TypeView)>,
        stmts: Seq<Statement>,
        ret_label: u64,
    ) -> Emitted
        decreases stmts, stmts.len() + 1,
    {
        let (m1, r1) = self.emit(InstrView::Push("RBP"@)).emit(
            InstrView::Mov("RBP"@, "RSP"@),
        ).bind_params(params, 0);
        if r1 is Err {
            (m1, r1)
        } else {
            let (m2, r2) = m1.lower_stmts(stmts, 0);
            if r2 is Err {
                (m2, r2)
            } else {
                (
                    m2.place_label(ret_label).emit(InstrView::Mov("RSP"@, "RBP"@)).emit(
                        InstrView::Pop("RBP"@),
                    ).emit(InstrView::Ret),
                    Ok(()),
                )
            }
        }
    }

    /// A function with its body: the name is bound and its label written;
    /// one label is taken for all returns; the body is lowered in a scope of
    /// its own. At the end, reached or not, the scope is left, and the return
    /// label and the note of which registers hold parameters are cleared. A
    /// function whose return type has no width is not begun.
    pub open spec fn lower_function(
        self,
        name: Seq<char>,
        f: FunctionTypeView,
        stmts: Seq<Statement>,
    ) -> Emitted
        decreases stmts, stmts.len() + 2,
    {
        match register_size(f.return_type) {
            Err(e) => fail(self, e),
            Ok(size) => {
                let (m1, r1) = self.bind_global(name, TypeView::Function(Box::new(f)));
                if r1 is Err {
                    (m1, r1)
                } else {
                    let (m2, r2) = m1.place_fn_label(name).fresh_label();
                    if r2 is Err {
                        fail(m2, r2->Err_0)
                    } else {
                        let (m3, r3) = m2.with_return(Some(r2->Ok_0), size).enter().lower_body(
                            f.args,
                            stmts,
                            r2->Ok_0,
                        );
                        (
                            m3.with_return(None, RegisterSize::Void).clear_args().exit(
                                m2.rdp_offset,
                            ),
                            r3,
                        )
                    }
                }
            },
        }
    }

    /// A global variable with its value: the name is bound, and the literal
    /// becomes an entry of the data section.
    pub open spec fn lower_global_value(self, name: Seq<char>, t: TypeView, e: &Expression) -> Emitted {
        match literal_data(e) {
            None => fail(self, CodegenError::Malformed(Malformed::GlobalNotLiteral)),
            Some(entry) => {
                let (m1, r1) = self.bind_global(name, t);
                if r1 is Err {
                    (m1, r1)
                } else {
                    (m1.add_data(name, entry), Ok(()))
                }
            },
        }
    }

    /// A local variable with its value: the variable gets its place, the
    /// value is computed and stored there.
    pub open spec fn lower_local_value(self, name: Seq<char>, t: TypeView, e: &Expression) -> Emitted
        decreases e, 3nat,
    {
        let (m1, r1) = self.bind_local(name, t);
        if r1 is Err {
            fail(m1, r1->Err_0)
        } else {
            let (m2, r2) = m1.lower_value(e);
            if r2 is Err {
                fail(m2, r2->Err_0)
            } else {
                (
                    m2.emit(InstrView::Mov(r1->Ok_0, r2->Ok_0.reg.text())).release(
                        r2->Ok_0.reg.reg,
                    ),
                    Ok(()),
                )
            }
        }
    }

    /// A declaration without a value: an external name is listed as such; a
    /// global is bound and, unless it is a function, given zero-initialised
    /// storage; a local gets its place on the stack.
    pub open spec fn lower_forward(self, name: Seq<char>, t: TypeView, external: bool) -> Emitted {
        if external {
            self.bind_extern(name, t)
        } else if self.at_file_scope() {
            let (m1, r1) = self.bind_global(name, t);
            if r1 is Err {
                (m1, r1)
            } else if t is Function {
                (m1, Ok(()))
            } else {
                m1.reserve_bss(name, t)
            }
        } else {
            let (m1, r1) = self.bind_local(name, t);
            if r1 is Err {
                fail(m1, r1->Err_0)
            } else {
                (m1, Ok(()))
            }
        }
    }

    /// Lowers a declaration.
    pub open spec fn lower_decl(self, decl: &Declaration) -> Emitted
        decreases decl, 0nat,
    {
        match decl.value {
            None => self.lower_forward(decl.name@, decl.type_of@, decl.external),
            Some(DeclarationValue::Function(stmts)) => if !self.at_file_scope() {
                fail(self, CodegenError::Malformed(Malformed::LocalFunction))
            } else {
                match decl.type_of@ {
                    TypeView::Function(f) => self.lower_function(decl.name@, *f, stmts@),
                    _ => fail(self, CodegenError::Malformed(Malformed::BodyWithoutFunctionType)),
                }
            },
            Some(DeclarationValue::Variable(e)) => if self.at_file_scope() {
                self.lower_global_value(decl.name@, decl.type_of@, &e)
            } else {
                self.lower_local_value(decl.name@, decl.type_of@, &e)
            },
        }
    }
}

impl GeneratorInstance {
    /// Binds the parameters of the function that is being generated.
    fn gen_params(&mut self, f: &FunctionType) -> (r: Result<(), CodegenError>)
        requires
            old(self).wf(),
        ensures
            final(self).wf(),
            (final(self)@, r) == old(self)@.bind_params(f@.args, 0),
    {
        let mut i: usize = 0;
        while i < f.args.len()
            invariant
                self.wf(),
                i <= f.args.len(),
                old(self)@.bind_params(f@.args, 0) == self@.bind_params(f@.args, i as int),
            decreases f.args.len() - i,
        {
            assert(f@.args[i as int] == (f.args@[i as int].0@, f.args@[i as int].1@));
            let symbol = f.args[i].0.clone();
            let arg_t = &f.args[i].1;
            let size = get_size(arg_t)?;
            match size {
                RegisterSize::Void => {
                    return Err(CodegenError::Malformed(Malformed::VoidValue));
                },
                _ => {},
            }
            let asm_rep = if i < NUM_ARG_REGS {
                let reg = SizedRegister { reg: arg_register(i), size };
                self.use_arg_reg(reg.reg);
                reg.to_string()
            } else {
                let rbp_offset: u128 = 16 + (i as u128 - NUM_ARG_REGS as u128) * 8;
                let mut s = size.to_string();
                s.append(" [RBP + ");
                let at = decimal_string(rbp_offset);
                s.append(at.as_str());
                s.append("]");
                s
            };
            self.add_symbol_with_asm(symbol, ScopeVariable { asm_rep, type_of: arg_t.clone() });
            i += 1;
        }
        Ok(())
    }

    /// Lowers the code of a function, from the prologue to the epilogue.
    fn gen_body(&mut self, f: &FunctionType, stmts: &Vec<Statement>, ret_label: u64) -> (r: Result<
        (),
        CodegenError,
    >)
        requires
            old(self).wf(),
        ensures
            final(self).wf(),
            (final(self)@, r) == old(self)@.lower_body(f@.args, stmts@, ret_label),
        decreases stmts@, stmts@.len() + 1,
    {
        self.add_instr(Instr::Push(String::from_str("RBP")));
        self.add_instr(Instr::Mov(String::from_str("RBP"), String::from_str("RSP")));
        self.gen_params(f)?;
        self.gen_statements(stmts)?;
        self.add_label(ret_label);
        self.add_instr(Instr::Mov(String::from_str("RSP"), String::from_str("RBP")));
        self.add_instr(Instr::Pop(String::from_str("RBP")));
        self.add_instr(Instr::Ret);
        Ok(())
    }

    /// Lowers a function with its body.
    fn gen_function(&mut self, decl: &Declaration, f: &FunctionType, stmts: &Vec<Statement>) -> (r:
        Result<(), CodegenError>)
        requires
            old(self).wf(),
            decl.type_of@ == TypeView::Function(Box::new(f@)),
        ensures
            final(self).wf(),
            (final(self)@, r) == old(self)@.lower_function(decl.name@, f@, stmts@),
        decreases stmts@, stmts@.len() + 2,
    {
        let size = get_size(&f.return_type)?;
        self.add_global(decl.name.clone(), decl.type_of.clone())?;
        self.add_fn_label(decl.name.clone());
        let ret_label = self.new_label()?;
        self.set_return(Some(ret_label), size);
        let owner = self.enter_scope();
        let r = self.gen_body(f, stmts, ret_label);
        self.set_return(None, RegisterSize::Void);
        self.clear_arg_regs();
        self.exit_scope(owner);
        r
    }

    /// Lowers a declaration. At file scope a name becomes a symbol of the
    /// unit, with storage in the data or bss section or with a function's
    /// code; inside a function it becomes a place on the stack.
    pub fn gen_declaration(&mut self, decl: &Declaration) -> (r: Result<(), CodegenError>)
        requires
            old(self).wf(),
        ensures
            final(self).wf(),
            (final(self)@, r) == old(self)@.lower_decl(decl),
        decreases decl, 0nat,
    {
        let symbol = decl.name.clone();
        match &decl.value {
            None => {
                if decl.external {
                    self.add_extern(symbol, decl.type_of.clone())
                } else if self.global_scope() {
                    self.add_global(symbol.clone(), decl.type_of.clone())?;
                    match decl.type_of {
                        Type::Function(_) => Ok(()),
                        _ => self.add_bss(symbol, &decl.type_of),
                    }
                } else {
                    self.add_local(symbol, decl.type_of.clone())?;
                    Ok(())
                }
            },
            Some(DeclarationValue::Function(stmts)) => {
                if !self.global_scope() {
                    return Err(CodegenError::Malformed(Malformed::LocalFunction));
                }
                match &decl.type_of {
                    Type::Function(f) => self.gen_function(decl, f, stmts),
                    _ => Err(CodegenError::Malformed(Malformed::BodyWithoutFunctionType)),
                }
            },
            Some(DeclarationValue::Variable(e)) => {
                if self.global_scope() {
                    let entry = match literal_entry(e) {
                        Some(entry) => entry,
                        None => {
                            return Err(CodegenError::Malformed(Malformed::GlobalNotLiteral));
                        },
                    };
                    self.add_global(symbol.clone(), decl.type_of.clone())?;
                    self.add_data(symbol, entry);
                    Ok(())
                } else {
                    let var_rep = self.add_local(symbol, decl.type_of.clone())?;
                    let val = self.gen_value(e)?;
                    self.add_instr(Instr::Mov(var_rep, val.reg.to_string()));
                    self.free_scratch(val);
                    Ok(())
                }
            },
        }
    }
}

} // verus!
