//! The instructions that the generator emits, and how each is written.

use vstd::prelude::*;
use vstd::string::*;
use crate::text::decimal;
use crate::text::decimal_string;

verus! {

/// An instruction with its operands as they are written in assembly. A jump
/// names the number of the local label that it goes to.
#[derive(Debug)]
pub enum Instr {
    Mov(String, String),
    Movsx(String, String),
    Lea(String, String),
    Add(String, String),
    Sub(String, String),
    Imul(String, String),
    Idiv(String),
    Neg(String),
    Not(String),
    Or(String, String),
    Xor(String, String),
    And(String, String),
    Push(String),
    Pop(String),
    Call(String),
    Jmp(u64),
    Cmp(String, String),
    Je(u64),
    Jne(u64),
    Jl(u64),
    Jg(u64),
    Jle(u64),
    Jge(u64),
    Cqo,
    Ret,
}

/// The mathematical value of an [`Instr`].
pub enum InstrView {
    Mov(Seq<char>, Seq<char>),
    Movsx(Seq<char>, Seq<char>),
    Lea(Seq<char>, Seq<char>),
    Add(Seq<char>, Seq<char>),
    Sub(Seq<char>, Seq<char>),
    Imul(Seq<char>, Seq<char>),
    Idiv(Seq<char>),
    Neg(Seq<char>),
    Not(Seq<char>),
    Or(Seq<char>, Seq<char>),
    Xor(Seq<char>, Seq<char>),
    And(Seq<char>, Seq<char>),
    Push(Seq<char>),
    Pop(Seq<char>),
    Call(Seq<char>),
    Jmp(u64),
    Cmp(Seq<char>, Seq<char>),
    Je(u64),
    Jne(u64),
    Jl(u64),
    Jg(u64),
    Jle(u64),
    Jge(u64),
    Cqo,
    Ret,
}

/// An instruction with one operand, as it is written.
pub open spec fn unary_text(mnemonic: Seq<char>, a: Seq<char>) -> Seq<char> {
    mnemonic + " "@ + a
}

/// An instruction with two operands, as it is written.
pub open spec fn binary_text(mnemonic: Seq<char>, a: Seq<char>, b: Seq<char>) -> Seq<char> {
    mnemonic + " "@ + a + ", "@ + b
}

/// A jump to a local label, as it is written.
pub open spec fn jump_text(mnemonic: Seq<char>, label: u64) -> Seq<char> {
    mnemonic + " .L"@ + decimal(label as nat)
}

impl InstrView {
    /// The instruction as it is written in assembly.
    pub open spec fn text(self) -> Seq<char> {
        match self {
            InstrView::Mov(a, b) => binary_text("mov"@, a, b),
            InstrView::Movsx(a, b) => binary_text("movsx"@, a, b),
            InstrView::Lea(a, b) => binary_text("lea"@, a, b),
            InstrView::Add(a, b) => binary_text("add"@, a, b),
            InstrView::Sub(a, b) => binary_text("sub"@, a, b),
            InstrView::Imul(a, b) => binary_text("imul"@, a, b),
            InstrView::Idiv(a) => unary_text("idiv"@, a),
            InstrView::Neg(a) => unary_text("neg"@, a),
            InstrView::Not(a) => unary_text("not"@, a),
            InstrView::Or(a, b) => binary_text("or"@, a, b),
            InstrView::Xor(a, b) => binary_text("xor"@, a, b),
            InstrView::And(a, b) => binary_text("and"@, a, b),
            InstrView::Push(a) => unary_text("push"@, a),
            InstrView::Pop(a) => unary_text("pop"@, a),
            InstrView::Call(a) => unary_text("call"@, a),
            InstrView::Jmp(l) => jump_text("jmp"@, l),
            InstrView::Cmp(a, b) => binary_text("cmp"@, a, b),
            InstrView::Je(l) => jump_text("je"@, l),
            InstrView::Jne(l) => jump_text("jne"@, l),
            InstrView::Jl(l) => jump_text("jl"@, l),
            InstrView::Jg(l) => jump_text("jg"@, l),
            InstrView::Jle(l) => jump_text("jle"@, l),
            InstrView::Jge(l) => jump_text("jge"@, l),
            InstrView::Cqo => "cqo"@,
            InstrView::Ret => "ret"@,
        }
    }
}

impl View for Instr {
    type V = InstrView;

    open spec fn view(&self) -> InstrView {
        match self {
            Instr::Mov(a, b) => InstrView::Mov(a@, b@),
            Instr::Movsx(a, b) => InstrView::Movsx(a@, b@),
            Instr::Lea(a, b) => InstrView::Lea(a@, b@),
            Instr::Add(a, b) => InstrView::Add(a@, b@),
            Instr::Sub(a, b) => InstrView::Sub(a@, b@),
            Instr::Imul(a, b) => InstrView::Imul(a@, b@),
            Instr::Idiv(a) => InstrView::Idiv(a@),
            Instr::Neg(a) => InstrView::Neg(a@),
            Instr::Not(a) => InstrView::Not(a@),
            Instr::Or(a, b) => InstrView::Or(a@, b@),
            Instr::Xor(a, b) => InstrView::Xor(a@, b@),
            Instr::And(a, b) => InstrView::And(a@, b@),
            Instr::Push(a) => InstrView::Push(a@),
            Instr::Pop(a) => InstrView::Pop(a@),
            Instr::Call(a) => InstrView::Call(a@),
            Instr::Jmp(l) => InstrView::Jmp(*l),
            Instr::Cmp(a, b) => InstrView::Cmp(a@, b@),
            Instr::Je(l) => InstrView::Je(*l),
            Instr::Jne(l) => InstrView::Jne(*l),
            Instr::Jl(l) => InstrView::Jl(*l),
            Instr::Jg(l) => InstrView::Jg(*l),
            Instr::Jle(l) => InstrView::Jle(*l),
            Instr::Jge(l) => InstrView::Jge(*l),
            Instr::Cqo => InstrView::Cqo,
            Instr::Ret => InstrView::Ret,
        }
    }
}

impl Clone for Instr {
    fn clone(&self) -> (r: Self)
        ensures
            r@ == self@,
    {
        match self {
            Instr::Mov(a, b) => Instr::Mov(a.clone(), b.clone()),
            Instr::Movsx(a, b) => Instr::Movsx(a.clone(), b.clone()),
            Instr::Lea(a, b) => Instr::Lea(a.clone(), b.clone()),
            Instr::Add(a, b) => Instr::Add(a.clone(), b.clone()),
            Instr::Sub(a, b) => Instr::Sub(a.clone(), b.clone()),
            Instr::Imul(a, b) => Instr::Imul(a.clone(), b.clone()),
            Instr::Idiv(a) => Instr::Idiv(a.clone()),
            Instr::Neg(a) => Instr::Neg(a.clone()),
            Instr::Not(a) => Instr::Not(a.clone()),
            Instr::Or(a, b) => Instr::Or(a.clone(), b.clone()),
            Instr::Xor(a, b) => Instr::Xor(a.clone(), b.clone()),
            Instr::And(a, b) => Instr::And(a.clone(), b.clone()),
            Instr::Push(a) => Instr::Push(a.clone()),
            Instr::Pop(a) => Instr::Pop(a.clone()),
            Instr::Call(a) => Instr::Call(a.clone()),
            Instr::Jmp(l) => Instr::Jmp(*l),
            Instr::Cmp(a, b) => Instr::Cmp(a.clone(), b.clone()),
            Instr::Je(l) => Instr::Je(*l),
            Instr::Jne(l) => Instr::Jne(*l),
            Instr::Jl(l) => Instr::Jl(*l),
            Instr::Jg(l) => Instr::Jg(*l),
            Instr::Jle(l) => Instr::Jle(*l),
            Instr::Jge(l) => Instr::Jge(*l),
            Instr::Cqo => Instr::Cqo,
            Instr::Ret => Instr::Ret,
        }
    }
}

fn write_unary(mnemonic: &str, a: &String) -> (r: String)
    ensures
        r@ == unary_text(mnemonic@, a@),
{
    let mut s = String::from_str(mnemonic);
    s.append(" ");
    s.append(a.as_str());
    s
}

fn write_binary(mnemonic: &str, a: &String, b: &String) -> (r: String)
    ensures
        r@ == binary_text(mnemonic@, a@, b@),
{
    let mut s = String::from_str(mnemonic);
    s.append(" ");
    s.append(a.as_str());
    s.append(", ");
    s.append(b.as_str());
    s
}

fn write_jump(mnemonic: &str, label: u64) -> (r: String)
    ensures
        r@ == jump_text(mnemonic@, label),
{
    let mut s = String::from_str(mnemonic);
    s.append(" .L");
    let number = decimal_string(label as u128);
    s.append(number.as_str());
    s
}

impl Instr {
    /// The instruction as it is written in assembly.
    pub fn to_string(&self) -> (r: String)
        ensures
            r@ == self@.text(),
    {
        match self {
            Instr::Mov(a, b) => write_binary("mov", a, b),
            Instr::Movsx(a, b) => write_binary("movsx", a, b),
            Instr::Lea(a, b) => write_binary("lea", a, b),
            Instr::Add(a, b) => write_binary("add", a, b),
            Instr::Sub(a, b) => write_binary("sub", a, b),
            Instr::Imul(a, b) => write_binary("imul", a, b),
            Instr::Idiv(a) => write_unary("idiv", a),
            Instr::Neg(a) => write_unary("neg", a),
            Instr::Not(a) => write_unary("not", a),
            Instr::Or(a, b) => write_binary("or", a, b),
            Instr::Xor(a, b) => write_binary("xor", a, b),
            Instr::And(a, b) => write_binary("and", a, b),
            Instr::Push(a) => write_unary("push", a),
            Instr::Pop(a) => write_unary("pop", a),
            Instr::Call(a) => write_unary("call", a),
            Instr::Jmp(l) => write_jump("jmp", *l),
            Instr::Cmp(a, b) => write_binary("cmp", a, b),
            Instr::Je(l) => write_jump("je", *l),
            Instr::Jne(l) => write_jump("jne", *l),
            Instr::Jl(l) => write_jump("jl", *l),
            Instr::Jg(l) => write_jump("jg", *l),
            Instr::Jle(l) => write_jump("jle", *l),
            Instr::Jge(l) => write_jump("jge", *l),
            Instr::Cqo => String::from_str("cqo"),
            Instr::Ret => String::from_str("ret"),
        }
    }
}

} // verus!
