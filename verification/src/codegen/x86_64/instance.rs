//! One run of code generation: the scratch registers on loan, the scopes of
//! symbols, the room taken on the stack, and the text written so far.

use vstd::prelude::*;
use vstd::string::*;
use crate::ast::types::Type;
use crate::ast::types::TypeView;
use crate::codegen::error::CodegenError;
use crate::codegen::error::Malformed;
use crate::codegen::error::Unsupported;
use crate::codegen::x86_64::helpers::byte_size;
use crate::codegen::x86_64::helpers::get_bytes;
use crate::codegen::x86_64::helpers::get_global_asm;
use crate::codegen::x86_64::helpers::get_size;
use crate::codegen::x86_64::helpers::global_operand;
use crate::codegen::x86_64::helpers::register_size;
use crate::codegen::x86_64::helpers::written;
use crate::codegen::x86_64::instructions::Instr;
use crate::codegen::x86_64::instructions::InstrView;
use crate::codegen::x86_64::registers::register_at;
use crate::codegen::x86_64::registers::Register;
use crate::codegen::x86_64::registers::RegisterSize;
use crate::codegen::x86_64::registers::SizedRegister;
use crate::codegen::x86_64::registers::NUM_REGS;
pub use crate::codegen::x86_64::scratch::Scratch;
use crate::symbols::find;
use crate::symbols::lemma_table_push;
use crate::symbols::table_of;
use crate::text::decimal;
use crate::text::decimal_string;

verus! {

/// What a symbol is known by: the operand that stands for it in assembly, and
/// its type.
#[derive(Debug)]
pub struct ScopeVariable {
    pub asm_rep: String,
    pub type_of: Type,
}

/// The mathematical value of a [`ScopeVariable`].
pub struct VariableView {
    pub asm_rep: Seq<char>,
    pub type_of: TypeView,
}

impl View for ScopeVariable {
    type V = VariableView;

    open spec fn view(&self) -> VariableView {
        VariableView { asm_rep: self.asm_rep@, type_of: self.type_of@ }
    }
}

impl Clone for ScopeVariable {
    fn clone(&self) -> (r: Self)
        ensures
            r@ == self@,
    {
        ScopeVariable { asm_rep: self.asm_rep.clone(), type_of: self.type_of.clone() }
    }
}

/// The state of one run of code generation, as contracts speak of it.
pub struct GeneratorView {
    /// For each register by its number, whether it is on loan as scratch.
    pub taken: Seq<bool>,
    /// The number that the next local label gets.
    pub label_counter: u64,
    /// The local labels written into the text so far, in their order.
    pub labels: Seq<u64>,
    /// The labels that the unconditional jumps written so far go to, in
    /// their order.
    pub jumps: Seq<u64>,
    /// How many bytes the code of expressions has pushed onto the stack and
    /// not yet taken off again.
    pub stack: int,
    /// The scopes of symbols, the file's scope first and the current one last.
    pub scopes: Seq<Map<Seq<char>, VariableView>>,
    /// For each register by its number, whether it holds a parameter of the
    /// function that is being generated.
    pub arg_regs: Seq<bool>,
    /// The label at which the function that is being generated returns.
    pub return_label: Option<u64>,
    /// The width of what the function that is being generated returns;
    /// `Void` outside a function.
    pub return_size: RegisterSize,
    /// How many bytes below the frame pointer are given to local variables.
    pub rdp_offset: usize,
    /// The symbols that other units define.
    pub externs: Seq<Seq<char>>,
    /// The symbols that other units may link to.
    pub globals: Seq<Seq<char>>,
    /// The data section.
    pub data: Seq<char>,
    /// The section of zero-initialised storage.
    pub bss: Seq<char>,
    /// The text section.
    pub instructions: Seq<char>,
}

/// One line for each name, made of a keyword, the name and a line break.
pub open spec fn directive_lines(keyword: Seq<char>, names: Seq<Seq<char>>) -> Seq<char>
    decreases names.len(),
{
    if names.len() == 0 {
        Seq::empty()
    } else {
        directive_lines(keyword, names.drop_last()) + keyword + names.last() + "\n"@
    }
}

/// The operand for a local variable: the memory at an offset below the frame
/// pointer, at a width.
pub open spec fn local_operand(size: RegisterSize, offset: usize) -> Seq<char> {
    size.text() + " [RBP - "@ + decimal(offset as nat) + "]"@
}

impl GeneratorView {
    /// Every register has its two flags, and the file's scope is there.
    pub open spec fn wf(self) -> bool {
        &&& self.taken.len() == NUM_REGS
        &&& self.arg_regs.len() == NUM_REGS
        &&& self.scopes.len() >= 1
    }

    /// The state in which a run starts: nothing on loan, nothing declared,
    /// nothing written.
    pub open spec fn fresh() -> GeneratorView {
        GeneratorView {
            taken: Seq::new(NUM_REGS as nat, |i: int| false),
            label_counter: 0,
            labels: Seq::empty(),
            jumps: Seq::empty(),
            stack: 0,
            scopes: seq![Map::empty()],
            arg_regs: Seq::new(NUM_REGS as nat, |i: int| false),
            return_label: None,
            return_size: RegisterSize::Void,
            rdp_offset: 0,
            externs: Seq::empty(),
            globals: Seq::empty(),
            data: Seq::empty(),
            bss: Seq::empty(),
            instructions: Seq::empty(),
        }
    }

    /// The scratch register of the lowest number, from number `i` on, that
    /// is not on loan.
    pub open spec fn free_from(self, i: int) -> Option<Register>
        decreases NUM_REGS - i,
    {
        if i < 0 || i >= NUM_REGS {
            None
        } else if register_at(i).scratch() && !self.taken[i] {
            Some(register_at(i))
        } else {
            self.free_from(i + 1)
        }
    }

    /// The scratch register that the next loan hands out.
    pub open spec fn first_free(self) -> Option<Register> {
        self.free_from(0)
    }

    /// Lends a scratch register at a width: the free one of the lowest
    /// number, which is then on loan. Without a free one nothing changes.
    pub open spec fn lease(self, size: RegisterSize) -> (GeneratorView, Result<Scratch, CodegenError>) {
        match self.first_free() {
            None => (self, Err(CodegenError::OutOfScratch)),
            Some(reg) => (
                GeneratorView { taken: self.taken.update(reg.index(), true), ..self },
                Ok(Scratch { reg: SizedRegister { reg, size } }),
            ),
        }
    }

    /// Takes a register back.
    pub open spec fn release(self, reg: Register) -> GeneratorView {
        GeneratorView { taken: self.taken.update(reg.index(), false), ..self }
    }

    /// The state with the loans set to what `taken` says.
    pub open spec fn with_pool(self, taken: Seq<bool>) -> GeneratorView {
        GeneratorView { taken, ..self }
    }

    /// The state with the label at which the current function returns, and
    /// the width of what it returns, set.
    pub open spec fn with_return(self, label: Option<u64>, size: RegisterSize) -> GeneratorView {
        GeneratorView { return_label: label, return_size: size, ..self }
    }

    /// The state in which the register is known to hold a parameter.
    pub open spec fn hold_arg(self, reg: Register) -> GeneratorView {
        GeneratorView { arg_regs: self.arg_regs.update(reg.index(), true), ..self }
    }

    /// The state in which no register holds a parameter.
    pub open spec fn clear_args(self) -> GeneratorView {
        GeneratorView { arg_regs: Seq::new(NUM_REGS as nat, |i: int| false), ..self }
    }

    /// Hands out the next label number, unless the numbers have run out.
    pub open spec fn fresh_label(self) -> (GeneratorView, Result<u64, CodegenError>) {
        if self.label_counter == u64::MAX {
            (self, Err(CodegenError::TooLarge))
        } else {
            (
                GeneratorView { label_counter: (self.label_counter + 1) as u64, ..self },
                Ok(self.label_counter),
            )
        }
    }

    /// Writes an instruction on a line of its own, behind a tab.
    pub open spec fn emit(self, instr: InstrView) -> GeneratorView {
        GeneratorView {
            jumps: match instr {
                InstrView::Jmp(target) => self.jumps.push(target),
                _ => self.jumps,
            },
            instructions: self.instructions + "\t"@ + instr.text() + "\n"@,
            ..self
        }
    }

    /// Pushes an operand of eight bytes onto the stack.
    pub open spec fn push(self, operand: Seq<char>) -> GeneratorView {
        GeneratorView { stack: self.stack + 8, ..self.emit(InstrView::Push(operand)) }
    }

    /// Pops eight bytes off the stack into an operand.
    pub open spec fn pop(self, operand: Seq<char>) -> GeneratorView {
        GeneratorView { stack: self.stack - 8, ..self.emit(InstrView::Pop(operand)) }
    }

    /// Takes `bytes` bytes off the stack by raising the stack pointer.
    pub open spec fn free_stack(self, bytes: nat) -> GeneratorView {
        GeneratorView {
            stack: self.stack - bytes,
            ..self.emit(InstrView::Add("RSP"@, decimal(bytes)))
        }
    }

    /// Writes a local label, without ending the line.
    pub open spec fn place_label(self, id: u64) -> GeneratorView {
        GeneratorView {
            labels: self.labels.push(id),
            instructions: self.instructions + ".L"@ + decimal(id as nat) + ":"@,
            ..self
        }
    }

    /// Writes a function's label on a line of its own.
    pub open spec fn place_fn_label(self, label: Seq<char>) -> GeneratorView {
        GeneratorView { instructions: self.instructions + label + ":\n"@, ..self }
    }

    /// What the innermost of the first `depth` scopes that binds the name
    /// binds it to.
    pub open spec fn lookup_from(self, name: Seq<char>, depth: int) -> Option<VariableView>
        decreases depth,
    {
        if depth <= 0 {
            None
        } else if self.scopes[depth - 1].contains_key(name) {
            Some(self.scopes[depth - 1][name])
        } else {
            self.lookup_from(name, depth - 1)
        }
    }

    /// What the name is bound to in the innermost scope that binds it.
    pub open spec fn lookup(self, name: Seq<char>) -> Option<VariableView> {
        self.lookup_from(name, self.scopes.len() as int)
    }

    /// Whether the current scope is the file's scope.
    pub open spec fn at_file_scope(self) -> bool {
        self.scopes.len() == 1
    }

    /// Opens a scope inside the current one.
    pub open spec fn enter(self) -> GeneratorView {
        GeneratorView { scopes: self.scopes.push(Map::empty()), ..self }
    }

    /// Leaves the current scope, unless it is the file's scope, and sets the
    /// count of bytes given to locals back to what it was on entry.
    pub open spec fn exit(self, old_offset: usize) -> GeneratorView {
        GeneratorView {
            scopes: if self.scopes.len() > 1 {
                self.scopes.drop_last()
            } else {
                self.scopes
            },
            rdp_offset: old_offset,
            ..self
        }
    }

    /// Binds a name in the current scope without touching the lists of
    /// symbols.
    pub open spec fn bind_quietly(self, name: Seq<char>, var: VariableView) -> GeneratorView {
        GeneratorView {
            scopes: self.scopes.update(
                self.scopes.len() - 1,
                self.scopes.last().insert(name, var),
            ),
            ..self
        }
    }

    /// Binds a name in the current scope. A name bound in the file's scope is
    /// one that other units may link to.
    pub open spec fn bind(self, name: Seq<char>, var: VariableView) -> GeneratorView {
        let listed = if self.at_file_scope() {
            GeneratorView { globals: self.globals.push(name), ..self }
        } else {
            self
        };
        listed.bind_quietly(name, var)
    }

    /// Gives a local variable its place below the frame pointer: the count of
    /// bytes grows by the type's size, the stack pointer is lowered by as
    /// much, and the name is bound to the memory at the new offset.
    pub open spec fn bind_local(self, name: Seq<char>, t: TypeView) -> (
        GeneratorView,
        Result<Seq<char>, CodegenError>,
    ) {
        if self.at_file_scope() {
            (self, Err(CodegenError::Malformed(Malformed::LocalAtFileScope)))
        } else {
            match (byte_size(t), register_size(t)) {
                (Err(e), _) => (self, Err(e)),
                (_, Err(e)) => (self, Err(e)),
                (Ok(bytes), Ok(size)) => if size is Void {
                    (self, Err(CodegenError::Malformed(Malformed::VoidValue)))
                } else if self.rdp_offset + bytes > usize::MAX {
                    (self, Err(CodegenError::TooLarge))
                } else {
                    let new_offset = (self.rdp_offset + bytes) as usize;
                    let asm_rep = local_operand(size, new_offset);
                    (
                        GeneratorView { rdp_offset: new_offset, ..self }.emit(
                            InstrView::Sub("RSP"@, decimal(bytes as nat)),
                        ).bind(name, VariableView { asm_rep, type_of: t }),
                        Ok(asm_rep),
                    )
                },
            }
        }
    }

    /// Binds a name to the operand that stands for a global of its type.
    pub open spec fn bind_global(self, name: Seq<char>, t: TypeView) -> (
        GeneratorView,
        Result<(), CodegenError>,
    ) {
        match global_operand(name, t) {
            Err(e) => (self, Err(e)),
            Ok(asm_rep) => (self.bind(name, VariableView { asm_rep, type_of: t }), Ok(())),
        }
    }

    /// Binds a name that another unit defines, and lists it as external. This
    /// is done at file scope only.
    pub open spec fn bind_extern(self, name: Seq<char>, t: TypeView) -> (
        GeneratorView,
        Result<(), CodegenError>,
    ) {
        if !self.at_file_scope() {
            (self, Err(CodegenError::Unsupported(Unsupported::LocalExtern)))
        } else {
            match global_operand(name, t) {
                Err(e) => (self, Err(e)),
                Ok(asm_rep) => (
                    GeneratorView { externs: self.externs.push(name), ..self }.bind_quietly(
                        name,
                        VariableView { asm_rep, type_of: t },
                    ),
                    Ok(()),
                ),
            }
        }
    }

    /// Reserves zero-initialised storage of the type's size under a label.
    pub open spec fn reserve_bss(self, name: Seq<char>, t: TypeView) -> (
        GeneratorView,
        Result<(), CodegenError>,
    ) {
        match byte_size(t) {
            Err(e) => (self, Err(e)),
            Ok(bytes) => (
                GeneratorView {
                    bss: self.bss + name + ": resb "@ + decimal(bytes as nat) + "\n"@,
                    ..self
                },
                Ok(()),
            ),
        }
    }

    /// Adds an entry to the data section: a label and what stands at it.
    pub open spec fn add_data(self, name: Seq<char>, entry: Seq<char>) -> GeneratorView {
        GeneratorView { data: self.data + name + ": "@ + entry + "\n"@, ..self }
    }

    /// The assembly unit: the mode directives, a line for each external and
    /// each global symbol, then the data, bss and text sections.
    pub open spec fn render(self) -> Seq<char> {
        "BITS 64\nDEFAULT REL\n\n"@ + directive_lines("EXTERN "@, self.externs) + directive_lines(
            "GLOBAL "@,
            self.globals,
        ) + "\nSECTION .data\n"@ + self.data + "\nSECTION .bss\n"@ + self.bss
            + "\nSECTION .text\n"@ + self.instructions
    }
}

impl GeneratorView {
    /// How many scratch registers, from number `i` on, are not on loan.
    pub open spec fn free_count_from(self, i: int) -> nat
        decreases NUM_REGS - i,
    {
        if i < 0 || i >= NUM_REGS {
            0
        } else if register_at(i).scratch() && !self.taken[i] {
            1 + self.free_count_from(i + 1)
        } else {
            self.free_count_from(i + 1)
        }
    }

    /// How many scratch registers are not on loan.
    pub open spec fn free_count(self) -> nat {
        self.free_count_from(0)
    }

    /// The state after `n` loans in a row with none returned in between, or
    /// as many of them as went through.
    pub open spec fn after_leases(self, n: nat, size: RegisterSize) -> GeneratorView
        decreases n,
    {
        if n == 0 {
            self
        } else {
            self.lease(size).0.after_leases((n - 1) as nat, size)
        }
    }
}

/// A loan goes through exactly when a scratch register is free. It takes a
/// scratch register that was not on loan and leaves one fewer free; a loan
/// that does not go through reports that the pool is exhausted and changes
/// nothing.
pub proof fn lemma_lease(m: GeneratorView, size: RegisterSize)
    requires
        m.wf(),
    ensures
        m.lease(size).1 is Ok <==> m.free_count() > 0,
        m.lease(size).1 matches Ok(s) ==> {
            &&& s.reg.reg.scratch()
            &&& s.reg.size == size
            &&& !m.taken[s.reg.reg.index()]
            &&& m.lease(size).0.taken[s.reg.reg.index()]
            &&& m.lease(size).0.free_count() == m.free_count() - 1
            &&& m.lease(size).0.wf()
        },
        m.lease(size).1 is Err ==> m.lease(size) == (
            m,
            Err::<Scratch, CodegenError>(CodegenError::OutOfScratch),
        ),
{
    reveal_with_fuel(GeneratorView::free_from, 15);
    reveal_with_fuel(GeneratorView::free_count_from, 15);
}

/// Returning a scratch register that is on loan leaves one more free.
pub proof fn lemma_release(m: GeneratorView, reg: Register)
    requires
        m.wf(),
        reg.scratch(),
        m.taken[reg.index()],
    ensures
        m.release(reg).free_count() == m.free_count() + 1,
        m.release(reg).wf(),
{
    reveal_with_fuel(GeneratorView::free_count_from, 15);
}

/// The bound of the pool: with `n` scratch registers free, `n` loans in a
/// row all go through and leave none free, and one more loan fails with the
/// pool exhausted. When any one of the registers on loan is then returned,
/// the next loan goes through, and the one after it fails again.
pub proof fn lemma_pool_bound(m: GeneratorView, size: RegisterSize, returned: Register)
    requires
        m.wf(),
        returned.scratch(),
    ensures
        forall|k: nat| k < m.free_count() ==> (#[trigger] m.after_leases(k, size)).lease(size).1 is Ok,
        m.after_leases(m.free_count(), size).free_count() == 0,
        m.after_leases(m.free_count(), size).lease(size).1 == Err::<Scratch, CodegenError>(
            CodegenError::OutOfScratch,
        ),
        ({
            let full = m.after_leases(m.free_count(), size);
            let again = full.release(returned).lease(size);
            &&& full.taken[returned.index()]
            &&& again.1 is Ok
            &&& again.0.lease(size).1 == Err::<Scratch, CodegenError>(CodegenError::OutOfScratch)
        }),
{
    assert forall|k: nat| k <= m.free_count() implies (#[trigger] m.after_leases(k, size)).wf()
        && m.after_leases(k, size).free_count() == m.free_count() - k by {
        lemma_after_leases(m, k, size);
    }
    assert forall|k: nat| k < m.free_count() implies (#[trigger] m.after_leases(k, size)).lease(
        size,
    ).1 is Ok by {
        lemma_after_leases(m, k, size);
        lemma_lease(m.after_leases(k, size), size);
    }
    let full = m.after_leases(m.free_count(), size);
    lemma_after_leases(m, m.free_count(), size);
    lemma_lease(full, size);
    assert(full.taken[returned.index()]) by {
        reveal_with_fuel(GeneratorView::free_count_from, 15);
    }
    lemma_release(full, returned);
    lemma_lease(full.release(returned), size);
    lemma_lease(full.release(returned).lease(size).0, size);
}

/// Each loan that goes through leaves one register fewer free.
pub proof fn lemma_after_leases(m: GeneratorView, k: nat, size: RegisterSize)
    requires
        m.wf(),
        k <= m.free_count(),
    ensures
        m.after_leases(k, size).wf(),
        m.after_leases(k, size).free_count() == m.free_count() - k,
    decreases k,
{
    if k > 0 {
        lemma_lease(m, size);
        lemma_after_leases(m.lease(size).0, (k - 1) as nat, size);
    }
}

/// What entering a scope hands back, to be given up on leaving it: the count
/// of bytes that locals had taken when the scope was entered.
#[derive(Debug)]
pub struct ScopeOwner {
    old_offset: usize,
}

/// One run of code generation, for one translation unit.
pub struct GeneratorInstance {
    /// For each register by its number, whether it is on loan as scratch.
    scratches: [bool; 14],
    /// Counts the `.L` labels handed out.
    label_counter: u64,
    /// The `.L` labels written so far; kept for proofs only.
    labels: Ghost<Seq<u64>>,
    /// The targets of the `jmp` instructions written so far; kept for proofs
    /// only.
    jumps: Ghost<Seq<u64>>,
    /// The bytes that expressions have pushed and not yet taken off; kept for
    /// proofs only.
    stack: Ghost<int>,
    /// The scopes, each a list of bindings; the first is the file's scope,
    /// the second a function's, and so on inwards.
    scopes: Vec<Vec<(String, ScopeVariable)>>,
    /// For each register by its number, whether it holds a parameter of the
    /// current function.
    arg_regs: [bool; 14],
    /// The label to jump to in order to return, inside a function.
    return_label: Option<u64>,
    /// The width of what the current function returns.
    return_size: RegisterSize,
    /// How many bytes below the frame pointer are given to local variables.
    rdp_offset: usize,
    /// The external symbols, to be linked later.
    externs: Vec<String>,
    /// The symbols that others may link to.
    globals: Vec<String>,
    /// The contents of the data section.
    data: String,
    /// The contents of the bss section.
    bss: String,
    /// The contents of the text section.
    instructions: String,
}

/// The texts of a list of strings.
pub open spec fn texts(names: Seq<String>) -> Seq<Seq<char>> {
    Seq::new(names.len(), |i: int| names[i]@)
}

/// The maps that a list of lists of bindings stands for.
pub open spec fn tables(scopes: Seq<Vec<(String, ScopeVariable)>>) -> Seq<
    Map<Seq<char>, VariableView>,
> {
    Seq::new(scopes.len(), |i: int| table_of(scopes[i]@))
}

impl View for GeneratorInstance {
    type V = GeneratorView;

    closed spec fn view(&self) -> GeneratorView {
        GeneratorView {
            taken: self.scratches@,
            label_counter: self.label_counter,
            labels: self.labels@,
            jumps: self.jumps@,
            stack: self.stack@,
            scopes: tables(self.scopes@),
            arg_regs: self.arg_regs@,
            return_label: self.return_label,
            return_size: self.return_size,
            rdp_offset: self.rdp_offset,
            externs: texts(self.externs@),
            globals: texts(self.globals@),
            data: self.data@,
            bss: self.bss@,
            instructions: self.instructions@,
        }
    }
}

impl ScopeOwner {
    /// The count of bytes that leaving the scope sets back.
    pub closed spec fn offset(&self) -> usize {
        self.old_offset
    }

    /// Opens a scope in `instance` and remembers what to set back at its end.
    pub fn new(instance: &mut GeneratorInstance) -> (r: ScopeOwner)
        requires
            old(instance).wf(),
        ensures
            final(instance).wf(),
            final(instance)@ == old(instance)@.enter(),
            r.offset() == old(instance)@.rdp_offset,
    {
        let so = ScopeOwner { old_offset: instance.rdp_offset };
        instance.scopes.push(Vec::new());
        proof {
            assert(instance@.scopes =~= old(instance)@.enter().scopes);
        }
        so
    }
}

impl GeneratorInstance {
    /// Whether the state is one that the generator keeps: see
    /// [`GeneratorView::wf`].
    pub open spec fn wf(&self) -> bool {
        self@.wf()
    }

    /// Starts a run: every scratch register is free, and only the file's
    /// scope is open.
    pub fn new() -> (r: GeneratorInstance)
        ensures
            r.wf(),
            r@ == GeneratorView::fresh(),
    {
        let scratches = [false;14];
        let arg_regs = [false;14];
        let mut scopes: Vec<Vec<(String, ScopeVariable)>> = Vec::new();
        scopes.push(Vec::new());
        let r = GeneratorInstance {
            scratches,
            label_counter: 0,
            labels: Ghost(Seq::empty()),
            jumps: Ghost(Seq::empty()),
            stack: Ghost(0),
            scopes,
            arg_regs,
            return_label: None,
            return_size: RegisterSize::Void,
            rdp_offset: 0,
            externs: Vec::new(),
            globals: Vec::new(),
            data: String::new(),
            bss: String::new(),
            instructions: String::new(),
        };
        proof {
            let fresh = GeneratorView::fresh();
            assert(r@.taken =~= fresh.taken);
            assert(r@.arg_regs =~= fresh.arg_regs);
            assert(r@.scopes =~= fresh.scopes);
            assert(r@.externs =~= fresh.externs);
            assert(r@.globals =~= fresh.globals);
        }
        r
    }

    /// Lends a scratch register at the given width, or reports that none is
    /// free. A register that is on loan is never lent a second time.
    pub fn alloc_scratch(&mut self, size: RegisterSize) -> (r: Result<Scratch, CodegenError>)
        requires
            old(self).wf(),
        ensures
            final(self).wf(),
            (final(self)@, r) == old(self)@.lease(size),
    {
        let mut i: u8 = 0;
        while i < NUM_REGS
            invariant
                i <= NUM_REGS,
                self.wf(),
                *self == *old(self),
                self@.first_free() == self@.free_from(i as int),
            decreases NUM_REGS - i,
        {
            match Register::try_from(i) {
                Ok(reg) => {
                    if reg.is_scratch() && !self.scratches[i as usize] {
                        self.scratches[i as usize] = true;
                        return Ok(Scratch { reg: SizedRegister { reg, size } });
                    }
                },
                Err(_) => {},
            }
            i += 1;
        }
        Err(CodegenError::OutOfScratch)
    }

    /// Takes a scratch register back, so that it can be lent again.
    pub fn free_scratch(&mut self, scratch: Scratch)
        requires
            old(self).wf(),
        ensures
            final(self).wf(),
            final(self)@ == old(self)@.release(scratch.reg.reg),
    {
        let n = scratch.reg.reg.number();
        self.scratches[n as usize] = false;
    }

    /// Which registers are on loan, to be handed to
    /// [`GeneratorInstance::restore_scratches`] later.
    pub fn held_scratches(&self) -> (r: [bool; 14])
        ensures
            r@ == self@.taken,
    {
        self.scratches
    }

    /// Sets the loans back to what they were when `held` was taken: every
    /// register lent since then is free again.
    pub fn restore_scratches(&mut self, held: [bool; 14])
        requires
            old(self).wf(),
        ensures
            final(self).wf(),
            final(self)@ == old(self)@.with_pool(held@),
    {
        self.scratches = held;
    }

    /// The label at which the function that is being generated returns.
    pub fn return_label(&self) -> (r: Option<u64>)
        ensures
            r == self@.return_label,
    {
        self.return_label
    }

    /// The width of what the function that is being generated returns.
    pub fn return_size(&self) -> (r: RegisterSize)
        ensures
            r == self@.return_size,
    {
        self.return_size
    }

    /// Sets the label at which the function that is being generated returns,
    /// and the width of what it returns.
    pub fn set_return(&mut self, label: Option<u64>, size: RegisterSize)
        requires
            old(self).wf(),
        ensures
            final(self).wf(),
            final(self)@ == old(self)@.with_return(label, size),
    {
        self.return_label = label;
        self.return_size = size;
    }

    /// Whether the register holds a parameter of the current function.
    pub fn arg_reg_in_use(&self, reg: Register) -> (r: bool)
        requires
            self.wf(),
        ensures
            r == self@.arg_regs[reg.index()],
    {
        self.arg_regs[reg.number() as usize]
    }

    /// Notes that the register holds a parameter of the current function.
    pub fn use_arg_reg(&mut self, reg: Register)
        requires
            old(self).wf(),
        ensures
            final(self).wf(),
            final(self)@ == old(self)@.hold_arg(reg),
    {
        self.arg_regs[reg.number() as usize] = true;
    }

    /// Forgets which registers hold parameters.
    pub fn clear_arg_regs(&mut self)
        requires
            old(self).wf(),
        ensures
            final(self).wf(),
            final(self)@ == old(self)@.clear_args(),
    {
        self.arg_regs = [false;14];
        proof {
            assert(self@.arg_regs =~= old(self)@.clear_args().arg_regs);
        }
    }

    /// Hands out the number of a new local label.
    pub fn new_label(&mut self) -> (r: Result<u64, CodegenError>)
        requires
            old(self).wf(),
        ensures
            final(self).wf(),
            (final(self)@, r) == old(self)@.fresh_label(),
    {
        if self.label_counter == u64::MAX {
            return Err(CodegenError::TooLarge);
        }
        let id = self.label_counter;
        self.label_counter += 1;
        Ok(id)
    }

    /// Writes the local label with the given number at the current place.
    pub fn add_label(&mut self, id: u64)
        requires
            old(self).wf(),
        ensures
            final(self).wf(),
            final(self)@ == old(self)@.place_label(id),
    {
        let number = decimal_string(id as u128);
        self.instructions.append(".L");
        self.instructions.append(number.as_str());
        self.instructions.append(":");
        self.labels = Ghost(self.labels@.push(id));
    }

    /// Writes a function's label at the current place.
    pub fn add_fn_label(&mut self, label: String)
        requires
            old(self).wf(),
        ensures
            final(self).wf(),
            final(self)@ == old(self)@.place_fn_label(label@),
    {
        self.instructions.append(label.as_str());
        self.instructions.append(":\n");
    }

    /// What a symbol is bound to, looking from the current scope outwards.
    pub fn get_symbol(&self, symbol: &str) -> (r: Option<ScopeVariable>)
        requires
            self.wf(),
        ensures
            match r {
                Some(v) => self@.lookup(symbol@) == Some(v@),
                None => self@.lookup(symbol@) is None,
            },
    {
        let name = symbol.to_owned();
        let mut depth: usize = self.scopes.len();
        while depth > 0
            invariant
                depth <= self.scopes.len(),
                name@ == symbol@,
                self@.lookup(symbol@) == self@.lookup_from(symbol@, depth as int),
            decreases depth,
        {
            depth -= 1;
            match find(&self.scopes[depth], &name) {
                Some(v) => {
                    return Some(v.clone());
                },
                None => {},
            }
        }
        None
    }

    /// Whether the current scope is the file's scope.
    pub fn global_scope(&self) -> (r: bool)
        requires
            self.wf(),
        ensures
            r == self@.at_file_scope(),
    {
        self.scopes.len() == 1
    }

    /// Opens a scope inside the current one. What is handed back is given up
    /// to [`GeneratorInstance::exit_scope`] at the scope's end.
    pub fn enter_scope(&mut self) -> (r: ScopeOwner)
        requires
            old(self).wf(),
        ensures
            final(self).wf(),
            final(self)@ == old(self)@.enter(),
            r.offset() == old(self)@.rdp_offset,
    {
        ScopeOwner::new(self)
    }

    /// Leaves the current scope: its symbols are forgotten, and the count of
    /// bytes given to locals is what it was when the scope was entered. The
    /// stack pointer is not raised again, so that the room of a scope that
    /// was left stays taken until the function returns. The file's scope is
    /// never left.
    pub fn exit_scope(&mut self, owner: ScopeOwner)
        requires
            old(self).wf(),
        ensures
            final(self).wf(),
            final(self)@ == old(self)@.exit(owner.offset()),
    {
        self.rdp_offset = owner.old_offset;
        if self.scopes.len() > 1 {
            self.scopes.pop();
            proof {
                assert(self@.scopes =~= old(self)@.exit(owner.offset()).scopes);
            }
        }
    }

    /// Gives a local variable its place on the stack and binds its name to
    /// it. Returns the operand that stands for the variable.
    pub fn add_local(&mut self, symbol: String, type_of: Type) -> (r: Result<String, CodegenError>)
        requires
            old(self).wf(),
        ensures
            final(self).wf(),
            (final(self)@, written(r)) == old(self)@.bind_local(symbol@, type_of@),
    {
        if self.global_scope() {
            return Err(CodegenError::Malformed(Malformed::LocalAtFileScope));
        }
        let bytes = get_bytes(&type_of)?;
        let size = get_size(&type_of)?;
        match size {
            RegisterSize::Void => {
                return Err(CodegenError::Malformed(Malformed::VoidValue));
            },
            _ => {},
        }
        if bytes > usize::MAX - self.rdp_offset {
            return Err(CodegenError::TooLarge);
        }
        let new_offset = self.rdp_offset + bytes;
        self.rdp_offset = new_offset;
        self.add_instr(Instr::Sub(String::from_str("RSP"), decimal_string(bytes as u128)));
        let mut asm_rep = size.to_string();
        asm_rep.append(" [RBP - ");
        let at = decimal_string(new_offset as u128);
        asm_rep.append(at.as_str());
        asm_rep.append("]");
        let result = asm_rep.clone();
        self.add_symbol_with_asm(symbol, ScopeVariable { asm_rep, type_of });
        Ok(result)
    }

    /// Binds a name to the operand that stands for a global of its type.
    pub fn add_global(&mut self, symbol: String, type_of: Type) -> (r: Result<(), CodegenError>)
        requires
            old(self).wf(),
        ensures
            final(self).wf(),
            (final(self)@, r) == old(self)@.bind_global(symbol@, type_of@),
    {
        let asm_rep = get_global_asm(symbol.as_str(), &type_of)?;
        self.add_symbol_with_asm(symbol, ScopeVariable { asm_rep, type_of });
        Ok(())
    }

    /// Binds a name in the current scope to what it is known by. In the
    /// file's scope the name is also listed as one that others may link to.
    pub fn add_symbol_with_asm(&mut self, symbol: String, var: ScopeVariable)
        requires
            old(self).wf(),
        ensures
            final(self).wf(),
            final(self)@ == old(self)@.bind(symbol@, var@),
    {
        if self.global_scope() {
            self.globals.push(symbol.clone());
            proof {
                assert(self@.globals =~= old(self)@.globals.push(symbol@));
            }
        }
        self.bind_in_current(symbol, var);
    }

    /// Binds a name that another unit defines, and lists it as external.
    pub fn add_extern(&mut self, symbol: String, type_of: Type) -> (r: Result<(), CodegenError>)
        requires
            old(self).wf(),
        ensures
            final(self).wf(),
            (final(self)@, r) == old(self)@.bind_extern(symbol@, type_of@),
    {
        if !self.global_scope() {
            return Err(CodegenError::Unsupported(Unsupported::LocalExtern));
        }
        let asm_rep = get_global_asm(symbol.as_str(), &type_of)?;
        self.externs.push(symbol.clone());
        proof {
            assert(self@.externs =~= old(self)@.externs.push(symbol@));
        }
        self.bind_in_current(symbol, ScopeVariable { asm_rep, type_of });
        Ok(())
    }

    /// Binds a name in the current scope and changes nothing else.
    fn bind_in_current(&mut self, symbol: String, var: ScopeVariable)
        requires
            old(self).wf(),
        ensures
            final(self).wf(),
            final(self)@ == old(self)@.bind_quietly(symbol@, var@),
    {
        let ghost before = self.scopes@;
        let mut top = match self.scopes.pop() {
            Some(top) => top,
            None => Vec::new(),
        };
        proof {
            lemma_table_push(top@, symbol, var);
        }
        top.push((symbol, var));
        self.scopes.push(top);
        proof {
            assert(self@.scopes =~= old(self)@.bind_quietly(symbol@, var@).scopes);
        }
    }

    /// Writes an instruction at the current place.
    pub fn add_instr(&mut self, instr: Instr)
        requires
            old(self).wf(),
        ensures
            final(self).wf(),
            final(self)@ == old(self)@.emit(instr@),
    {
        let line = instr.to_string();
        self.instructions.append("\t");
        self.instructions.append(line.as_str());
        self.instructions.append("\n");
        self.jumps = Ghost(
            match instr@ {
                InstrView::Jmp(target) => self.jumps@.push(target),
                _ => self.jumps@,
            },
        );
    }

    /// Writes the push of an operand of eight bytes.
    pub fn push_operand(&mut self, operand: String)
        requires
            old(self).wf(),
        ensures
            final(self).wf(),
            final(self)@ == old(self)@.push(operand@),
    {
        self.add_instr(Instr::Push(operand));
        self.stack = Ghost(self.stack@ + 8);
    }

    /// Writes the pop of eight bytes into an operand.
    pub fn pop_operand(&mut self, operand: String)
        requires
            old(self).wf(),
        ensures
            final(self).wf(),
            final(self)@ == old(self)@.pop(operand@),
    {
        self.add_instr(Instr::Pop(operand));
        self.stack = Ghost(self.stack@ - 8);
    }

    /// Writes the instruction that takes `bytes` bytes off the stack.
    pub fn free_stack(&mut self, bytes: u128)
        requires
            old(self).wf(),
        ensures
            final(self).wf(),
            final(self)@ == old(self)@.free_stack(bytes as nat),
    {
        self.add_instr(Instr::Add(String::from_str("RSP"), decimal_string(bytes)));
        self.stack = Ghost(self.stack@ - bytes);
    }

    /// Reserves zero-initialised storage of the type's size under a label.
    pub fn add_bss(&mut self, symbol: String, type_of: &Type) -> (r: Result<(), CodegenError>)
        requires
            old(self).wf(),
        ensures
            final(self).wf(),
            (final(self)@, r) == old(self)@.reserve_bss(symbol@, type_of@),
    {
        let size = get_bytes(type_of)?;
        let number = decimal_string(size as u128);
        self.bss.append(symbol.as_str());
        self.bss.append(": resb ");
        self.bss.append(number.as_str());
        self.bss.append("\n");
        Ok(())
    }

    /// Adds an entry to the data section: a label and what stands at it.
    pub fn add_data(&mut self, symbol: String, entry: String)
        requires
            old(self).wf(),
        ensures
            final(self).wf(),
            final(self)@ == old(self)@.add_data(symbol@, entry@),
    {
        self.data.append(symbol.as_str());
        self.data.append(": ");
        self.data.append(entry.as_str());
        self.data.append("\n");
    }

    /// The assembly unit as it stands.
    pub fn get_instructions(&self) -> (r: String)
        requires
            self.wf(),
        ensures
            r@ == self@.render(),
    {
        let mut unit = String::from_str("BITS 64\nDEFAULT REL\n\n");
        let mut i: usize = 0;
        while i < self.externs.len()
            invariant
                i <= self.externs.len(),
                unit@ == "BITS 64\nDEFAULT REL\n\n"@ + directive_lines(
                    "EXTERN "@,
                    self@.externs.take(i as int),
                ),
            decreases self.externs.len() - i,
        {
            proof {
                assert(self@.externs.take(i + 1).drop_last() =~= self@.externs.take(i as int));
            }
            unit.append("EXTERN ");
            unit.append(self.externs[i].as_str());
            unit.append("\n");
            i += 1;
        }
        proof {
            assert(self@.externs.take(i as int) =~= self@.externs);
        }
        let ghost head = unit@;
        let mut j: usize = 0;
        while j < self.globals.len()
            invariant
                j <= self.globals.len(),
                unit@ == head + directive_lines("GLOBAL "@, self@.globals.take(j as int)),
            decreases self.globals.len() - j,
        {
            proof {
                assert(self@.globals.take(j + 1).drop_last() =~= self@.globals.take(j as int));
            }
            unit.append("GLOBAL ");
            unit.append(self.globals[j].as_str());
            unit.append("\n");
            j += 1;
        }
        proof {
            assert(self@.globals.take(j as int) =~= self@.globals);
        }
        unit.append("\nSECTION .data\n");
        unit.append(self.data.as_str());
        unit.append("\nSECTION .bss\n");
        unit.append(self.bss.as_str());
        unit.append("\nSECTION .text\n");
        unit.append(self.instructions.as_str());
        unit
    }
}

} // verus!
