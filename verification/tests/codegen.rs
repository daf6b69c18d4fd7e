use ccomp::ast::declaration::Declaration;
use ccomp::ast::declaration::DeclarationValue;
use ccomp::ast::expressions::BinaryExpr;
use ccomp::ast::expressions::CastExpr;
use ccomp::ast::expressions::Expression;
use ccomp::ast::expressions::FuncCallExpr;
use ccomp::ast::expressions::TernaryExpr;
use ccomp::ast::expressions::UnaryExpr;
use ccomp::ast::statements::IfStatement;
use ccomp::ast::statements::Statement;
use ccomp::ast::statements::WhileLoopStatement;
use ccomp::ast::translation_unit::TranslationUnit;
use ccomp::ast::types::FunctionType;
use ccomp::ast::types::Type;
use ccomp::codegen::error::CodegenError;
use ccomp::codegen::error::Malformed;
use ccomp::codegen::error::Unsupported;
use ccomp::codegen::x86_64::expression::ComparisonType;
use ccomp::codegen::x86_64::helpers::get_bytes;
use ccomp::codegen::x86_64::helpers::get_global_asm;
use ccomp::codegen::x86_64::helpers::get_size;
use ccomp::codegen::x86_64::instance::GeneratorInstance;
use ccomp::codegen::x86_64::instance::ScopeVariable;
use ccomp::codegen::x86_64::instance::Scratch;
use ccomp::codegen::x86_64::instructions::Instr;
use ccomp::codegen::x86_64::registers::arg_register;
use ccomp::codegen::x86_64::registers::Register;
use ccomp::codegen::x86_64::registers::RegisterSize;
use ccomp::codegen::x86_64::registers::SizedRegister;
use ccomp::codegen::x86_64::registers::NUM_REGS;
use ccomp::codegen::x86_64::X86_64Generator;
use ccomp::text::decimal_string;

const HEADER: &str = "BITS 64\nDEFAULT REL\n\n";

fn number(n: u64) -> Expression {
    Expression::IntLiteral(n)
}

fn name(n: &str) -> Expression {
    Expression::Identifier(n.to_string())
}

fn binary(first: Expression, second: Expression) -> Box<BinaryExpr> {
    Box::new(BinaryExpr { first, second })
}

fn unary(expr: Expression) -> Box<UnaryExpr> {
    Box::new(UnaryExpr { expr })
}

fn function(return_type: Type, args: Vec<(&str, Type)>) -> Type {
    Type::Function(Box::new(FunctionType {
        return_type,
        args: args.into_iter().map(|(n, t)| (n.to_string(), t)).collect(),
    }))
}

fn forward(n: &str, type_of: Type) -> Declaration {
    Declaration { name: n.to_string(), type_of, external: false, value: None }
}

fn external(n: &str, type_of: Type) -> Declaration {
    Declaration { name: n.to_string(), type_of, external: true, value: None }
}

fn variable(n: &str, type_of: Type, value: Expression) -> Declaration {
    Declaration {
        name: n.to_string(),
        type_of,
        external: false,
        value: Some(DeclarationValue::Variable(value)),
    }
}

fn define(n: &str, type_of: Type, body: Vec<Statement>) -> Declaration {
    Declaration {
        name: n.to_string(),
        type_of,
        external: false,
        value: Some(DeclarationValue::Function(body)),
    }
}

fn ret(value: Option<Expression>) -> Statement {
    Statement::Return(Box::new(value))
}

fn stmt(e: Expression) -> Statement {
    Statement::Expression(Box::new(e))
}

fn call(callee: &str, args: Vec<Expression>) -> Expression {
    Expression::FuncCall(Box::new(FuncCallExpr { func: name(callee), args }))
}

fn generate(declarations: Vec<Declaration>) -> Result<String, CodegenError> {
    X86_64Generator::new().generate(&TranslationUnit { declarations })
}

/// The text section of a unit.
fn text_of(unit: &str) -> &str {
    let marker = "\nSECTION .text\n";
    let at = unit.find(marker).expect("a unit has a text section");
    &unit[at + marker.len()..]
}

/// A run inside a function: the file's scope holds `g`, a 32-bit integer,
/// and the scope of a function is open with the local `x`, a 32-bit integer.
fn inside_function() -> GeneratorInstance {
    let mut instance = GeneratorInstance::new();
    instance.add_global("g".to_string(), Type::Int32).unwrap();
    let _owner = instance.enter_scope();
    instance.add_local("x".to_string(), Type::Int32).unwrap();
    instance
}

/// What lowering an expression inside a function adds to the text section.
fn lowered(e: &Expression) -> (Result<SizedRegister, CodegenError>, String) {
    let mut instance = inside_function();
    let before = instance.get_instructions().len();
    let result = instance.gen_expr(e).map(|s| s.reg);
    let after = instance.get_instructions();
    (result, after[before..].to_string())
}

#[test]
fn register_names_at_each_width() {
    let named = |reg: Register, size: RegisterSize| SizedRegister { reg, size }.to_string();
    assert_eq!(named(Register::Rax, RegisterSize::QWord), "RAX");
    assert_eq!(named(Register::Rax, RegisterSize::DWord), "EAX");
    assert_eq!(named(Register::Rax, RegisterSize::Word), "AX");
    assert_eq!(named(Register::Rax, RegisterSize::Byte), "AL");
    assert_eq!(named(Register::Rbx, RegisterSize::QWord), "RBX");
    assert_eq!(named(Register::Rbx, RegisterSize::Byte), "BL");
    assert_eq!(named(Register::Rcx, RegisterSize::DWord), "ECX");
    assert_eq!(named(Register::Rdx, RegisterSize::Word), "DX");
    assert_eq!(named(Register::Rsi, RegisterSize::QWord), "RSI");
    assert_eq!(named(Register::Rsi, RegisterSize::DWord), "ESI");
    assert_eq!(named(Register::Rsi, RegisterSize::Word), "SI");
    assert_eq!(named(Register::Rsi, RegisterSize::Byte), "SIL");
    assert_eq!(named(Register::Rdi, RegisterSize::QWord), "RDI");
    assert_eq!(named(Register::Rdi, RegisterSize::DWord), "EDI");
    assert_eq!(named(Register::Rdi, RegisterSize::Word), "DI");
    assert_eq!(named(Register::Rdi, RegisterSize::Byte), "DIL");
    assert_eq!(named(Register::R8, RegisterSize::QWord), "R8");
    assert_eq!(named(Register::R8, RegisterSize::DWord), "R8D");
    assert_eq!(named(Register::R8, RegisterSize::Word), "R8W");
    assert_eq!(named(Register::R8, RegisterSize::Byte), "R8B");
    assert_eq!(named(Register::R9, RegisterSize::DWord), "R9D");
    assert_eq!(named(Register::R10, RegisterSize::QWord), "R10");
    assert_eq!(named(Register::R11, RegisterSize::Byte), "R11B");
    assert_eq!(named(Register::R12, RegisterSize::DWord), "R12D");
    assert_eq!(named(Register::R13, RegisterSize::Word), "R13W");
    assert_eq!(named(Register::R14, RegisterSize::Byte), "R14B");
    assert_eq!(named(Register::R15, RegisterSize::QWord), "R15");
}

#[test]
fn register_numbers() {
    let all = [
        Register::Rax,
        Register::Rbx,
        Register::Rcx,
        Register::Rdx,
        Register::Rsi,
        Register::Rdi,
        Register::R8,
        Register::R9,
        Register::R10,
        Register::R11,
        Register::R12,
        Register::R13,
        Register::R14,
        Register::R15,
    ];
    assert_eq!(NUM_REGS, 14);
    for (i, reg) in all.iter().enumerate() {
        assert_eq!(reg.number() as usize, i);
        assert_eq!(Register::try_from(i as u8), Ok(*reg));
    }
    assert_eq!(Register::try_from(14), Err("Register number must be 0-13"));
    assert_eq!(Register::try_from(255), Err("Register number must be 0-13"));
}

#[test]
fn argument_registers_in_calling_order() {
    let order: Vec<Register> = (0..6).map(arg_register).collect();
    assert_eq!(
        order,
        vec![
            Register::Rdi,
            Register::Rsi,
            Register::Rdx,
            Register::Rcx,
            Register::R8,
            Register::R9
        ]
    );
}

#[test]
fn scratch_registers_leave_out_arguments_and_clobbered() {
    let scratch: Vec<Register> = (0..NUM_REGS)
        .map(|i| Register::try_from(i).unwrap())
        .filter(|r| r.is_scratch())
        .collect();
    assert_eq!(
        scratch,
        vec![Register::Rbx, Register::R12, Register::R13, Register::R14, Register::R15]
    );
}

#[test]
fn register_size_keywords_and_widths() {
    assert_eq!(RegisterSize::QWord.to_string(), "QWORD");
    assert_eq!(RegisterSize::DWord.to_string(), "DWORD");
    assert_eq!(RegisterSize::Word.to_string(), "WORD");
    assert_eq!(RegisterSize::Byte.to_string(), "BYTE");
    assert_eq!(RegisterSize::QWord.width(), 8);
    assert_eq!(RegisterSize::DWord.width(), 4);
    assert_eq!(RegisterSize::Word.width(), 2);
    assert_eq!(RegisterSize::Byte.width(), 1);
    assert_eq!(RegisterSize::Void.width(), 0);
}

#[test]
fn decimal_numerals() {
    assert_eq!(decimal_string(0), "0");
    assert_eq!(decimal_string(7), "7");
    assert_eq!(decimal_string(10), "10");
    assert_eq!(decimal_string(1234567890), "1234567890");
    assert_eq!(decimal_string(u64::MAX as u128), "18446744073709551615");
    assert_eq!(decimal_string(u128::MAX), "340282366920938463463374607431768211455");
}

#[test]
fn instructions_as_written() {
    let a = || "RAX".to_string();
    let b = || "DWORD [RBP - 4]".to_string();
    assert_eq!(Instr::Mov(a(), b()).to_string(), "mov RAX, DWORD [RBP - 4]");
    assert_eq!(Instr::Movsx(a(), b()).to_string(), "movsx RAX, DWORD [RBP - 4]");
    assert_eq!(Instr::Lea(a(), b()).to_string(), "lea RAX, DWORD [RBP - 4]");
    assert_eq!(Instr::Add(a(), b()).to_string(), "add RAX, DWORD [RBP - 4]");
    assert_eq!(Instr::Sub(a(), b()).to_string(), "sub RAX, DWORD [RBP - 4]");
    assert_eq!(Instr::Imul(a(), b()).to_string(), "imul RAX, DWORD [RBP - 4]");
    assert_eq!(Instr::Idiv(a()).to_string(), "idiv RAX");
    assert_eq!(Instr::Neg(a()).to_string(), "neg RAX");
    assert_eq!(Instr::Not(a()).to_string(), "not RAX");
    assert_eq!(Instr::Or(a(), b()).to_string(), "or RAX, DWORD [RBP - 4]");
    assert_eq!(Instr::Xor(a(), b()).to_string(), "xor RAX, DWORD [RBP - 4]");
    assert_eq!(Instr::And(a(), b()).to_string(), "and RAX, DWORD [RBP - 4]");
    assert_eq!(Instr::Push(a()).to_string(), "push RAX");
    assert_eq!(Instr::Pop(a()).to_string(), "pop RAX");
    assert_eq!(Instr::Call("puts".to_string()).to_string(), "call puts");
    assert_eq!(Instr::Jmp(0).to_string(), "jmp .L0");
    assert_eq!(Instr::Cmp(a(), "0".to_string()).to_string(), "cmp RAX, 0");
    assert_eq!(Instr::Je(1).to_string(), "je .L1");
    assert_eq!(Instr::Jne(12).to_string(), "jne .L12");
    assert_eq!(Instr::Jl(3).to_string(), "jl .L3");
    assert_eq!(Instr::Jg(4).to_string(), "jg .L4");
    assert_eq!(Instr::Jle(5).to_string(), "jle .L5");
    assert_eq!(Instr::Jge(u64::MAX).to_string(), "jge .L18446744073709551615");
    assert_eq!(Instr::Cqo.to_string(), "cqo");
    assert_eq!(Instr::Ret.to_string(), "ret");
    assert_eq!(Instr::Mov(a(), b()).clone().to_string(), "mov RAX, DWORD [RBP - 4]");
}

#[test]
fn comparison_jumps() {
    assert_eq!(ComparisonType::Eq.jump_instr(1).to_string(), "je .L1");
    assert_eq!(ComparisonType::Ne.jump_instr(1).to_string(), "jne .L1");
    assert_eq!(ComparisonType::Lt.jump_instr(1).to_string(), "jl .L1");
    assert_eq!(ComparisonType::Gt.jump_instr(1).to_string(), "jg .L1");
    assert_eq!(ComparisonType::Le.jump_instr(1).to_string(), "jle .L1");
    assert_eq!(ComparisonType::Ge.jump_instr(1).to_string(), "jge .L1");
}

#[test]
fn sizes_of_types() {
    assert_eq!(get_bytes(&Type::Void), Ok(0));
    assert_eq!(get_bytes(&Type::Uint8), Ok(1));
    assert_eq!(get_bytes(&Type::Int8), Ok(1));
    assert_eq!(get_bytes(&Type::Uint16), Ok(2));
    assert_eq!(get_bytes(&Type::Int16), Ok(2));
    assert_eq!(get_bytes(&Type::Uint32), Ok(4));
    assert_eq!(get_bytes(&Type::Int32), Ok(4));
    assert_eq!(get_bytes(&Type::Uint64), Ok(8));
    assert_eq!(get_bytes(&Type::Int64), Ok(8));
    assert_eq!(get_bytes(&Type::Pointer(Box::new(Type::Uint8))), Ok(8));
    assert_eq!(get_bytes(&Type::Float), Err(CodegenError::Unsupported(Unsupported::FloatingPoint)));
    assert_eq!(
        get_bytes(&Type::Double),
        Err(CodegenError::Unsupported(Unsupported::FloatingPoint))
    );
    assert_eq!(
        get_bytes(&function(Type::Void, vec![])),
        Err(CodegenError::Malformed(Malformed::FunctionValue))
    );
    assert_eq!(get_size(&Type::Void), Ok(RegisterSize::Void));
    assert_eq!(get_size(&Type::Int8), Ok(RegisterSize::Byte));
    assert_eq!(get_size(&Type::Uint16), Ok(RegisterSize::Word));
    assert_eq!(get_size(&Type::Int32), Ok(RegisterSize::DWord));
    assert_eq!(get_size(&Type::Uint64), Ok(RegisterSize::QWord));
    assert_eq!(get_size(&Type::Pointer(Box::new(Type::Void))), Ok(RegisterSize::QWord));
    assert_eq!(get_size(&Type::Float), Err(CodegenError::Unsupported(Unsupported::FloatingPoint)));
    assert_eq!(
        ccomp::codegen::x86_64::sizes::get_size(&Type::Int16),
        Ok(2)
    );
    assert_eq!(
        ccomp::codegen::x86_64::sizes::get_size(&Type::Pointer(Box::new(Type::Int16))),
        Ok(8)
    );
    assert_eq!(
        ccomp::codegen::x86_64::sizes::get_size(&Type::Void),
        Err(CodegenError::Malformed(Malformed::VoidValue))
    );
    assert_eq!(
        ccomp::codegen::x86_64::sizes::get_size(&function(Type::Void, vec![])),
        Err(CodegenError::Malformed(Malformed::FunctionValue))
    );
    assert_eq!(
        ccomp::codegen::x86_64::sizes::get_size(&Type::Double),
        Err(CodegenError::Unsupported(Unsupported::FloatingPoint))
    );
}

#[test]
fn operand_of_a_global() {
    assert_eq!(get_global_asm("x", &Type::Int32), Ok("DWORD [x]".to_string()));
    assert_eq!(get_global_asm("b", &Type::Uint8), Ok("BYTE [b]".to_string()));
    assert_eq!(
        get_global_asm("p", &Type::Pointer(Box::new(Type::Uint8))),
        Ok("QWORD [p]".to_string())
    );
    assert_eq!(get_global_asm("main", &function(Type::Int32, vec![])), Ok("main".to_string()));
    assert_eq!(
        get_global_asm("v", &Type::Void),
        Err(CodegenError::Malformed(Malformed::VoidValue))
    );
    assert_eq!(
        get_global_asm("f", &Type::Float),
        Err(CodegenError::Unsupported(Unsupported::FloatingPoint))
    );
}

#[test]
fn empty_unit() {
    assert_eq!(
        generate(vec![]),
        Ok("BITS 64\nDEFAULT REL\n\n\nSECTION .data\n\nSECTION .bss\n\nSECTION .text\n".to_string())
    );
    assert_eq!(
        GeneratorInstance::new().get_instructions(),
        "BITS 64\nDEFAULT REL\n\n\nSECTION .data\n\nSECTION .bss\n\nSECTION .text\n"
    );
}

#[test]
fn return_of_a_sum_funnels_through_one_label() {
    let unit = generate(vec![define(
        "f",
        function(Type::Int32, vec![]),
        vec![ret(Some(Expression::Add(binary(number(2), number(3)))))],
    )])
    .unwrap();
    let expected = [
        HEADER,
        "GLOBAL f\n",
        "\nSECTION .data\n",
        "\nSECTION .bss\n",
        "\nSECTION .text\n",
        "f:\n",
        "\tpush RBP\n",
        "\tmov RBP, RSP\n",
        "\tmov EBX, 2\n",
        "\tmov R12D, 3\n",
        "\tadd EBX, R12D\n",
        "\tmov EAX, EBX\n",
        "\tjmp .L0\n",
        ".L0:\tmov RSP, RBP\n",
        "\tpop RBP\n",
        "\tret\n",
    ]
    .concat();
    assert_eq!(unit, expected);
}

#[test]
fn return_label_appears_once_however_many_returns() {
    let unit = generate(vec![define(
        "f",
        function(Type::Int32, vec![]),
        vec![
            ret(Some(number(1))),
            Statement::Compound(vec![ret(Some(number(2)))]),
            ret(Some(number(3))),
        ],
    )])
    .unwrap();
    assert_eq!(unit.matches(".L0:").count(), 1);
    assert_eq!(unit.matches("\tjmp .L0\n").count(), 3);
    assert_eq!(unit.matches("\tret\n").count(), 1);
    assert!(unit.ends_with(".L0:\tmov RSP, RBP\n\tpop RBP\n\tret\n"));
}

#[test]
fn each_function_has_its_own_return_label() {
    let unit = generate(vec![
        define("f", function(Type::Void, vec![]), vec![ret(None)]),
        define("g", function(Type::Void, vec![]), vec![ret(None), ret(None)]),
    ])
    .unwrap();
    let expected_text = [
        "f:\n",
        "\tpush RBP\n",
        "\tmov RBP, RSP\n",
        "\tjmp .L0\n",
        ".L0:\tmov RSP, RBP\n",
        "\tpop RBP\n",
        "\tret\n",
        "g:\n",
        "\tpush RBP\n",
        "\tmov RBP, RSP\n",
        "\tjmp .L1\n",
        "\tjmp .L1\n",
        ".L1:\tmov RSP, RBP\n",
        "\tpop RBP\n",
        "\tret\n",
    ]
    .concat();
    assert_eq!(text_of(&unit), expected_text);
    assert!(unit.contains("GLOBAL f\nGLOBAL g\n"));
}

#[test]
fn scratch_pool_lends_five_and_then_fails() {
    let mut instance = GeneratorInstance::new();
    let mut loans: Vec<Scratch> = Vec::new();
    for _ in 0..5 {
        loans.push(instance.alloc_scratch(RegisterSize::QWord).unwrap());
    }
    let lent: Vec<Register> = loans.iter().map(|s| s.reg.reg).collect();
    assert_eq!(
        lent,
        vec![Register::Rbx, Register::R12, Register::R13, Register::R14, Register::R15]
    );
    assert_eq!(
        instance.alloc_scratch(RegisterSize::QWord).map(|s| s.reg),
        Err(CodegenError::OutOfScratch)
    );
    assert_eq!(
        instance.alloc_scratch(RegisterSize::Byte).map(|s| s.reg),
        Err(CodegenError::OutOfScratch)
    );
}

#[test]
fn returning_one_loan_permits_exactly_one_more() {
    for returned in 0..5 {
        let mut instance = GeneratorInstance::new();
        let mut loans: Vec<Scratch> = Vec::new();
        for _ in 0..5 {
            loans.push(instance.alloc_scratch(RegisterSize::DWord).unwrap());
        }
        let back = loans.remove(returned);
        let register = back.reg.reg;
        instance.free_scratch(back);
        let again = instance.alloc_scratch(RegisterSize::Word).unwrap();
        assert_eq!(again.reg, SizedRegister { reg: register, size: RegisterSize::Word });
        assert_eq!(
            instance.alloc_scratch(RegisterSize::Word).map(|s| s.reg),
            Err(CodegenError::OutOfScratch)
        );
    }
}

#[test]
fn loan_has_the_width_asked_for() {
    let mut instance = GeneratorInstance::new();
    let a = instance.alloc_scratch(RegisterSize::Byte).unwrap();
    assert_eq!(a.reg, SizedRegister { reg: Register::Rbx, size: RegisterSize::Byte });
    let b = instance.alloc_scratch(RegisterSize::Void).unwrap();
    assert_eq!(b.reg, SizedRegister { reg: Register::R12, size: RegisterSize::Void });
    instance.free_scratch(a);
    let c = instance.alloc_scratch(RegisterSize::QWord).unwrap();
    assert_eq!(c.reg, SizedRegister { reg: Register::Rbx, size: RegisterSize::QWord });
}

#[test]
fn restoring_the_loans_frees_what_was_lent_since() {
    let mut instance = GeneratorInstance::new();
    let _kept = instance.alloc_scratch(RegisterSize::QWord).unwrap();
    let held = instance.held_scratches();
    let _a = instance.alloc_scratch(RegisterSize::QWord).unwrap();
    let _b = instance.alloc_scratch(RegisterSize::QWord).unwrap();
    instance.restore_scratches(held);
    let next = instance.alloc_scratch(RegisterSize::QWord).unwrap();
    assert_eq!(next.reg.reg, Register::R12);
}

#[test]
fn expression_returns_its_loans_on_failure() {
    let mut instance = inside_function();
    let failing = Expression::Add(binary(
        Expression::Add(binary(number(1), number(2))),
        name("undefined"),
    ));
    assert_eq!(
        instance.gen_expr(&failing).map(|s| s.reg),
        Err(CodegenError::Malformed(Malformed::UndefinedSymbol))
    );
    let mut lent = Vec::new();
    for _ in 0..5 {
        lent.push(instance.alloc_scratch(RegisterSize::QWord).unwrap().reg.reg);
    }
    assert_eq!(
        lent,
        vec![Register::Rbx, Register::R12, Register::R13, Register::R14, Register::R15]
    );
}

#[test]
fn expression_keeps_one_loan_on_success() {
    let mut instance = inside_function();
    let sum = Expression::Add(binary(
        Expression::Multiply(binary(number(1), number(2))),
        Expression::Subtract(binary(number(3), number(4))),
    ));
    let value = instance.gen_expr(&sum).unwrap();
    assert_eq!(value.reg, SizedRegister { reg: Register::Rbx, size: RegisterSize::DWord });
    let mut lent = Vec::new();
    for _ in 0..4 {
        lent.push(instance.alloc_scratch(RegisterSize::QWord).unwrap().reg.reg);
    }
    assert_eq!(lent, vec![Register::R12, Register::R13, Register::R14, Register::R15]);
    assert_eq!(
        instance.alloc_scratch(RegisterSize::QWord).map(|s| s.reg),
        Err(CodegenError::OutOfScratch)
    );
}

#[test]
fn deep_expression_runs_out_of_scratch() {
    let mut e = number(0);
    for i in 1..=5 {
        e = Expression::Add(binary(number(i), e));
    }
    let (result, _) = lowered(&e);
    assert_eq!(result, Err(CodegenError::OutOfScratch));
    let mut shallower = number(0);
    for i in 1..=4 {
        shallower = Expression::Add(binary(number(i), shallower));
    }
    let (result, _) = lowered(&shallower);
    assert_eq!(result, Ok(SizedRegister { reg: Register::Rbx, size: RegisterSize::DWord }));
}

#[test]
fn global_with_literal_goes_to_data() {
    let unit = generate(vec![variable("x", Type::Int32, number(5))]).unwrap();
    assert_eq!(
        unit,
        [
            HEADER,
            "GLOBAL x\n",
            "\nSECTION .data\n",
            "x: dd 5\n",
            "\nSECTION .bss\n",
            "\nSECTION .text\n",
        ]
        .concat()
    );
}

#[test]
fn global_without_initialiser_goes_to_bss() {
    let unit = generate(vec![forward("x", Type::Int32)]).unwrap();
    assert_eq!(
        unit,
        [
            HEADER,
            "GLOBAL x\n",
            "\nSECTION .data\n",
            "\nSECTION .bss\n",
            "x: resb 4\n",
            "\nSECTION .text\n",
        ]
        .concat()
    );
}

#[test]
fn global_literal_kinds() {
    let unit = generate(vec![
        variable("c", Type::Uint8, Expression::CharLiteral(b'a')),
        variable(
            "s",
            Type::Pointer(Box::new(Type::Uint8)),
            Expression::StringLiteral("\"hi\"".to_string()),
        ),
        forward("q", Type::Pointer(Box::new(Type::Int8))),
        forward("w", Type::Int16),
    ])
    .unwrap();
    assert_eq!(
        unit,
        [
            HEADER,
            "GLOBAL c\nGLOBAL s\nGLOBAL q\nGLOBAL w\n",
            "\nSECTION .data\n",
            "c: db 97\n",
            "s: db \"hi\", 0\n",
            "\nSECTION .bss\n",
            "q: resb 8\n",
            "w: resb 2\n",
            "\nSECTION .text\n",
        ]
        .concat()
    );
}

#[test]
fn forward_function_and_extern_reserve_nothing() {
    let unit = generate(vec![
        forward("later", function(Type::Void, vec![])),
        external("puts", function(Type::Int32, vec![("s", Type::Pointer(Box::new(Type::Uint8)))])),
        external("errno", Type::Int32),
    ])
    .unwrap();
    assert_eq!(
        unit,
        [
            HEADER,
            "EXTERN puts\nEXTERN errno\n",
            "GLOBAL later\n",
            "\nSECTION .data\n",
            "\nSECTION .bss\n",
            "\nSECTION .text\n",
        ]
        .concat()
    );
}

#[test]
fn global_with_non_literal_is_rejected() {
    assert_eq!(
        generate(vec![variable("x", Type::Int32, Expression::Add(binary(number(1), number(2))))]),
        Err(CodegenError::Malformed(Malformed::GlobalNotLiteral))
    );
}

#[test]
fn call_with_eight_arguments() {
    let ints = |n: usize| -> Vec<(&'static str, Type)> {
        ["a", "b", "c", "d", "e", "f", "g", "h"][..n].iter().map(|s| (*s, Type::Int32)).collect()
    };
    let unit = generate(vec![
        external("callee", function(Type::Int32, ints(8))),
        define(
            "caller",
            function(Type::Void, vec![]),
            vec![stmt(call("callee", (1..=8).map(number).collect()))],
        ),
    ])
    .unwrap();
    let expected_text = [
        "caller:\n",
        "\tpush RBP\n",
        "\tmov RBP, RSP\n",
        "\tmov EBX, 1\n",
        "\tmov EDI, EBX\n",
        "\tmov EBX, 2\n",
        "\tmov ESI, EBX\n",
        "\tmov EBX, 3\n",
        "\tmov EDX, EBX\n",
        "\tmov EBX, 4\n",
        "\tmov ECX, EBX\n",
        "\tmov EBX, 5\n",
        "\tmov R8D, EBX\n",
        "\tmov EBX, 6\n",
        "\tmov R9D, EBX\n",
        "\tmov EBX, 8\n",
        "\tpush RBX\n",
        "\tmov EBX, 7\n",
        "\tpush RBX\n",
        "\tcall callee\n",
        "\tadd RSP, 16\n",
        "\tmov EBX, EAX\n",
        ".L0:\tmov RSP, RBP\n",
        "\tpop RBP\n",
        "\tret\n",
    ]
    .concat();
    assert_eq!(text_of(&unit), expected_text);
    assert!(unit.starts_with("BITS 64\nDEFAULT REL\n\nEXTERN callee\nGLOBAL caller\n"));
}

#[test]
fn call_with_six_arguments_pushes_nothing() {
    let unit = generate(vec![
        external("callee", function(Type::Void, vec![])),
        define(
            "caller",
            function(Type::Void, vec![]),
            vec![stmt(call("callee", (1..=6).map(number).collect()))],
        ),
    ])
    .unwrap();
    assert!(!unit.contains("push RBX"));
    assert!(!unit.contains("add RSP"));
    assert!(unit.contains("\tmov R9D, EBX\n\tcall callee\n.L0:"));
}

#[test]
fn call_saves_argument_registers_that_hold_parameters() {
    let unit = generate(vec![
        external("callee", function(Type::Int32, vec![("a", Type::Int32), ("b", Type::Int32)])),
        define(
            "caller",
            function(Type::Int32, vec![("p", Type::Int32)]),
            vec![ret(Some(call("callee", vec![number(1), name("p")])))],
        ),
    ])
    .unwrap();
    let expected_text = [
        "caller:\n",
        "\tpush RBP\n",
        "\tmov RBP, RSP\n",
        "\tmov EBX, 1\n",
        "\tpush RDI\n",
        "\tmov EDI, EBX\n",
        "\tmov EBX, EDI\n",
        "\tmov ESI, EBX\n",
        "\tcall callee\n",
        "\tpop RDI\n",
        "\tmov EBX, EAX\n",
        "\tmov EAX, EBX\n",
        "\tjmp .L0\n",
        ".L0:\tmov RSP, RBP\n",
        "\tpop RBP\n",
        "\tret\n",
    ]
    .concat();
    assert_eq!(text_of(&unit), expected_text);
}

#[test]
fn saved_argument_registers_are_popped_in_reverse() {
    let unit = generate(vec![
        external("callee", function(Type::Void, vec![])),
        define(
            "caller",
            function(Type::Void, vec![("p", Type::Int64), ("q", Type::Int64)]),
            vec![stmt(call("callee", vec![number(1), number(2)]))],
        ),
    ])
    .unwrap();
    let text = text_of(&unit);
    assert!(text.contains(
        "\tpush RDI\n\tmov EDI, EBX\n\tmov EBX, 2\n\tpush RSI\n\tmov ESI, EBX\n\tcall callee\n\tpop RSI\n\tpop RDI\n"
    ));
}

#[test]
fn argument_registers_are_forgotten_at_the_end_of_a_function() {
    let unit = generate(vec![
        external("callee", function(Type::Void, vec![])),
        define("first", function(Type::Void, vec![("p", Type::Int64)]), vec![]),
        define(
            "second",
            function(Type::Void, vec![]),
            vec![stmt(call("callee", vec![number(1)]))],
        ),
    ])
    .unwrap();
    assert!(!unit.contains("push RDI"));
    let failing = X86_64Generator::new().generate(&TranslationUnit {
        declarations: vec![define(
            "broken",
            function(Type::Void, vec![("p", Type::Int64)]),
            vec![stmt(name("undefined"))],
        )],
    });
    assert_eq!(failing, Err(CodegenError::Malformed(Malformed::UndefinedSymbol)));
}

#[test]
fn state_is_cleared_when_a_function_fails() {
    let mut instance = GeneratorInstance::new();
    instance.add_extern("callee".to_string(), function(Type::Void, vec![])).unwrap();
    let broken = define(
        "broken",
        function(Type::Void, vec![("p", Type::Int64)]),
        vec![stmt(name("undefined"))],
    );
    assert_eq!(
        instance.gen_declaration(&broken),
        Err(CodegenError::Malformed(Malformed::UndefinedSymbol))
    );
    assert!(instance.global_scope());
    assert_eq!(instance.return_label(), None);
    assert!(!instance.arg_reg_in_use(Register::Rdi));
    assert!(instance.get_symbol("p").is_none());
}

#[test]
fn parameters_beyond_the_sixth_live_above_the_frame_pointer() {
    let params: Vec<(&str, Type)> = vec![
        ("a", Type::Int32),
        ("b", Type::Int64),
        ("c", Type::Uint8),
        ("d", Type::Int16),
        ("e", Type::Int32),
        ("f", Type::Int32),
        ("g", Type::Int32),
        ("h", Type::Uint8),
        ("i", Type::Int64),
    ];
    let body: Vec<Statement> = ["a", "b", "c", "d", "e", "f", "g", "h", "i"]
        .iter()
        .map(|n| stmt(name(n)))
        .collect();
    let unit = generate(vec![define("f9", function(Type::Void, params), body)]).unwrap();
    let expected_text = [
        "f9:\n",
        "\tpush RBP\n",
        "\tmov RBP, RSP\n",
        "\tmov EBX, EDI\n",
        "\tmov RBX, RSI\n",
        "\tmov BL, DL\n",
        "\tmov BX, CX\n",
        "\tmov EBX, R8D\n",
        "\tmov EBX, R9D\n",
        "\tmov EBX, DWORD [RBP + 16]\n",
        "\tmov BL, BYTE [RBP + 24]\n",
        "\tmov RBX, QWORD [RBP + 32]\n",
        ".L0:\tmov RSP, RBP\n",
        "\tpop RBP\n",
        "\tret\n",
    ]
    .concat();
    assert_eq!(text_of(&unit), expected_text);
}

#[test]
fn ternary_arms_write_into_one_register() {
    let e = Expression::Ternary(Box::new(TernaryExpr {
        condition: name("x"),
        true_expr: number(10),
        false_expr: number(20),
    }));
    let (result, text) = lowered(&e);
    assert_eq!(result, Ok(SizedRegister { reg: Register::R13, size: RegisterSize::DWord }));
    let expected = [
        "\tmov EBX, DWORD [RBP - 4]\n",
        "\tcmp EBX, 0\n",
        "\tje .L0\n",
        "\tmov R12D, 10\n",
        "\tmov R13D, R12D\n",
        "\tjmp .L1\n",
        ".L0:\tmov R14D, 20\n",
        "\tmov R13D, R14D\n",
        ".L1:",
    ]
    .concat();
    assert_eq!(text, expected);
    assert_eq!(text.matches("\tmov R13D, ").count(), 2);
}

#[test]
fn ternary_result_has_the_width_of_its_arms() {
    let bytes = Expression::Ternary(Box::new(TernaryExpr {
        condition: name("x"),
        true_expr: Expression::CharLiteral(b'a'),
        false_expr: Expression::CharLiteral(b'b'),
    }));
    let (result, text) = lowered(&bytes);
    assert_eq!(result, Ok(SizedRegister { reg: Register::R13, size: RegisterSize::Byte }));
    assert!(text.contains("\tmov R12B, 97\n\tmov R13B, R12B\n"));
    assert!(text.contains("\tmov R14B, 98\n\tmov R13B, R14B\n"));
    let wide = Expression::Ternary(Box::new(TernaryExpr {
        condition: name("x"),
        true_expr: Expression::AddressOf(unary(name("x"))),
        false_expr: Expression::AddressOf(unary(name("g"))),
    }));
    let (result, text) = lowered(&wide);
    assert_eq!(result, Ok(SizedRegister { reg: Register::R13, size: RegisterSize::QWord }));
    assert!(text.contains("\tmov R13, R12\n"));
    assert!(text.contains("\tmov R13, R14\n"));
}

#[test]
fn logical_or_uses_three_labels() {
    let (result, text) = lowered(&Expression::LogicalOr(binary(name("x"), number(0))));
    assert_eq!(result, Ok(SizedRegister { reg: Register::R13, size: RegisterSize::Byte }));
    let expected = [
        "\tmov EBX, DWORD [RBP - 4]\n",
        "\tcmp EBX, 0\n",
        "\tjne .L0\n",
        "\tmov R12D, 0\n",
        "\tcmp R12D, 0\n",
        "\tje .L1\n",
        ".L0:\tmov R13B, 1\n",
        "\tjmp .L2\n",
        ".L1:\tmov R13B, 0\n",
        ".L2:",
    ]
    .concat();
    assert_eq!(text, expected);
}

#[test]
fn logical_and_uses_three_labels() {
    let (result, text) = lowered(&Expression::LogicalAnd(binary(name("x"), number(1))));
    assert_eq!(result, Ok(SizedRegister { reg: Register::R13, size: RegisterSize::Byte }));
    let expected = [
        "\tmov EBX, DWORD [RBP - 4]\n",
        "\tcmp EBX, 0\n",
        "\tje .L1\n",
        "\tmov R12D, 1\n",
        "\tcmp R12D, 0\n",
        "\tje .L1\n",
        ".L0:\tmov R13B, 1\n",
        "\tjmp .L2\n",
        ".L1:\tmov R13B, 0\n",
        ".L2:",
    ]
    .concat();
    assert_eq!(text, expected);
}

#[test]
fn second_operand_of_a_logical_operator_runs_only_where_needed() {
    let unit = generate(vec![
        external("side_effect", function(Type::Int32, vec![])),
        define(
            "either",
            function(Type::Void, vec![("a", Type::Int32)]),
            vec![stmt(Expression::LogicalOr(binary(name("a"), call("side_effect", vec![]))))],
        ),
        define(
            "both",
            function(Type::Void, vec![("a", Type::Int32)]),
            vec![stmt(Expression::LogicalAnd(binary(name("a"), call("side_effect", vec![]))))],
        ),
    ])
    .unwrap();
    let text = text_of(&unit);
    assert!(text.contains(
        "\tmov EBX, EDI\n\tcmp EBX, 0\n\tjne .L1\n\tcall side_effect\n\tmov R12D, EAX\n\tcmp R12D, 0\n\tje .L2\n.L1:"
    ));
    assert!(text.contains(
        "\tmov EBX, EDI\n\tcmp EBX, 0\n\tje .L6\n\tcall side_effect\n\tmov R12D, EAX\n\tcmp R12D, 0\n\tje .L6\n.L5:"
    ));
}

#[test]
fn comparisons_share_one_pattern() {
    let cases: Vec<(Expression, &str)> = vec![
        (Expression::Equality(binary(name("x"), number(1))), "je"),
        (Expression::Inequality(binary(name("x"), number(1))), "jne"),
        (Expression::LTCompare(binary(name("x"), number(1))), "jl"),
        (Expression::GTCompare(binary(name("x"), number(1))), "jg"),
        (Expression::LECompare(binary(name("x"), number(1))), "jle"),
        (Expression::GECompare(binary(name("x"), number(1))), "jge"),
    ];
    for (e, jump) in cases {
        let (result, text) = lowered(&e);
        assert_eq!(result, Ok(SizedRegister { reg: Register::R13, size: RegisterSize::Byte }));
        let expected = [
            "\tmov EBX, DWORD [RBP - 4]\n",
            "\tmov R12D, 1\n",
            "\tcmp EBX, R12D\n",
            &format!("\t{} .L0\n", jump),
            "\tmov R13B, 0\n",
            "\tjmp .L1\n",
            ".L0:\tmov R13B, 1\n",
            ".L1:",
        ]
        .concat();
        assert_eq!(text, expected);
    }
}

#[test]
fn in_place_operations() {
    let cases: Vec<(Expression, &str)> = vec![
        (Expression::BitwiseOr(binary(name("x"), number(1))), "or"),
        (Expression::BitwiseXor(binary(name("x"), number(1))), "xor"),
        (Expression::BitwiseAnd(binary(name("x"), number(1))), "and"),
        (Expression::Add(binary(name("x"), number(1))), "add"),
        (Expression::Subtract(binary(name("x"), number(1))), "sub"),
        (Expression::Multiply(binary(name("x"), number(1))), "imul"),
    ];
    for (e, mnemonic) in cases {
        let (result, text) = lowered(&e);
        assert_eq!(result, Ok(SizedRegister { reg: Register::Rbx, size: RegisterSize::DWord }));
        let expected = [
            "\tmov EBX, DWORD [RBP - 4]\n",
            "\tmov R12D, 1\n",
            &format!("\t{} EBX, R12D\n", mnemonic),
        ]
        .concat();
        assert_eq!(text, expected);
    }
}

#[test]
fn division_and_remainder() {
    let (result, text) = lowered(&Expression::Divide(binary(name("x"), number(3))));
    assert_eq!(result, Ok(SizedRegister { reg: Register::Rbx, size: RegisterSize::DWord }));
    let expected = [
        "\tmov EBX, DWORD [RBP - 4]\n",
        "\tmov R12D, 3\n",
        "\tpush RDX\n",
        "\tmov EAX, EBX\n",
        "\tcqo\n",
        "\tidiv R12D\n",
        "\tmov EBX, EAX\n",
        "\tpop RDX\n",
    ]
    .concat();
    assert_eq!(text, expected);
    let (result, text) = lowered(&Expression::Modulo(binary(name("x"), number(3))));
    assert_eq!(result, Ok(SizedRegister { reg: Register::Rbx, size: RegisterSize::DWord }));
    let expected = [
        "\tmov EBX, DWORD [RBP - 4]\n",
        "\tmov R12D, 3\n",
        "\tpush RDX\n",
        "\tmov EAX, EBX\n",
        "\tcqo\n",
        "\tidiv R12D\n",
        "\tmov EBX, EDX\n",
        "\tpop RDX\n",
    ]
    .concat();
    assert_eq!(text, expected);
}

#[test]
fn cast_widens_with_sign_extension_and_narrows_in_place() {
    let widen = Expression::Cast(Box::new(CastExpr { cast_to: Type::Int64, expr: name("x") }));
    let (result, text) = lowered(&widen);
    assert_eq!(result, Ok(SizedRegister { reg: Register::Rbx, size: RegisterSize::QWord }));
    assert_eq!(text, "\tmov EBX, DWORD [RBP - 4]\n\tmovsx RBX, EBX\n");
    let narrow = Expression::Cast(Box::new(CastExpr { cast_to: Type::Uint8, expr: name("x") }));
    let (result, text) = lowered(&narrow);
    assert_eq!(result, Ok(SizedRegister { reg: Register::Rbx, size: RegisterSize::Byte }));
    assert_eq!(text, "\tmov EBX, DWORD [RBP - 4]\n");
    let same = Expression::Cast(Box::new(CastExpr { cast_to: Type::Uint32, expr: name("x") }));
    let (result, text) = lowered(&same);
    assert_eq!(result, Ok(SizedRegister { reg: Register::Rbx, size: RegisterSize::DWord }));
    assert_eq!(text, "\tmov EBX, DWORD [RBP - 4]\n");
    let to_void = Expression::Cast(Box::new(CastExpr { cast_to: Type::Void, expr: name("x") }));
    let (result, text) = lowered(&to_void);
    assert_eq!(result, Ok(SizedRegister { reg: Register::Rbx, size: RegisterSize::Void }));
    assert_eq!(text, "\tmov EBX, DWORD [RBP - 4]\n");
    let to_float = Expression::Cast(Box::new(CastExpr { cast_to: Type::Float, expr: name("x") }));
    let (result, _) = lowered(&to_float);
    assert_eq!(result, Err(CodegenError::Unsupported(Unsupported::FloatingPoint)));
}

#[test]
fn assignment_stores_and_yields_the_value() {
    let (result, text) = lowered(&Expression::Assignment(binary(name("x"), number(7))));
    assert_eq!(result, Ok(SizedRegister { reg: Register::Rbx, size: RegisterSize::DWord }));
    assert_eq!(text, "\tmov EBX, 7\n\tmov DWORD [RBP - 4], EBX\n");
    let (result, text) = lowered(&Expression::Assignment(binary(name("g"), name("x"))));
    assert_eq!(result, Ok(SizedRegister { reg: Register::Rbx, size: RegisterSize::DWord }));
    assert_eq!(text, "\tmov EBX, DWORD [RBP - 4]\n\tmov DWORD [g], EBX\n");
    let (result, text) = lowered(&Expression::Assignment(binary(
        Expression::Dereference(unary(name("x"))),
        number(7),
    )));
    assert_eq!(result, Err(CodegenError::Unsupported(Unsupported::AssignmentTarget)));
    assert_eq!(text, "");
    let (result, _) = lowered(&Expression::Assignment(binary(name("nope"), number(7))));
    assert_eq!(result, Err(CodegenError::Malformed(Malformed::UndefinedSymbol)));
}

#[test]
fn address_of_and_dereference_lowering() {
    let (result, text) = lowered(&Expression::AddressOf(unary(name("x"))));
    assert_eq!(result, Ok(SizedRegister { reg: Register::Rbx, size: RegisterSize::QWord }));
    assert_eq!(text, "\tlea RBX, DWORD [RBP - 4]\n");
    let (result, text) =
        lowered(&Expression::Dereference(unary(Expression::AddressOf(unary(name("g"))))));
    assert_eq!(result, Ok(SizedRegister { reg: Register::Rbx, size: RegisterSize::QWord }));
    assert_eq!(text, "\tlea RBX, DWORD [g]\n\tmov RBX, [RBX]\n");
    let (result, _) = lowered(&Expression::AddressOf(unary(Expression::Dereference(unary(
        name("x"),
    )))));
    assert_eq!(result, Err(CodegenError::Unsupported(Unsupported::AddressOfTarget)));
    let (result, _) = lowered(&Expression::AddressOf(unary(Expression::ArrayIndex(binary(
        name("x"),
        number(0),
    )))));
    assert_eq!(result, Err(CodegenError::Unsupported(Unsupported::AddressOfTarget)));
    let (result, _) = lowered(&Expression::AddressOf(unary(number(1))));
    assert_eq!(result, Err(CodegenError::Malformed(Malformed::AddressOfNonLvalue)));
    let (result, _) = lowered(&Expression::AddressOf(unary(name("nope"))));
    assert_eq!(result, Err(CodegenError::Malformed(Malformed::UndefinedSymbol)));
}

#[test]
fn negation_and_complement() {
    let (result, text) = lowered(&Expression::Negate(unary(name("x"))));
    assert_eq!(result, Ok(SizedRegister { reg: Register::Rbx, size: RegisterSize::DWord }));
    assert_eq!(text, "\tmov EBX, DWORD [RBP - 4]\n\tneg EBX\n");
    let (_, text) = lowered(&Expression::BitwiseNot(unary(name("x"))));
    assert_eq!(text, "\tmov EBX, DWORD [RBP - 4]\n\tnot EBX\n");
    let (result, text) = lowered(&Expression::LogicalNot(unary(name("x"))));
    assert_eq!(result, Ok(SizedRegister { reg: Register::Rbx, size: RegisterSize::DWord }));
    let expected = [
        "\tmov EBX, DWORD [RBP - 4]\n",
        "\tcmp EBX, 0\n",
        "\tje .L0\n",
        "\tmov EBX, 0\n",
        "\tjmp .L1\n",
        ".L0:\tmov EBX, 1\n",
        ".L1:",
    ]
    .concat();
    assert_eq!(text, expected);
}

#[test]
fn literals_and_identifiers() {
    let (result, text) = lowered(&number(42));
    assert_eq!(result, Ok(SizedRegister { reg: Register::Rbx, size: RegisterSize::DWord }));
    assert_eq!(text, "\tmov EBX, 42\n");
    let (result, text) = lowered(&Expression::CharLiteral(b'A'));
    assert_eq!(result, Ok(SizedRegister { reg: Register::Rbx, size: RegisterSize::Byte }));
    assert_eq!(text, "\tmov BL, 65\n");
    let (result, text) = lowered(&name("g"));
    assert_eq!(result, Ok(SizedRegister { reg: Register::Rbx, size: RegisterSize::DWord }));
    assert_eq!(text, "\tmov EBX, DWORD [g]\n");
    let (result, text) = lowered(&name("nope"));
    assert_eq!(result, Err(CodegenError::Malformed(Malformed::UndefinedSymbol)));
    assert_eq!(text, "");
}

#[test]
fn unsupported_constructs_are_reported() {
    let cases: Vec<(Expression, Unsupported)> = vec![
        (Expression::ShiftLeft(binary(name("x"), number(1))), Unsupported::BitShift),
        (Expression::ShiftRight(binary(name("x"), number(1))), Unsupported::BitShift),
        (Expression::PreInc(unary(name("x"))), Unsupported::Increment),
        (Expression::PreDec(unary(name("x"))), Unsupported::Increment),
        (Expression::PostInc(unary(name("x"))), Unsupported::Increment),
        (Expression::PostDec(unary(name("x"))), Unsupported::Increment),
        (Expression::SizeOf(unary(name("x"))), Unsupported::SizeOf),
        (Expression::ArrayIndex(binary(name("x"), number(1))), Unsupported::ArrayIndex),
        (Expression::StringLiteral("\"s\"".to_string()), Unsupported::StringLiteral),
    ];
    for (e, what) in cases {
        let (result, text) = lowered(&e);
        assert_eq!(result, Err(CodegenError::Unsupported(what)));
        assert_eq!(text, "");
    }
}

#[test]
fn malformed_calls_are_reported() {
    let mut instance = inside_function();
    let not_a_name = Expression::FuncCall(Box::new(FuncCallExpr { func: number(1), args: vec![] }));
    assert_eq!(
        instance.gen_expr(&not_a_name).map(|s| s.reg),
        Err(CodegenError::Malformed(Malformed::CalleeNotIdentifier))
    );
    assert_eq!(
        instance.gen_expr(&call("x", vec![])).map(|s| s.reg),
        Err(CodegenError::Malformed(Malformed::CalleeNotFunction))
    );
    assert_eq!(
        instance.gen_expr(&call("nope", vec![])).map(|s| s.reg),
        Err(CodegenError::Malformed(Malformed::UndefinedSymbol))
    );
}

#[test]
fn void_values_cannot_be_used() {
    let unit = |body: Vec<Statement>| {
        generate(vec![
            external("nothing", function(Type::Void, vec![])),
            define("f", function(Type::Void, vec![]), body),
        ])
    };
    let called = unit(vec![stmt(call("nothing", vec![]))]).unwrap();
    assert!(called.contains("\tcall nothing\n.L0:"));
    assert_eq!(
        unit(vec![stmt(Expression::Add(binary(call("nothing", vec![]), number(1))))]),
        Err(CodegenError::Malformed(Malformed::VoidValue))
    );
    assert_eq!(
        unit(vec![ret(Some(call("nothing", vec![])))]),
        Err(CodegenError::Malformed(Malformed::VoidValue))
    );
    assert_eq!(
        generate(vec![forward("v", Type::Void)]),
        Err(CodegenError::Malformed(Malformed::VoidValue))
    );
    assert_eq!(
        generate(vec![define("f", function(Type::Void, vec![("v", Type::Void)]), vec![])]),
        Err(CodegenError::Malformed(Malformed::VoidValue))
    );
}

#[test]
fn function_names_have_no_value() {
    let result = generate(vec![
        external("other", function(Type::Void, vec![])),
        define("f", function(Type::Void, vec![]), vec![stmt(name("other"))]),
    ]);
    assert_eq!(result, Err(CodegenError::Malformed(Malformed::FunctionValue)));
}

#[test]
fn floating_point_is_rejected() {
    assert_eq!(
        generate(vec![forward("x", Type::Float)]),
        Err(CodegenError::Unsupported(Unsupported::FloatingPoint))
    );
    assert_eq!(
        generate(vec![define(
            "f",
            function(Type::Void, vec![]),
            vec![Statement::Declaration(forward("d", Type::Double))],
        )]),
        Err(CodegenError::Unsupported(Unsupported::FloatingPoint))
    );
}

#[test]
fn local_declarations() {
    let unit = generate(vec![define(
        "f",
        function(Type::Void, vec![]),
        vec![
            Statement::Declaration(forward("a", Type::Int32)),
            Statement::Declaration(variable("b", Type::Int64, Expression::Cast(Box::new(
                CastExpr { cast_to: Type::Int64, expr: name("a") },
            )))),
            Statement::Declaration(variable("c", Type::Uint8, Expression::CharLiteral(1))),
        ],
    )])
    .unwrap();
    let expected_text = [
        "f:\n",
        "\tpush RBP\n",
        "\tmov RBP, RSP\n",
        "\tsub RSP, 4\n",
        "\tsub RSP, 8\n",
        "\tmov EBX, DWORD [RBP - 4]\n",
        "\tmovsx RBX, EBX\n",
        "\tmov QWORD [RBP - 12], RBX\n",
        "\tsub RSP, 1\n",
        "\tmov BL, 1\n",
        "\tmov BYTE [RBP - 13], BL\n",
        ".L0:\tmov RSP, RBP\n",
        "\tpop RBP\n",
        "\tret\n",
    ]
    .concat();
    assert_eq!(text_of(&unit), expected_text);
    assert!(unit.contains("GLOBAL f\n\nSECTION .data\n\nSECTION .bss\n\nSECTION .text\n"));
}

#[test]
fn scope_exit_sets_the_offset_back() {
    let unit = generate(vec![define(
        "f",
        function(Type::Void, vec![]),
        vec![
            Statement::Declaration(forward("a", Type::Int32)),
            Statement::Compound(vec![
                Statement::Declaration(forward("b", Type::Int64)),
                stmt(name("b")),
            ]),
            Statement::Compound(vec![
                Statement::Declaration(forward("c", Type::Int16)),
                stmt(name("c")),
                stmt(name("a")),
            ]),
        ],
    )])
    .unwrap();
    let expected_text = [
        "f:\n",
        "\tpush RBP\n",
        "\tmov RBP, RSP\n",
        "\tsub RSP, 4\n",
        "\tsub RSP, 8\n",
        "\tmov RBX, QWORD [RBP - 12]\n",
        "\tsub RSP, 2\n",
        "\tmov BX, WORD [RBP - 6]\n",
        "\tmov EBX, DWORD [RBP - 4]\n",
        ".L0:\tmov RSP, RBP\n",
        "\tpop RBP\n",
        "\tret\n",
    ]
    .concat();
    assert_eq!(text_of(&unit), expected_text);
}

#[test]
fn inner_scope_symbols_are_forgotten() {
    let result = generate(vec![define(
        "f",
        function(Type::Void, vec![]),
        vec![
            Statement::Compound(vec![Statement::Declaration(forward("b", Type::Int64))]),
            stmt(name("b")),
        ],
    )]);
    assert_eq!(result, Err(CodegenError::Malformed(Malformed::UndefinedSymbol)));
}

#[test]
fn enter_and_exit_scope() {
    let mut instance = GeneratorInstance::new();
    assert!(instance.global_scope());
    let outer = instance.enter_scope();
    assert!(!instance.global_scope());
    assert_eq!(instance.add_local("a".to_string(), Type::Int64), Ok("QWORD [RBP - 8]".to_string()));
    let inner = instance.enter_scope();
    assert_eq!(instance.add_local("b".to_string(), Type::Int32), Ok("DWORD [RBP - 12]".to_string()));
    assert_eq!(instance.add_local("a".to_string(), Type::Uint8), Ok("BYTE [RBP - 13]".to_string()));
    assert_eq!(instance.get_symbol("a").unwrap().asm_rep, "BYTE [RBP - 13]");
    assert_eq!(instance.get_symbol("a").unwrap().type_of, Type::Uint8);
    instance.exit_scope(inner);
    assert_eq!(instance.get_symbol("a").unwrap().asm_rep, "QWORD [RBP - 8]");
    assert!(instance.get_symbol("b").is_none());
    assert_eq!(instance.add_local("c".to_string(), Type::Int16), Ok("WORD [RBP - 10]".to_string()));
    instance.exit_scope(outer);
    assert!(instance.global_scope());
    assert!(instance.get_symbol("a").is_none());
    assert_eq!(
        instance.add_local("d".to_string(), Type::Int16),
        Err(CodegenError::Malformed(Malformed::LocalAtFileScope))
    );
    assert_eq!(
        text_of(&instance.get_instructions()),
        "\tsub RSP, 8\n\tsub RSP, 4\n\tsub RSP, 1\n\tsub RSP, 2\n"
    );
}

#[test]
fn file_scope_is_never_left() {
    let mut instance = GeneratorInstance::new();
    instance.add_global("g".to_string(), Type::Int32).unwrap();
    let owner = instance.enter_scope();
    instance.exit_scope(owner);
    let mut other = GeneratorInstance::new();
    let stale = other.enter_scope();
    instance.exit_scope(stale);
    assert!(instance.global_scope());
    assert_eq!(instance.get_symbol("g").unwrap().asm_rep, "DWORD [g]");
}

#[test]
fn symbols_at_file_scope_are_listed() {
    let mut instance = GeneratorInstance::new();
    instance.add_global("a".to_string(), Type::Int32).unwrap();
    instance.add_extern("e".to_string(), Type::Int64).unwrap();
    instance.add_symbol_with_asm(
        "custom".to_string(),
        ScopeVariable { asm_rep: "RAX".to_string(), type_of: Type::Int64 },
    );
    let owner = instance.enter_scope();
    instance.add_global("inner".to_string(), Type::Int32).unwrap();
    assert_eq!(
        instance.add_extern("late".to_string(), Type::Int32),
        Err(CodegenError::Unsupported(Unsupported::LocalExtern))
    );
    assert_eq!(instance.get_symbol("inner").unwrap().asm_rep, "DWORD [inner]");
    instance.exit_scope(owner);
    assert_eq!(instance.get_symbol("e").unwrap().asm_rep, "QWORD [e]");
    assert_eq!(instance.get_symbol("custom").unwrap().asm_rep, "RAX");
    assert!(instance.get_symbol("inner").is_none());
    assert!(instance
        .get_instructions()
        .starts_with("BITS 64\nDEFAULT REL\n\nEXTERN e\nGLOBAL a\nGLOBAL custom\n\nSECTION .data\n"));
}

#[test]
fn rebinding_a_symbol_replaces_it() {
    let mut instance = GeneratorInstance::new();
    instance.add_global("a".to_string(), Type::Int32).unwrap();
    instance.add_global("a".to_string(), Type::Int64).unwrap();
    assert_eq!(instance.get_symbol("a").unwrap().asm_rep, "QWORD [a]");
    assert_eq!(instance.get_symbol("a").unwrap().type_of, Type::Int64);
}

#[test]
fn labels_count_up() {
    let mut instance = GeneratorInstance::new();
    assert_eq!(instance.new_label(), Ok(0));
    assert_eq!(instance.new_label(), Ok(1));
    assert_eq!(instance.new_label(), Ok(2));
    instance.add_label(2);
    instance.add_instr(Instr::Ret);
    instance.add_fn_label("main".to_string());
    instance.add_label(0);
    instance.add_label(1);
    assert_eq!(text_of(&instance.get_instructions()), ".L2:\tret\nmain:\n.L0:.L1:");
}

#[test]
fn sections_are_filled_by_hand() {
    let mut instance = GeneratorInstance::new();
    instance.add_data("x".to_string(), "dd 5".to_string());
    instance.add_bss("y".to_string(), &Type::Int64).unwrap();
    instance.add_bss("z".to_string(), &Type::Void).unwrap();
    assert_eq!(
        instance.add_bss("f".to_string(), &Type::Float),
        Err(CodegenError::Unsupported(Unsupported::FloatingPoint))
    );
    assert_eq!(
        instance.get_instructions(),
        [
            HEADER,
            "\nSECTION .data\n",
            "x: dd 5\n",
            "\nSECTION .bss\n",
            "y: resb 8\n",
            "z: resb 0\n",
            "\nSECTION .text\n",
        ]
        .concat()
    );
}

#[test]
fn local_function_is_rejected() {
    let result = generate(vec![define(
        "outer",
        function(Type::Void, vec![]),
        vec![Statement::Declaration(define("inner", function(Type::Void, vec![]), vec![]))],
    )]);
    assert_eq!(result, Err(CodegenError::Malformed(Malformed::LocalFunction)));
}

#[test]
fn body_without_function_type_is_rejected() {
    assert_eq!(
        generate(vec![define("x", Type::Int32, vec![])]),
        Err(CodegenError::Malformed(Malformed::BodyWithoutFunctionType))
    );
}

#[test]
fn return_outside_a_function_is_rejected() {
    let mut instance = GeneratorInstance::new();
    assert_eq!(
        instance.gen_statement(&ret(None)),
        Err(CodegenError::Malformed(Malformed::ReturnOutsideFunction))
    );
    assert_eq!(instance.gen_statement(&ret(Some(number(1)))).is_err(), true);
    assert_eq!(text_of(&instance.get_instructions()), "");
}

#[test]
fn local_extern_is_rejected() {
    let result = generate(vec![define(
        "f",
        function(Type::Void, vec![]),
        vec![Statement::Declaration(external("e", Type::Int32))],
    )]);
    assert_eq!(result, Err(CodegenError::Unsupported(Unsupported::LocalExtern)));
}

#[test]
fn if_with_else() {
    let unit = generate(vec![define(
        "f",
        function(Type::Int32, vec![("a", Type::Int32)]),
        vec![Statement::If(Box::new(IfStatement {
            condition: name("a"),
            if_block: ret(Some(number(1))),
            else_block: Some(ret(Some(number(2)))),
        }))],
    )])
    .unwrap();
    let expected_text = [
        "f:\n",
        "\tpush RBP\n",
        "\tmov RBP, RSP\n",
        "\tmov EBX, EDI\n",
        "\tcmp EBX, 0\n",
        "\tje .L1\n",
        "\tmov EBX, 1\n",
        "\tmov EAX, EBX\n",
        "\tjmp .L0\n",
        "\tjmp .L2\n",
        ".L1:\tmov EBX, 2\n",
        "\tmov EAX, EBX\n",
        "\tjmp .L0\n",
        ".L2:.L0:\tmov RSP, RBP\n",
        "\tpop RBP\n",
        "\tret\n",
    ]
    .concat();
    assert_eq!(text_of(&unit), expected_text);
}

#[test]
fn if_without_else() {
    let unit = generate(vec![define(
        "f",
        function(Type::Void, vec![("a", Type::Int32)]),
        vec![
            Statement::If(Box::new(IfStatement {
                condition: name("a"),
                if_block: stmt(Expression::Assignment(binary(name("a"), number(0)))),
                else_block: None,
            })),
            ret(None),
        ],
    )])
    .unwrap();
    let expected_text = [
        "f:\n",
        "\tpush RBP\n",
        "\tmov RBP, RSP\n",
        "\tmov EBX, EDI\n",
        "\tcmp EBX, 0\n",
        "\tje .L1\n",
        "\tmov EBX, 0\n",
        "\tmov EDI, EBX\n",
        ".L1:\tjmp .L0\n",
        ".L0:\tmov RSP, RBP\n",
        "\tpop RBP\n",
        "\tret\n",
    ]
    .concat();
    assert_eq!(text_of(&unit), expected_text);
}

#[test]
fn while_loop() {
    let unit = generate(vec![define(
        "f",
        function(Type::Void, vec![("n", Type::Int32)]),
        vec![Statement::WhileLoop(Box::new(WhileLoopStatement {
            condition: name("n"),
            body: Statement::Compound(vec![stmt(Expression::Assignment(binary(
                name("n"),
                Expression::Subtract(binary(name("n"), number(1))),
            )))]),
        }))],
    )])
    .unwrap();
    let expected_text = [
        "f:\n",
        "\tpush RBP\n",
        "\tmov RBP, RSP\n",
        ".L1:\tmov EBX, EDI\n",
        "\tcmp EBX, 0\n",
        "\tje .L2\n",
        "\tmov EBX, EDI\n",
        "\tmov R12D, 1\n",
        "\tsub EBX, R12D\n",
        "\tmov EDI, EBX\n",
        "\tjmp .L1\n",
        ".L2:.L0:\tmov RSP, RBP\n",
        "\tpop RBP\n",
        "\tret\n",
    ]
    .concat();
    assert_eq!(text_of(&unit), expected_text);
}

#[test]
fn generation_stops_at_the_first_failure() {
    let result = generate(vec![
        forward("a", Type::Int32),
        variable("b", Type::Int32, name("a")),
        forward("f", Type::Float),
    ]);
    assert_eq!(result, Err(CodegenError::Malformed(Malformed::GlobalNotLiteral)));
}

#[test]
fn one_generator_serves_many_units() {
    let generator = X86_64Generator::new();
    let unit = TranslationUnit { declarations: vec![forward("x", Type::Int32)] };
    let first = generator.generate(&unit);
    let second = generator.generate(&unit);
    assert_eq!(first, second);
    assert!(first.unwrap().contains("x: resb 4\n"));
}

#[test]
fn codegen_errors_have_messages() {
    assert_eq!(CodegenError::OutOfScratch.message(), "Out of scratch registers");
    assert_eq!(CodegenError::TooLarge.message(), "Translation unit too large");
    assert_eq!(
        CodegenError::Unsupported(Unsupported::SizeOf).message(),
        "Unsupported construct: sizeof"
    );
    assert_eq!(
        CodegenError::Malformed(Malformed::UndefinedSymbol).message(),
        "Malformed input: undefined symbol"
    );
    let every_unsupported = [
        Unsupported::FloatingPoint,
        Unsupported::BitShift,
        Unsupported::Increment,
        Unsupported::SizeOf,
        Unsupported::ArrayIndex,
        Unsupported::StringLiteral,
        Unsupported::AssignmentTarget,
        Unsupported::AddressOfTarget,
        Unsupported::LocalExtern,
    ];
    for u in every_unsupported {
        assert!(!u.message().is_empty());
    }
    let every_malformed = [
        Malformed::UndefinedSymbol,
        Malformed::CalleeNotIdentifier,
        Malformed::CalleeNotFunction,
        Malformed::AddressOfNonLvalue,
        Malformed::VoidValue,
        Malformed::FunctionValue,
        Malformed::LocalAtFileScope,
        Malformed::LocalFunction,
        Malformed::BodyWithoutFunctionType,
        Malformed::GlobalNotLiteral,
        Malformed::ReturnOutsideFunction,
    ];
    for m in every_malformed {
        assert!(!m.message().is_empty());
    }
}

#[test]
fn returned_value_is_moved_at_the_width_of_the_return_type() {
    let unit = generate(vec![define(
        "same",
        function(Type::Int32, vec![("a", Type::Int32), ("b", Type::Int32)]),
        vec![ret(Some(Expression::Equality(binary(name("a"), name("b")))))],
    )])
    .unwrap();
    let expected_text = [
        "same:\n",
        "\tpush RBP\n",
        "\tmov RBP, RSP\n",
        "\tmov EBX, EDI\n",
        "\tmov R12D, ESI\n",
        "\tcmp EBX, R12D\n",
        "\tje .L1\n",
        "\tmov R13B, 0\n",
        "\tjmp .L2\n",
        ".L1:\tmov R13B, 1\n",
        ".L2:\tmov EAX, R13D\n",
        "\tjmp .L0\n",
        ".L0:\tmov RSP, RBP\n",
        "\tpop RBP\n",
        "\tret\n",
    ]
    .concat();
    assert_eq!(text_of(&unit), expected_text);
    let wide = generate(vec![define(
        "address",
        function(Type::Pointer(Box::new(Type::Int32)), vec![("a", Type::Int32)]),
        vec![ret(Some(Expression::AddressOf(unary(name("a")))))],
    )])
    .unwrap();
    assert!(wide.contains("\tlea RBX, EDI\n\tmov RAX, RBX\n\tjmp .L0\n"));
    let byte = generate(vec![define(
        "letter",
        function(Type::Uint8, vec![]),
        vec![ret(Some(Expression::CharLiteral(b'z')))],
    )])
    .unwrap();
    assert!(byte.contains("\tmov BL, 122\n\tmov AL, BL\n\tjmp .L0\n"));
}

#[test]
fn function_knows_the_width_of_what_it_returns() {
    let mut instance = GeneratorInstance::new();
    assert_eq!(instance.return_size(), RegisterSize::Void);
    assert_eq!(instance.return_label(), None);
    instance.set_return(Some(7), RegisterSize::Word);
    assert_eq!(instance.return_size(), RegisterSize::Word);
    assert_eq!(instance.return_label(), Some(7));
    assert_eq!(instance.gen_statement(&ret(Some(number(1)))), Ok(()));
    assert_eq!(instance.gen_statement(&ret(None)), Ok(()));
    assert_eq!(
        text_of(&instance.get_instructions()),
        "\tmov EBX, 1\n\tmov AX, BX\n\tjmp .L7\n\tjmp .L7\n"
    );
    instance.set_return(Some(7), RegisterSize::Void);
    assert_eq!(
        instance.gen_statement(&ret(Some(number(1)))),
        Err(CodegenError::Malformed(Malformed::VoidValue))
    );
}

#[test]
fn function_with_a_return_type_without_width_is_not_begun() {
    assert_eq!(
        generate(vec![define("f", function(Type::Double, vec![]), vec![])]),
        Err(CodegenError::Unsupported(Unsupported::FloatingPoint))
    );
    assert_eq!(
        generate(vec![define("f", function(function(Type::Void, vec![]), vec![]), vec![])]),
        Err(CodegenError::Malformed(Malformed::FunctionValue))
    );
    let mut instance = GeneratorInstance::new();
    let float = define("f", function(Type::Float, vec![]), vec![]);
    assert!(instance.gen_declaration(&float).is_err());
    assert!(instance.get_symbol("f").is_none());
    assert_eq!(text_of(&instance.get_instructions()), "");
}

#[test]
fn pushes_pops_and_stack_release_as_written() {
    let mut instance = GeneratorInstance::new();
    instance.push_operand("RDI".to_string());
    instance.push_operand("RBX".to_string());
    instance.free_stack(8);
    instance.pop_operand("RDI".to_string());
    instance.free_stack(0);
    assert_eq!(
        text_of(&instance.get_instructions()),
        "\tpush RDI\n\tpush RBX\n\tadd RSP, 8\n\tpop RDI\n\tadd RSP, 0\n"
    );
}

#[test]
fn call_with_nine_arguments_takes_twenty_four_bytes_off() {
    let unit = generate(vec![
        external("callee", function(Type::Void, vec![])),
        define(
            "caller",
            function(Type::Void, vec![]),
            vec![stmt(call("callee", (1..=9).map(number).collect()))],
        ),
    ])
    .unwrap();
    let text = text_of(&unit);
    assert!(text.contains(
        "\tmov R9D, EBX\n\tmov EBX, 9\n\tpush RBX\n\tmov EBX, 8\n\tpush RBX\n\tmov EBX, 7\n\tpush RBX\n\tcall callee\n\tadd RSP, 24\n"
    ));
    assert_eq!(text.matches("\tpush RBX\n").count(), 3);
}
