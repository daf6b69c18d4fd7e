//! The errors that compilation reports.

use vstd::prelude::*;
use vstd::string::*;

verus! {

/// Why the semantic check rejected a tree. The check stops at the first
/// violation it meets, so one value tells the whole story.
#[derive(Debug, Clone, Copy, PartialEq, Eq, Structural)]
pub enum SemanticError {
    /// A name was declared twice in one scope.
    NameRedefined,
    /// A function was defined inside another function.
    NestedFunction,
    /// A variable at file scope is initialised with something other than a literal.
    GlobalNotLiteral,
    /// A local initialiser's type is not the declared type.
    DeclarationTypeMismatch,
    /// An external declaration carries a value.
    ExternWithValue,
    /// A body of statements was given to a name whose type is no function type.
    BodyWithoutFunctionType,
    /// The condition of an `if` is no integer.
    IfConditionNotInteger,
    /// The condition of a `while` is no integer.
    WhileConditionNotInteger,
    /// A `return` stands outside every function.
    ReturnOutsideFunction,
    /// A `return` carries a value in a function that returns nothing.
    ReturnValueFromVoid,
    /// The returned value's type is not the function's return type.
    ReturnTypeMismatch,
    /// A `return` carries no value in a function that returns one.
    ReturnVoidFromNonVoid,
    /// The condition of a ternary is no integer.
    TernaryConditionNotInteger,
    /// The two arms of a ternary differ in type.
    TernaryArmsMismatch,
    /// The two operands of a binary operator differ in type.
    BinaryTypeMismatch,
    /// An argument's type is not the parameter's type.
    IncorrectFunctionArgs,
    /// The called expression is no function.
    CallNonFunction,
    /// The amount of a shift is no integer.
    ShiftByNonInteger,
    /// The target of an assignment is no lvalue.
    AssignToNonLvalue,
    /// The operand of address-of is no lvalue.
    AddressOfNonLvalue,
    /// The operand of a dereference is no pointer.
    DereferenceNonPointer,
    /// The operand of a negation is no integer.
    NegateNonInteger,
    /// The index of an array access is no integer.
    IndexNotInteger,
    /// The indexed expression is no pointer.
    IndexNonPointer,
    /// A name is used that no visible scope declares.
    UndefinedSymbol,
}

impl SemanticError {
    /// The text of the error's message.
    pub open spec fn text(&self) -> Seq<char> {
        match self {
            SemanticError::NameRedefined => "Name defined twice within scope"@,
            SemanticError::NestedFunction => "Cannot nest functions"@,
            SemanticError::GlobalNotLiteral =>
                "Global variable assignment must be a literal\nConstant folding isn't currently supported"@,
            SemanticError::DeclarationTypeMismatch => "Declaration type must match"@,
            SemanticError::ExternWithValue => "Can't define extern "@,
            SemanticError::BodyWithoutFunctionType => "Function body given to a non-function"@,
            SemanticError::IfConditionNotInteger => "If condition must resolve to an integer type"@,
            SemanticError::WhileConditionNotInteger =>
                "While condition must resolve to an integer type"@,
            SemanticError::ReturnOutsideFunction => "Cannot return from outside of a function"@,
            SemanticError::ReturnValueFromVoid => "Cannot return value from void fn"@,
            SemanticError::ReturnTypeMismatch => "Tried to return incorrect type"@,
            SemanticError::ReturnVoidFromNonVoid => "Cannot return void from non-void fn"@,
            SemanticError::TernaryConditionNotInteger => "Ternary condition must be a integer"@,
            SemanticError::TernaryArmsMismatch => "Ternary arms must have same type"@,
            SemanticError::BinaryTypeMismatch => "Binary operator types must match"@,
            SemanticError::IncorrectFunctionArgs => "Incorrect function args"@,
            SemanticError::CallNonFunction => "Cannot call non-function"@,
            SemanticError::ShiftByNonInteger => "Cannot bitshift by a non-integer"@,
            SemanticError::AssignToNonLvalue => "Must assign to lvalue"@,
            SemanticError::AddressOfNonLvalue => "Can't do & on a non-lvalue"@,
            SemanticError::DereferenceNonPointer => "Cant dereference a non-pointer"@,
            SemanticError::NegateNonInteger => "Can't negate a non-integer"@,
            SemanticError::IndexNotInteger => "Array index must be an integer"@,
            SemanticError::IndexNonPointer => "Cannot index into non-array/pointer"@,
            SemanticError::UndefinedSymbol => "Undefined symbol"@,
        }
    }

    /// The error's message for the user.
    pub fn message(&self) -> (r: String)
        ensures
            r@ == self.text(),
    {
        match self {
            SemanticError::NameRedefined => String::from_str("Name defined twice within scope"),
            SemanticError::NestedFunction => String::from_str("Cannot nest functions"),
            SemanticError::GlobalNotLiteral => String::from_str(
                "Global variable assignment must be a literal\nConstant folding isn't currently supported",
            ),
            SemanticError::DeclarationTypeMismatch => String::from_str(
                "Declaration type must match",
            ),
            SemanticError::ExternWithValue => String::from_str("Can't define extern "),
            SemanticError::BodyWithoutFunctionType => String::from_str(
                "Function body given to a non-function",
            ),
            SemanticError::IfConditionNotInteger => String::from_str(
                "If condition must resolve to an integer type",
            ),
            SemanticError::WhileConditionNotInteger => String::from_str(
                "While condition must resolve to an integer type",
            ),
            SemanticError::ReturnOutsideFunction => String::from_str(
                "Cannot return from outside of a function",
            ),
            SemanticError::ReturnValueFromVoid => String::from_str(
                "Cannot return value from void fn",
            ),
            SemanticError::ReturnTypeMismatch => String::from_str("Tried to return incorrect type"),
            SemanticError::ReturnVoidFromNonVoid => String::from_str(
                "Cannot return void from non-void fn",
            ),
            SemanticError::TernaryConditionNotInteger => String::from_str(
                "Ternary condition must be a integer",
            ),
            SemanticError::TernaryArmsMismatch => String::from_str(
                "Ternary arms must have same type",
            ),
            SemanticError::BinaryTypeMismatch => String::from_str(
                "Binary operator types must match",
            ),
            SemanticError::IncorrectFunctionArgs => String::from_str("Incorrect function args"),
            SemanticError::CallNonFunction => String::from_str("Cannot call non-function"),
            SemanticError::ShiftByNonInteger => String::from_str(
                "Cannot bitshift by a non-integer",
            ),
            SemanticError::AssignToNonLvalue => String::from_str("Must assign to lvalue"),
            SemanticError::AddressOfNonLvalue => String::from_str("Can't do & on a non-lvalue"),
            SemanticError::DereferenceNonPointer => String::from_str(
                "Cant dereference a non-pointer",
            ),
            SemanticError::NegateNonInteger => String::from_str("Can't negate a non-integer"),
            SemanticError::IndexNotInteger => String::from_str("Array index must be an integer"),
            SemanticError::IndexNonPointer => String::from_str(
                "Cannot index into non-array/pointer",
            ),
            SemanticError::UndefinedSymbol => String::from_str("Undefined symbol"),
        }
    }
}

/// A feature that the compiler does not offer.
#[derive(Debug, Clone, Copy, PartialEq, Eq, Structural)]
pub enum NotSupported {
    /// Code generation for a machine other than x86-64.
    ForeignTarget,
    /// An `#include` of a header from the system's search path.
    GlobalInclude,
}

impl NotSupported {
    /// The text that names the feature.
    pub open spec fn text(&self) -> Seq<char> {
        match self {
            NotSupported::ForeignTarget => "Targeting non x86_64"@,
            NotSupported::GlobalInclude => "Global #include directives"@,
        }
    }

    /// The feature's name for the user.
    pub fn message(&self) -> (r: String)
        ensures
            r@ == self.text(),
    {
        match self {
            NotSupported::ForeignTarget => String::from_str("Targeting non x86_64"),
            NotSupported::GlobalInclude => String::from_str("Global #include directives"),
        }
    }
}

/// An error of the compiler's front half.
#[derive(Debug, Clone, Copy, PartialEq, Eq, Structural)]
pub enum CompilerError {
    /// The tree breaks a rule of the language.
    SemanticError(SemanticError),
    /// The input asks for something that is not there yet.
    NotSupported(NotSupported),
}

impl CompilerError {
    /// The text of the error's message.
    pub open spec fn text(&self) -> Seq<char> {
        match self {
            CompilerError::SemanticError(e) => e.text(),
            CompilerError::NotSupported(f) => "Feature Not Supported: "@ + f.text(),
        }
    }

    /// The error's message for the user.
    pub fn message(&self) -> (r: String)
        ensures
            r@ == self.text(),
    {
        match self {
            CompilerError::SemanticError(e) => e.message(),
            CompilerError::NotSupported(f) => {
                let mut s = String::from_str("Feature Not Supported: ");
                let name = f.message();
                s.append(name.as_str());
                s
            },
        }
    }
}

} // verus!
