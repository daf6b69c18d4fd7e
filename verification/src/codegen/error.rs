//! The errors that code generation reports.

use vstd::prelude::*;
use vstd::string::*;

verus! {

/// A construct of the language that the generator has no code for.
#[derive(Debug, Clone, Copy, PartialEq, Eq, Structural)]
pub enum Unsupported {
    /// A value of a floating-point type.
    FloatingPoint,
    /// `x << y` and `x >> y`.
    BitShift,
    /// `++x`, `--x`, `x++` and `x--`.
    Increment,
    /// `sizeof x`.
    SizeOf,
    /// `x[y]`.
    ArrayIndex,
    /// A string literal used as a value.
    StringLiteral,
    /// An assignment to anything but a plain name.
    AssignmentTarget,
    /// The address of anything but a plain name.
    AddressOfTarget,
    /// An external declaration inside a function.
    LocalExtern,
}

/// A tree that the semantic check would not have let through.
#[derive(Debug, Clone, Copy, PartialEq, Eq, Structural)]
pub enum Malformed {
    /// A name is used that no scope binds.
    UndefinedSymbol,
    /// The called expression is not a plain name.
    CalleeNotIdentifier,
    /// The called name is not bound to a function.
    CalleeNotFunction,
    /// The operand of address-of is no lvalue.
    AddressOfNonLvalue,
    /// A value of type `Void` is put to use.
    VoidValue,
    /// A function is used where a value with a size is needed.
    FunctionValue,
    /// A local variable is declared at file scope.
    LocalAtFileScope,
    /// A function is defined inside a function.
    LocalFunction,
    /// A body of statements is given to a name whose type is no function type.
    BodyWithoutFunctionType,
    /// A variable at file scope is initialised with something other than a literal.
    GlobalNotLiteral,
    /// A `return` stands outside every function.
    ReturnOutsideFunction,
}

/// Why code generation gave up on a translation unit.
#[derive(Debug, Clone, Copy, PartialEq, Eq, Structural)]
pub enum CodegenError {
    /// Every scratch register is on loan.
    OutOfScratch,
    /// The tree holds a construct that the generator has no code for.
    Unsupported(Unsupported),
    /// The tree is not one that the semantic check lets through.
    Malformed(Malformed),
    /// A label number or a frame offset would not fit its machine word.
    TooLarge,
}

impl Unsupported {
    /// The text that names the construct.
    pub open spec fn text(&self) -> Seq<char> {
        match self {
            Unsupported::FloatingPoint => "floating-point values"@,
            Unsupported::BitShift => "bit shifts"@,
            Unsupported::Increment => "increment and decrement"@,
            Unsupported::SizeOf => "sizeof"@,
            Unsupported::ArrayIndex => "array indexing"@,
            Unsupported::StringLiteral => "string literals as values"@,
            Unsupported::AssignmentTarget => "assignment to anything but a name"@,
            Unsupported::AddressOfTarget => "address of anything but a name"@,
            Unsupported::LocalExtern => "external declarations inside a function"@,
        }
    }

    /// The construct's name for the user.
    pub fn message(&self) -> (r: String)
        ensures
            r@ == self.text(),
    {
        match self {
            Unsupported::FloatingPoint => String::from_str("floating-point values"),
            Unsupported::BitShift => String::from_str("bit shifts"),
            Unsupported::Increment => String::from_str("increment and decrement"),
            Unsupported::SizeOf => String::from_str("sizeof"),
            Unsupported::ArrayIndex => String::from_str("array indexing"),
            Unsupported::StringLiteral => String::from_str("string literals as values"),
            Unsupported::AssignmentTarget => String::from_str("assignment to anything but a name"),
            Unsupported::AddressOfTarget => String::from_str("address of anything but a name"),
            Unsupported::LocalExtern => String::from_str("external declarations inside a function"),
        }
    }
}

impl Malformed {
    /// The text that says what is wrong with the tree.
    pub open spec fn text(&self) -> Seq<char> {
        match self {
            Malformed::UndefinedSymbol => "undefined symbol"@,
            Malformed::CalleeNotIdentifier => "called expression is not a name"@,
            Malformed::CalleeNotFunction => "called name is not a function"@,
            Malformed::AddressOfNonLvalue => "address of a non-lvalue"@,
            Malformed::VoidValue => "use of a void value"@,
            Malformed::FunctionValue => "a function has no size"@,
            Malformed::LocalAtFileScope => "local variable at file scope"@,
            Malformed::LocalFunction => "function defined inside a function"@,
            Malformed::BodyWithoutFunctionType => "function body given to a non-function"@,
            Malformed::GlobalNotLiteral => "global initialiser is not a literal"@,
            Malformed::ReturnOutsideFunction => "return outside of a function"@,
        }
    }

    /// What is wrong with the tree, for the user.
    pub fn message(&self) -> (r: String)
        ensures
            r@ == self.text(),
    {
        match self {
            Malformed::UndefinedSymbol => String::from_str("undefined symbol"),
            Malformed::CalleeNotIdentifier => String::from_str("called expression is not a name"),
            Malformed::CalleeNotFunction => String::from_str("called name is not a function"),
            Malformed::AddressOfNonLvalue => String::from_str("address of a non-lvalue"),
            Malformed::VoidValue => String::from_str("use of a void value"),
            Malformed::FunctionValue => String::from_str("a function has no size"),
            Malformed::LocalAtFileScope => String::from_str("local variable at file scope"),
            Malformed::LocalFunction => String::from_str("function defined inside a function"),
            Malformed::BodyWithoutFunctionType => String::from_str(
                "function body given to a non-function",
            ),
            Malformed::GlobalNotLiteral => String::from_str("global initialiser is not a literal"),
            Malformed::ReturnOutsideFunction => String::from_str("return outside of a function"),
        }
    }
}

impl CodegenError {
    /// The text of the error's message.
    pub open spec fn text(&self) -> Seq<char> {
        match self {
            CodegenError::OutOfScratch => "Out of scratch registers"@,
            CodegenError::Unsupported(u) => "Unsupported construct: "@ + u.text(),
            CodegenError::Malformed(m) => "Malformed input: "@ + m.text(),
            CodegenError::TooLarge => "Translation unit too large"@,
        }
    }

    /// The error's message for the user.
    pub fn message(&self) -> (r: String)
        ensures
            r@ == self.text(),
    {
        match self {
            CodegenError::OutOfScratch => String::from_str("Out of scratch registers"),
            CodegenError::Unsupported(u) => {
                let mut s = String::from_str("Unsupported construct: ");
                let what = u.message();
                s.append(what.as_str());
                s
            },
            CodegenError::Malformed(m) => {
                let mut s = String::from_str("Malformed input: ");
                let what = m.message();
                s.append(what.as_str());
                s
            },
            CodegenError::TooLarge => String::from_str("Translation unit too large"),
        }
    }
}

} // verus!
