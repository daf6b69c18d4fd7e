//! How much room a value of each type takes, and how a global is addressed.

use vstd::prelude::*;
use vstd::string::*;
use crate::ast::types::Type;
use crate::ast::types::TypeView;
use crate::codegen::error::CodegenError;
use crate::codegen::error::Malformed;
use crate::codegen::error::Unsupported;
use crate::codegen::x86_64::registers::RegisterSize;

verus! {

/// The size in bytes of a value of the type. `Void` has size 0; a pointer
/// has the size of an address; floating-point types are not handled, and a
/// function has no size.
pub open spec fn byte_size(t: TypeView) -> Result<usize, CodegenError> {
    match t {
        TypeView::Void => Ok(0),
        TypeView::Uint8 | TypeView::Int8 => Ok(1),
        TypeView::Uint16 | TypeView::Int16 => Ok(2),
        TypeView::Uint32 | TypeView::Int32 => Ok(4),
        TypeView::Uint64 | TypeView::Int64 => Ok(8),
        TypeView::Float | TypeView::Double => Err(
            CodegenError::Unsupported(Unsupported::FloatingPoint),
        ),
        TypeView::Pointer(_) => Ok(8),
        TypeView::Function(_) => Err(CodegenError::Malformed(Malformed::FunctionValue)),
    }
}

/// The width at which a register holds a value of the type.
pub open spec fn register_size(t: TypeView) -> Result<RegisterSize, CodegenError> {
    match byte_size(t) {
        Err(e) => Err(e),
        Ok(n) => Ok(
            if n == 0 {
                RegisterSize::Void
            } else if n == 1 {
                RegisterSize::Byte
            } else if n == 2 {
                RegisterSize::Word
            } else if n == 4 {
                RegisterSize::DWord
            } else {
                RegisterSize::QWord
            },
        ),
    }
}

/// The operand that stands for a global: a function is named by its label,
/// a variable is the memory at its label, at the width of its type.
pub open spec fn global_operand(symbol: Seq<char>, t: TypeView) -> Result<Seq<char>, CodegenError> {
    if t is Function {
        Ok(symbol)
    } else {
        match register_size(t) {
            Err(e) => Err(e),
            Ok(RegisterSize::Void) => Err(CodegenError::Malformed(Malformed::VoidValue)),
            Ok(size) => Ok(size.text() + " ["@ + symbol + "]"@),
        }
    }
}

/// The size in bytes of a value of the type.
pub fn get_bytes(t: &Type) -> (r: Result<usize, CodegenError>)
    ensures
        r == byte_size(t@),
{
    match t {
        Type::Void => Ok(0),
        Type::Uint8 | Type::Int8 => Ok(1),
        Type::Uint16 | Type::Int16 => Ok(2),
        Type::Uint32 | Type::Int32 => Ok(4),
        Type::Uint64 | Type::Int64 => Ok(8),
        Type::Float | Type::Double => Err(CodegenError::Unsupported(Unsupported::FloatingPoint)),
        Type::Pointer(_) => Ok(8),
        Type::Function(_) => Err(CodegenError::Malformed(Malformed::FunctionValue)),
    }
}

/// The width at which a register holds a value of the type.
pub fn get_size(t: &Type) -> (r: Result<RegisterSize, CodegenError>)
    ensures
        r == register_size(t@),
{
    let n = get_bytes(t)?;
    Ok(
        if n == 0 {
            RegisterSize::Void
        } else if n == 1 {
            RegisterSize::Byte
        } else if n == 2 {
            RegisterSize::Word
        } else if n == 4 {
            RegisterSize::DWord
        } else {
            RegisterSize::QWord
        },
    )
}

/// What a result that yields text has come to, the text taken by its value.
pub open spec fn written(r: Result<String, CodegenError>) -> Result<Seq<char>, CodegenError> {
    match r {
        Ok(s) => Ok(s@),
        Err(e) => Err(e),
    }
}

/// The operand that stands for the global `symbol` of the given type.
pub fn get_global_asm(symbol: &str, type_of: &Type) -> (r: Result<String, CodegenError>)
    ensures
        written(r) == global_operand(symbol@, type_of@),
{
    let is_fn = match type_of {
        Type::Function(_) => true,
        _ => false,
    };
    if is_fn {
        Ok(String::from_str(symbol))
    } else {
        let size = get_size(type_of)?;
        match size {
            RegisterSize::Void => Err(CodegenError::Malformed(Malformed::VoidValue)),
            _ => {
                let mut s = size.to_string();
                s.append(" [");
                s.append(symbol);
                s.append("]");
                Ok(s)
            },
        }
    }
}

} // verus!
