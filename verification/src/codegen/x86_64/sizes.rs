//! The room that a stored value takes.

use vstd::prelude::*;
use crate::ast::types::Type;
use crate::ast::types::TypeView;
use crate::codegen::error::CodegenError;
use crate::codegen::error::Malformed;
use crate::codegen::error::Unsupported;

verus! {

/// The size in bytes of a stored value of the type. Nothing of type `Void`
/// is ever stored, and a function has no size.
pub open spec fn stored_size(t: TypeView) -> Result<usize, CodegenError> {
    match t {
        TypeView::Uint8 | TypeView::Int8 => Ok(1),
        TypeView::Uint16 | TypeView::Int16 => Ok(2),
        TypeView::Uint32 | TypeView::Int32 => Ok(4),
        TypeView::Uint64 | TypeView::Int64 => Ok(8),
        TypeView::Float | TypeView::Double => Err(
            CodegenError::Unsupported(Unsupported::FloatingPoint),
        ),
        TypeView::Pointer(_) => Ok(8),
        TypeView::Void => Err(CodegenError::Malformed(Malformed::VoidValue)),
        TypeView::Function(_) => Err(CodegenError::Malformed(Malformed::FunctionValue)),
    }
}

/// The size in bytes of a stored value of the type.
pub fn get_size(t: &Type) -> (r: Result<usize, CodegenError>)
    ensures
        r == stored_size(t@),
{
    match t {
        Type::Uint8 | Type::Int8 => Ok(1),
        Type::Uint16 | Type::Int16 => Ok(2),
        Type::Uint32 | Type::Int32 => Ok(4),
        Type::Uint64 | Type::Int64 => Ok(8),
        Type::Float | Type::Double => Err(CodegenError::Unsupported(Unsupported::FloatingPoint)),
        Type::Pointer(_) => Ok(8),
        Type::Void => Err(CodegenError::Malformed(Malformed::VoidValue)),
        Type::Function(_) => Err(CodegenError::Malformed(Malformed::FunctionValue)),
    }
}

} // verus!
