//! Code generation: from a checked tree to assembly text, and what the
//! assembler and the linker are then asked to do with it.

pub mod error;
pub mod x86_64;

use vstd::prelude::*;
use crate::codegen::x86_64::X86_64Generator;
use crate::error::CompilerError;
use crate::error::NotSupported;

verus! {

/// What is to become of the assembled units.
#[derive(Debug, Clone, Copy)]
pub struct AssemblerOptions<'a> {
    /// Whether the units are linked into an executable. Without it each unit
    /// is left as an object file.
    pub link: bool,
    /// The path of the output, where the default is not wanted.
    pub output: Option<&'a str>,
}

/// The machine that code is asked for.
#[derive(Debug, Clone, Copy, PartialEq, Eq, Structural)]
pub enum Target {
    X86_64,
    /// Any other machine.
    Other,
}

/// The generator for a machine; there is one for x86-64 only.
pub fn get_generator(arch: &Target) -> (r: Result<X86_64Generator, CompilerError>)
    ensures
        *arch is X86_64 <==> r is Ok,
        r matches Err(e) ==> e == CompilerError::NotSupported(NotSupported::ForeignTarget),
{
    match arch {
        Target::X86_64 => Ok(X86_64Generator::new()),
        Target::Other => Err(CompilerError::NotSupported(NotSupported::ForeignTarget)),
    }
}

} // verus!
