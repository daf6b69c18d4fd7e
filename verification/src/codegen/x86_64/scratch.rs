//! The loan of a scratch register.

use vstd::prelude::*;
use crate::codegen::x86_64::registers::SizedRegister;

verus! {

/// The loan of one scratch register, at the width that the borrower asked
/// for. The generator hands a loan out when it lends the register and takes
/// it back when the register is returned; a loan cannot be copied.
#[derive(Debug)]
pub struct Scratch {
    pub reg: SizedRegister,
}

} // verus!
