//! The general-purpose registers and their names at each width.

use vstd::prelude::*;
use vstd::string::*;

verus! {

/// A general-purpose register, whatever width it is used at.
#[derive(Copy, Clone, Hash, PartialEq, Eq, Debug, Structural)]
pub enum Register {
    Rax,
    Rbx,
    Rcx,
    Rdx,
    Rsi,
    Rdi,
    R8,
    R9,
    R10,
    R11,
    R12,
    R13,
    R14,
    R15,
}

/// How many registers there are.
pub const NUM_REGS: u8 = 14;

/// How many arguments of a call travel in registers.
pub const NUM_ARG_REGS: usize = 6;

/// The register with a given number.
pub open spec fn register_at(i: int) -> Register {
    if i == 0 {
        Register::Rax
    } else if i == 1 {
        Register::Rbx
    } else if i == 2 {
        Register::Rcx
    } else if i == 3 {
        Register::Rdx
    } else if i == 4 {
        Register::Rsi
    } else if i == 5 {
        Register::Rdi
    } else if i == 6 {
        Register::R8
    } else if i == 7 {
        Register::R9
    } else if i == 8 {
        Register::R10
    } else if i == 9 {
        Register::R11
    } else if i == 10 {
        Register::R12
    } else if i == 11 {
        Register::R13
    } else if i == 12 {
        Register::R14
    } else {
        Register::R15
    }
}

/// The register that carries the argument at a given position of a call, for
/// the first six positions.
pub open spec fn arg_register_at(i: int) -> Register {
    if i == 0 {
        Register::Rdi
    } else if i == 1 {
        Register::Rsi
    } else if i == 2 {
        Register::Rdx
    } else if i == 3 {
        Register::Rcx
    } else if i == 4 {
        Register::R8
    } else {
        Register::R9
    }
}

/// The register that carries the argument at position `i` of a call.
pub fn arg_register(i: usize) -> (r: Register)
    requires
        i < NUM_ARG_REGS,
    ensures
        r == arg_register_at(i as int),
{
    if i == 0 {
        Register::Rdi
    } else if i == 1 {
        Register::Rsi
    } else if i == 2 {
        Register::Rdx
    } else if i == 3 {
        Register::Rcx
    } else if i == 4 {
        Register::R8
    } else {
        Register::R9
    }
}

impl Register {
    /// The register's number, from 0 to 13.
    pub open spec fn index(self) -> int {
        match self {
            Register::Rax => 0,
            Register::Rbx => 1,
            Register::Rcx => 2,
            Register::Rdx => 3,
            Register::Rsi => 4,
            Register::Rdi => 5,
            Register::R8 => 6,
            Register::R9 => 7,
            Register::R10 => 8,
            Register::R11 => 9,
            Register::R12 => 10,
            Register::R13 => 11,
            Register::R14 => 12,
            Register::R15 => 13,
        }
    }

    /// Whether the register carries an argument of a call.
    pub open spec fn carries_argument(self) -> bool {
        ||| self is Rdi
        ||| self is Rsi
        ||| self is Rdx
        ||| self is Rcx
        ||| self is R8
        ||| self is R9
    }

    /// Whether the register may be lent out as scratch. The registers that
    /// carry arguments are kept back, and so are the accumulator and the two
    /// temporaries that a call or a division may overwrite.
    pub open spec fn scratch(self) -> bool {
        !self.carries_argument() && !(self is Rax) && !(self is R10) && !(self is R11)
    }

    /// The letters that the register's names at all widths are built around.
    pub open spec fn stem(self) -> Seq<char> {
        match self {
            Register::Rax => "A"@,
            Register::Rbx => "B"@,
            Register::Rcx => "C"@,
            Register::Rdx => "D"@,
            Register::Rsi => "SI"@,
            Register::Rdi => "DI"@,
            Register::R8 => "R8"@,
            Register::R9 => "R9"@,
            Register::R10 => "R10"@,
            Register::R11 => "R11"@,
            Register::R12 => "R12"@,
            Register::R13 => "R13"@,
            Register::R14 => "R14"@,
            Register::R15 => "R15"@,
        }
    }

    /// The register's number, from 0 to 13.
    pub fn number(&self) -> (r: u8)
        ensures
            r == self.index(),
            r < NUM_REGS,
    {
        match self {
            Register::Rax => 0,
            Register::Rbx => 1,
            Register::Rcx => 2,
            Register::Rdx => 3,
            Register::Rsi => 4,
            Register::Rdi => 5,
            Register::R8 => 6,
            Register::R9 => 7,
            Register::R10 => 8,
            Register::R11 => 9,
            Register::R12 => 10,
            Register::R13 => 11,
            Register::R14 => 12,
            Register::R15 => 13,
        }
    }

    /// The register with the given number, if there is one.
    pub fn try_from(value: u8) -> (r: Result<Register, &'static str>)
        ensures
            value < NUM_REGS ==> r == Ok::<Register, &'static str>(register_at(value as int)),
            value >= NUM_REGS ==> r is Err && r->Err_0@ == "Register number must be 0-13"@,
    {
        match value {
            0 => Ok(Register::Rax),
            1 => Ok(Register::Rbx),
            2 => Ok(Register::Rcx),
            3 => Ok(Register::Rdx),
            4 => Ok(Register::Rsi),
            5 => Ok(Register::Rdi),
            6 => Ok(Register::R8),
            7 => Ok(Register::R9),
            8 => Ok(Register::R10),
            9 => Ok(Register::R11),
            10 => Ok(Register::R12),
            11 => Ok(Register::R13),
            12 => Ok(Register::R14),
            13 => Ok(Register::R15),
            _ => Err("Register number must be 0-13"),
        }
    }

    /// Whether the register may be lent out as scratch.
    pub fn is_scratch(&self) -> (r: bool)
        ensures
            r == self.scratch(),
    {
        match self {
            Register::Rbx | Register::R12 | Register::R13 | Register::R14 | Register::R15 => true,
            _ => false,
        }
    }

    fn stem_str(&self) -> (r: &'static str)
        ensures
            r@ == self.stem(),
    {
        match self {
            Register::Rax => "A",
            Register::Rbx => "B",
            Register::Rcx => "C",
            Register::Rdx => "D",
            Register::Rsi => "SI",
            Register::Rdi => "DI",
            Register::R8 => "R8",
            Register::R9 => "R9",
            Register::R10 => "R10",
            Register::R11 => "R11",
            Register::R12 => "R12",
            Register::R13 => "R13",
            Register::R14 => "R14",
            Register::R15 => "R15",
        }
    }
}

/// A width at which a register is used. `Void` stands for the size of the
/// type `Void`; no register has a name at that width.
#[derive(Copy, Clone, PartialEq, Eq, Debug, Structural)]
pub enum RegisterSize {
    /// 64 bits
    QWord,
    /// 32 bits
    DWord,
    /// 16 bits
    Word,
    /// 8 bits
    Byte,
    Void,
}

impl RegisterSize {
    /// The width in bytes.
    pub open spec fn bytes(self) -> int {
        match self {
            RegisterSize::QWord => 8,
            RegisterSize::DWord => 4,
            RegisterSize::Word => 2,
            RegisterSize::Byte => 1,
            RegisterSize::Void => 0,
        }
    }

    /// The keyword that gives a memory operand this width.
    pub open spec fn text(self) -> Seq<char>
        recommends
            !(self is Void),
    {
        match self {
            RegisterSize::QWord => "QWORD"@,
            RegisterSize::DWord => "DWORD"@,
            RegisterSize::Word => "WORD"@,
            RegisterSize::Byte => "BYTE"@,
            RegisterSize::Void => Seq::empty(),
        }
    }

    /// The width in bytes.
    pub fn width(&self) -> (r: u8)
        ensures
            r == self.bytes(),
    {
        match self {
            RegisterSize::QWord => 8,
            RegisterSize::DWord => 4,
            RegisterSize::Word => 2,
            RegisterSize::Byte => 1,
            RegisterSize::Void => 0,
        }
    }

    /// The keyword that gives a memory operand this width.
    pub fn to_string(&self) -> (r: String)
        requires
            !(self is Void),
        ensures
            r@ == self.text(),
    {
        match self {
            RegisterSize::QWord => String::from_str("QWORD"),
            RegisterSize::DWord => String::from_str("DWORD"),
            RegisterSize::Word => String::from_str("WORD"),
            _ => String::from_str("BYTE"),
        }
    }
}

/// A register at a width.
#[derive(Copy, Clone, PartialEq, Eq, Debug, Structural)]
pub struct SizedRegister {
    pub reg: Register,
    pub size: RegisterSize,
}

impl SizedRegister {
    /// What is written before the stem in the register's name.
    pub open spec fn prefix(self) -> Seq<char> {
        if self.reg.index() >= 6 {
            Seq::empty()
        } else {
            match self.size {
                RegisterSize::QWord => "R"@,
                RegisterSize::DWord => "E"@,
                _ => Seq::empty(),
            }
        }
    }

    /// What is written after the stem in the register's name.
    pub open spec fn suffix(self) -> Seq<char> {
        if self.reg.index() >= 6 {
            match self.size {
                RegisterSize::QWord => Seq::empty(),
                RegisterSize::DWord => "D"@,
                RegisterSize::Word => "W"@,
                _ => "B"@,
            }
        } else if self.reg.index() >= 4 {
            match self.size {
                RegisterSize::Byte => "L"@,
                _ => Seq::empty(),
            }
        } else {
            match self.size {
                RegisterSize::Byte => "L"@,
                _ => "X"@,
            }
        }
    }

    /// The register's name at its width, as the assembler knows it: `R8` to
    /// `R15` take a letter for the width behind them, the others are the
    /// legacy names built around one or two letters.
    pub open spec fn text(self) -> Seq<char>
        recommends
            !(self.size is Void),
    {
        self.prefix() + self.reg.stem() + self.suffix()
    }

    /// The register's name at its width.
    pub fn to_string(&self) -> (r: String)
        requires
            !(self.size is Void),
        ensures
            r@ == self.text(),
    {
        let n = self.reg.number();
        let prefix = if n >= 6 {
            ""
        } else {
            match self.size {
                RegisterSize::QWord => "R",
                RegisterSize::DWord => "E",
                _ => "",
            }
        };
        let suffix = if n >= 6 {
            match self.size {
                RegisterSize::QWord => "",
                RegisterSize::DWord => "D",
                RegisterSize::Word => "W",
                _ => "B",
            }
        } else if n >= 4 {
            match self.size {
                RegisterSize::Byte => "L",
                _ => "",
            }
        } else {
            match self.size {
                RegisterSize::Byte => "L",
                _ => "X",
            }
        };
        proof {
            reveal_strlit("");
            assert(""@ =~= Seq::<char>::empty());
        }
        let mut s = String::from_str(prefix);
        s.append(self.reg.stem_str());
        s.append(suffix);
        s
    }
}

} // verus!
