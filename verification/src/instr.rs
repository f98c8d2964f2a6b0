use crate::error::{Section, VmError};
use vstd::prelude::*;

verus! {

/// One instruction: what an opcode byte and its operand bytes stand for.
///
/// Every operand is the index of a register. `a` and `b` name the registers read, `ret`
/// the register written or returned.
#[derive(Clone, Copy, Debug, PartialEq, Eq, Structural)]
pub enum Instr {
    /// Opcode 0: integer `ret` becomes integer `a` plus integer `b`, wrapping.
    Add { a: u8, b: u8, ret: u8 },
    /// Opcode 1: integer `ret` becomes integer `a` times integer `b`, wrapping.
    Mul { a: u8, b: u8, ret: u8 },
    /// Opcode 2: boolean `ret` becomes whether integer `a` is even.
    IsEven { a: u8, ret: u8 },
    /// Opcode 3: integer `ret` becomes the constant 69.
    Special { ret: u8 },
    /// Opcode 4: stop and return integer `ret`.
    ReturnUint { ret: u8 },
    /// Opcode 5: boolean `ret` becomes whether integers `a` and `b` are equal.
    Equal { a: u8, b: u8, ret: u8 },
    /// Opcode 6: boolean `ret` becomes whether integer `a` is above integer `b`.
    GreaterThan { a: u8, b: u8, ret: u8 },
    /// Opcode 7: boolean `ret` becomes whether integer `a` is below integer `b`.
    LessThan { a: u8, b: u8, ret: u8 },
    /// Opcode 8: stop and return boolean `ret` as 1 or 0.
    ReturnBool { ret: u8 },
    /// Opcode 9: integer `ret` becomes the price that the oracle reports.
    GetLatestPrice { ret: u8 },
    /// Opcode 10: address `ret` becomes the address of the oracle's price feed.
    GetPriceFeedAddress { ret: u8 },
    /// Opcode 30: address `ret` becomes the caller of this execution.
    CallerAddress { ret: u8 },
    /// Opcode 31: integer `ret` becomes the item price handed in with the program.
    ItemPrice { ret: u8 },
    /// Opcode 32: integer `ret` becomes integer `a` minus integer `b`, or the execution
    /// fails where `b` is the larger.
    Sub { a: u8, b: u8, ret: u8 },
    /// Opcode 33: integer `ret` becomes integer `a` divided by integer `b`, or the
    /// execution fails where `b` is zero.
    Div { a: u8, b: u8, ret: u8 },
}

impl Instr {
    /// The number of bytes that the instruction takes in a program: the opcode and its
    /// operands.
    pub open spec fn width(self) -> nat {
        match self {
            Instr::Add { .. } => 4,
            Instr::Mul { .. } => 4,
            Instr::IsEven { .. } => 3,
            Instr::Special { .. } => 2,
            Instr::ReturnUint { .. } => 2,
            Instr::Equal { .. } => 4,
            Instr::GreaterThan { .. } => 4,
            Instr::LessThan { .. } => 4,
            Instr::ReturnBool { .. } => 2,
            Instr::GetLatestPrice { .. } => 2,
            Instr::GetPriceFeedAddress { .. } => 2,
            Instr::CallerAddress { .. } => 2,
            Instr::ItemPrice { .. } => 2,
            Instr::Sub { .. } => 4,
            Instr::Div { .. } => 4,
        }
    }

    /// The number of bytes that the instruction takes in a program.
    pub fn size(&self) -> (r: usize)
        ensures
            r == self.width(),
    {
        match self {
            Instr::Add { .. } => 4,
            Instr::Mul { .. } => 4,
            Instr::IsEven { .. } => 3,
            Instr::Special { .. } => 2,
            Instr::ReturnUint { .. } => 2,
            Instr::Equal { .. } => 4,
            Instr::GreaterThan { .. } => 4,
            Instr::LessThan { .. } => 4,
            Instr::ReturnBool { .. } => 2,
            Instr::GetLatestPrice { .. } => 2,
            Instr::GetPriceFeedAddress { .. } => 2,
            Instr::CallerAddress { .. } => 2,
            Instr::ItemPrice { .. } => 2,
            Instr::Sub { .. } => 4,
            Instr::Div { .. } => 4,
        }
    }
}

/// Whether `opcode` stands for an instruction.
pub open spec fn is_opcode(opcode: u8) -> bool {
    opcode <= 10 || (30 <= opcode <= 33)
}

/// `instr`, provided that the `avail` bytes behind the opcode hold its operands.
pub open spec fn with_operands(avail: int, section: Section, instr: Instr) -> Result<
    Instr,
    VmError,
> {
    if avail < instr.width() - 1 {
        Err(VmError::InsufficientData(section))
    } else {
        Ok(instr)
    }
}

/// The instruction that begins at offset `pc` of `input`, where `pc` is inside `input`.
///
/// The opcode decides first: a byte that is no opcode is an error whatever follows it.
/// The operands are the bytes directly behind the opcode.
pub open spec fn decode_at(input: Seq<u8>, pc: int) -> Result<Instr, VmError> {
    let avail = input.len() - pc - 1;
    let x = input[pc + 1];
    let y = input[pc + 2];
    let z = input[pc + 3];
    match input[pc] {
        0 => with_operands(avail, Section::Add, Instr::Add { a: x, b: y, ret: z }),
        1 => with_operands(avail, Section::Mul, Instr::Mul { a: x, b: y, ret: z }),
        2 => with_operands(avail, Section::IsEven, Instr::IsEven { a: x, ret: y }),
        3 => with_operands(avail, Section::Special, Instr::Special { ret: x }),
        4 => with_operands(avail, Section::ReturnUint, Instr::ReturnUint { ret: x }),
        5 => with_operands(avail, Section::Equal, Instr::Equal { a: x, b: y, ret: z }),
        6 => with_operands(avail, Section::GreaterThan, Instr::GreaterThan { a: x, b: y, ret: z }),
        7 => with_operands(avail, Section::LessThan, Instr::LessThan { a: x, b: y, ret: z }),
        8 => with_operands(avail, Section::ReturnBool, Instr::ReturnBool { ret: x }),
        9 => with_operands(avail, Section::GetLatestPrice, Instr::GetLatestPrice { ret: x }),
        10 => with_operands(
            avail,
            Section::GetPriceFeedAddress,
            Instr::GetPriceFeedAddress { ret: x },
        ),
        30 => with_operands(avail, Section::CallerAddress, Instr::CallerAddress { ret: x }),
        31 => with_operands(avail, Section::ItemPrice, Instr::ItemPrice { ret: x }),
        32 => with_operands(avail, Section::Sub, Instr::Sub { a: x, b: y, ret: z }),
        33 => with_operands(avail, Section::Div, Instr::Div { a: x, b: y, ret: z }),
        _ => Err(VmError::InvalidOpcode),
    }
}

/// `instr`, provided that the `avail` bytes behind the opcode hold its operands.
fn require_operands(avail: usize, section: Section, instr: Instr) -> (r: Result<Instr, VmError>)
    ensures
        r == with_operands(avail as int, section, instr),
{
    if avail < instr.size() - 1 {
        Err(VmError::InsufficientData(section))
    } else {
        Ok(instr)
    }
}

/// Decodes the instruction that begins at offset `pc` of `input`.
///
/// Fails with `InvalidOpcode` where the byte at `pc` is no opcode, and with
/// `InsufficientData` where the program ends before the last operand.
pub fn fetch(input: &[u8], pc: usize) -> (r: Result<Instr, VmError>)
    requires
        pc < input@.len(),
    ensures
        r == decode_at(input@, pc as int),
{
    let avail = input.len() - pc - 1;
    let x = if avail >= 1 { input[pc + 1] } else { 0 };
    let y = if avail >= 2 { input[pc + 2] } else { 0 };
    let z = if avail >= 3 { input[pc + 3] } else { 0 };
    match input[pc] {
        0 => require_operands(avail, Section::Add, Instr::Add { a: x, b: y, ret: z }),
        1 => require_operands(avail, Section::Mul, Instr::Mul { a: x, b: y, ret: z }),
        2 => require_operands(avail, Section::IsEven, Instr::IsEven { a: x, ret: y }),
        3 => require_operands(avail, Section::Special, Instr::Special { ret: x }),
        4 => require_operands(avail, Section::ReturnUint, Instr::ReturnUint { ret: x }),
        5 => require_operands(avail, Section::Equal, Instr::Equal { a: x, b: y, ret: z }),
        6 => require_operands(
            avail,
            Section::GreaterThan,
            Instr::GreaterThan { a: x, b: y, ret: z },
        ),
        7 => require_operands(avail, Section::LessThan, Instr::LessThan { a: x, b: y, ret: z }),
        8 => require_operands(avail, Section::ReturnBool, Instr::ReturnBool { ret: x }),
        9 => require_operands(avail, Section::GetLatestPrice, Instr::GetLatestPrice { ret: x }),
        10 => require_operands(
            avail,
            Section::GetPriceFeedAddress,
            Instr::GetPriceFeedAddress { ret: x },
        ),
        30 => require_operands(avail, Section::CallerAddress, Instr::CallerAddress { ret: x }),
        31 => require_operands(avail, Section::ItemPrice, Instr::ItemPrice { ret: x }),
        32 => require_operands(avail, Section::Sub, Instr::Sub { a: x, b: y, ret: z }),
        33 => require_operands(avail, Section::Div, Instr::Div { a: x, b: y, ret: z }),
        _ => Err(VmError::InvalidOpcode),
    }
}

} // verus!
