use vstd::prelude::*;
use vstd::slice::slice_to_vec;
use vstd::string::StringSliceAdditionalSpecFns;

verus! {

/// The part of a program that turned out to be shorter than it declares.
#[derive(Clone, Copy, Debug, PartialEq, Eq, Structural)]
pub enum Section {
    /// The block of 32-byte integer literals in the header.
    Uint256s,
    /// The block of one-byte boolean literals in the header.
    Bools,
    /// The block of 20-byte address literals in the header.
    Addresses,
    /// The operands of an `add` instruction.
    Add,
    /// The operands of a `mul` instruction.
    Mul,
    /// The operands of an `isEven` instruction.
    IsEven,
    /// The operand of a `special` instruction.
    Special,
    /// The operand of a `returnUint` instruction.
    ReturnUint,
    /// The operands of an `equal` instruction.
    Equal,
    /// The operands of a `greaterThan` instruction.
    GreaterThan,
    /// The operands of a `lessThan` instruction.
    LessThan,
    /// The operand of a `returnBool` instruction.
    ReturnBool,
    /// The operand of a `getLatestPrice` instruction.
    GetLatestPrice,
    /// The operand of a `getPriceFeedAddress` instruction.
    GetPriceFeedAddress,
    /// The operand of a `callerAddress` instruction.
    CallerAddress,
    /// The operand of an `itemPrice` instruction.
    ItemPrice,
    /// The operands of a `sub` instruction.
    Sub,
    /// The operands of a `div` instruction.
    Div,
}

/// Why an execution stopped without a result. Every error is final.
#[derive(Clone, Copy, Debug, PartialEq, Eq, Structural)]
pub enum VmError {
    /// The program ends where one of the three count bytes of the header is due.
    TruncatedHeader,
    /// The program ends before the bytes that a count or an opcode asks for.
    InsufficientData(Section),
    /// A fixed-width value was asked for at an offset too close to the end of the buffer.
    OutOfBounds,
    /// A subtraction whose second operand is the larger one.
    ArithmeticUnderflow,
    /// A division by zero.
    DivisionByZero,
    /// An opcode byte that stands for no instruction.
    InvalidOpcode,
}

impl Section {
    /// The diagnostic text for data missing in this section, as bytes.
    pub open spec fn message_spec(self) -> Seq<u8> {
        match self {
            Section::Uint256s => "Not enough bytes for uint256s".spec_bytes(),
            Section::Bools => "Not enough bytes for bools".spec_bytes(),
            Section::Addresses => "Not enough bytes for addresses".spec_bytes(),
            Section::Add => "Not enough bytes for add instruction".spec_bytes(),
            Section::Mul => "Not enough bytes for mul instruction".spec_bytes(),
            Section::IsEven => "Not enough bytes for isEven instruction".spec_bytes(),
            Section::Special => "Not enough bytes for special instruction".spec_bytes(),
            Section::ReturnUint => "Not enough bytes for return instruction".spec_bytes(),
            Section::Equal => "Not enough bytes for equal instruction".spec_bytes(),
            Section::GreaterThan => "Not enough bytes for greaterThan instruction".spec_bytes(),
            Section::LessThan => "Not enough bytes for lessThan instruction".spec_bytes(),
            Section::ReturnBool => "Not enough bytes for return bool instruction".spec_bytes(),
            Section::GetLatestPrice => "Not enough bytes for getLatestPrice instruction".spec_bytes(),
            Section::GetPriceFeedAddress => "Not enough bytes for getPriceFeedAddress instruction".spec_bytes(),
            Section::CallerAddress => "Not enough bytes for msg.sender instruction".spec_bytes(),
            Section::ItemPrice => "Not enough bytes for itemPrice instruction".spec_bytes(),
            Section::Sub => "Not enough bytes for sub instruction".spec_bytes(),
            Section::Div => "Not enough bytes for div instruction".spec_bytes(),
        }
    }

    /// The diagnostic text for data missing in this section.
    pub fn message(&self) -> (m: Vec<u8>)
        ensures
            m@ == self.message_spec(),
    {
        let text = match self {
            Section::Uint256s => "Not enough bytes for uint256s",
            Section::Bools => "Not enough bytes for bools",
            Section::Addresses => "Not enough bytes for addresses",
            Section::Add => "Not enough bytes for add instruction",
            Section::Mul => "Not enough bytes for mul instruction",
            Section::IsEven => "Not enough bytes for isEven instruction",
            Section::Special => "Not enough bytes for special instruction",
            Section::ReturnUint => "Not enough bytes for return instruction",
            Section::Equal => "Not enough bytes for equal instruction",
            Section::GreaterThan => "Not enough bytes for greaterThan instruction",
            Section::LessThan => "Not enough bytes for lessThan instruction",
            Section::ReturnBool => "Not enough bytes for return bool instruction",
            Section::GetLatestPrice => "Not enough bytes for getLatestPrice instruction",
            Section::GetPriceFeedAddress => "Not enough bytes for getPriceFeedAddress instruction",
            Section::CallerAddress => "Not enough bytes for msg.sender instruction",
            Section::ItemPrice => "Not enough bytes for itemPrice instruction",
            Section::Sub => "Not enough bytes for sub instruction",
            Section::Div => "Not enough bytes for div instruction",
        };
        slice_to_vec(text.as_bytes())
    }
}

impl VmError {
    /// The diagnostic text of this error, as bytes.
    pub open spec fn message_spec(self) -> Seq<u8> {
        match self {
            VmError::TruncatedHeader => "Input too short for all counts".spec_bytes(),
            VmError::InsufficientData(section) => section.message_spec(),
            VmError::OutOfBounds => "Out of bounds".spec_bytes(),
            VmError::ArithmeticUnderflow => "Subtraction underflow".spec_bytes(),
            VmError::DivisionByZero => "Division by zero".spec_bytes(),
            VmError::InvalidOpcode => "Invalid opcode".spec_bytes(),
        }
    }

    /// The diagnostic text of this error: what a caller outside sees of a failed execution.
    pub fn message(&self) -> (m: Vec<u8>)
        ensures
            m@ == self.message_spec(),
    {
        match self {
            VmError::TruncatedHeader => slice_to_vec("Input too short for all counts".as_bytes()),
            VmError::InsufficientData(section) => section.message(),
            VmError::OutOfBounds => slice_to_vec("Out of bounds".as_bytes()),
            VmError::ArithmeticUnderflow => slice_to_vec("Subtraction underflow".as_bytes()),
            VmError::DivisionByZero => slice_to_vec("Division by zero".as_bytes()),
            VmError::InvalidOpcode => slice_to_vec("Invalid opcode".as_bytes()),
        }
    }
}

} // verus!
