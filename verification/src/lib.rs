pub mod address;
pub mod codec;
pub mod decoder;
pub mod error;
pub mod instr;
pub mod interfaces;
pub mod interp;
pub mod laws;
pub mod registers;
pub mod vm;
pub mod word;

pub use address::Address;
pub use error::{Section, VmError};
pub use instr::Instr;
pub use interfaces::{IARBPriceConsumer, IRedotPayVault};
pub use registers::Registers;
pub use vm::VM;
pub use word::U256;
