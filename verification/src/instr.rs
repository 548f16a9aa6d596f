//! The ARM7TDMI instruction set: its symbolic form, and the encoding of
//! that form as 32-bit instruction words.

pub mod bits;
pub mod decode;
pub mod display;
pub mod encode;
pub mod info;
pub mod laws;
pub mod layout;
pub mod ty;

pub use ty::Cond;
pub use ty::DataOp;
pub use ty::DataOperand;
pub use ty::Instr;
pub use ty::MsrSource;
pub use ty::Psr;
pub use ty::Register;
pub use ty::RotatedConstant;
pub use ty::Shift;
pub use ty::ShiftAmount;
pub use ty::ShiftType;
pub use ty::SpecialOperand;
pub use ty::TransferKind;
pub use ty::TransferOperand;
pub use ty::TransferSize;
pub use ty::TransferSizeSpecial;
pub use info::ConstantStyle;
pub use info::LineInfo;
pub use info::PrettyArgument;
pub use info::PrettyInstr;
