//! Debug backend for MIPS32 cores behind an EJTAG unit: an instruction
//! encoder, the EJTAG session that injects encoded words through a JTAG
//! transport, the version dependent breakpoint register map, and the
//! core facade built from them.
pub mod assembly;
pub mod bits;
pub mod communication_interface;
pub mod core_state;
pub mod debug_regs;
pub mod ejtag;
pub mod error;
pub mod mips32;
pub mod probe;
pub mod registers;
pub mod scripted;
pub mod sequences;

pub use debug_regs::Config1;
pub use debug_regs::DebugCtrl;
pub use debug_regs::EjtagCtrl;
pub use debug_regs::IDCode;
pub use debug_regs::ImpCode;
pub use mips32::Mips32;
pub use mips32::MipsState;
