//! A minimal toolchain for a reduced MIPS-like instruction set: a two-pass
//! assembler that turns textual assembly into 32-bit machine words, and a
//! simulator that executes those words against an architectural state of
//! 32 registers and a sparse word-addressed memory.

pub mod assembler;
pub mod encoding;
pub mod errors;
pub mod format;
pub mod machine;
pub mod numbers;
pub mod registers;
pub mod symtab;
pub mod text;

pub use encoding::DecodedInstruction;
pub use errors::AsmError;
pub use errors::AsmErrorKind;
pub use machine::MipsSimulator;
pub use machine::StepOutcome;
pub use symtab::DuplicatePolicy;
pub use symtab::SymbolTable;
