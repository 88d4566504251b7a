//! A host for small RISC-V programs that live in cells of a chain: the byte
//! strings of its wire, the machine its guests run on, the syscalls it serves
//! them, and the way a run ends.

pub mod cell;
pub mod codec;
pub mod error;
pub mod laws;
pub mod machine;
pub mod rpc_client;
pub mod runner;
pub mod ssri_vm;
pub mod text;
pub mod types;
