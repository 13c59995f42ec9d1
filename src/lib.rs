//! The general-purpose register layer of a record-and-replay debugger: the
//! per-architecture register catalogue, the architecture-tagged register file
//! with its typed and descriptor-driven accessors, the 32/64-bit width
//! converter, the masked register-file comparator and the textual renderings.

pub mod kernel_abi;
pub mod gdb_register;
pub mod remote_ptr;
pub mod le_bytes;
pub mod catalog;
pub mod registers;
pub mod accessors;
pub mod convert;
pub mod compare;
pub mod serialize;
