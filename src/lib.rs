//! Runtime instantiation core of a WebAssembly virtual machine: the calling
//! convention of compiled functions, the stack-limit and interrupt protocol,
//! the layout of the per-instance context, and the allocation and
//! initialization of instances.
pub mod abi;
pub mod allocator;
pub mod errors;
pub mod instance;
pub mod interrupts;
pub mod init;
pub mod layout;
pub mod module;
pub mod signatures;
pub mod vmctx;
