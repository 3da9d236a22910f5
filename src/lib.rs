//! Host runtime for a sandboxed WebAssembly application: value marshaling, the
//! binary resource table, the wake registration queue, the suspend/resume
//! decisions of the executor, the syscall logic, and the bitmap and frame
//! buffer formats that the drawing syscalls work on.
pub mod binary_data;
pub mod bitmap;
pub mod convert;
pub mod env;
pub mod error;
pub mod executor;
pub mod lcd;
pub mod registration;
pub mod shape;
pub mod syscall;
pub mod text;
pub mod widget;
