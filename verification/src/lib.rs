//! The cooperative scheduler and trap core of a single-hart RISC-V library OS,
//! with the pieces that ship beside it: the bump allocator, the argument
//! checks of the Linux syscall layer, and the build descriptions and
//! workspace tasks.
//!
//! Every function here works on owned values. Register frames, thread tables
//! and addresses are plain data, and anything that has to touch memory, a
//! device or a process is handed back to the caller as a value that says what
//! to store, transfer or run.
//!
//! The scheduler is in [`scheduler`], with [`thread`], [`frame`] and [`arch`]
//! below it and [`trap_glue`], [`ops`] and [`trap`] around it. What holds of it
//! across calls is proved in [`laws`].

pub mod errno;
pub mod memory;
pub mod layout;
pub mod text;

pub mod arch;
pub mod frame;
pub mod thread;
pub mod scheduler;
pub mod trap_glue;
pub mod ops;
pub mod trap;
pub mod laws;

pub mod bump;
pub mod stack;

pub mod syscall;
pub mod handlers;

pub mod target;
pub mod sh;
pub mod massage;
pub mod matrix;
