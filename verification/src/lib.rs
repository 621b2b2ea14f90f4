//! Verified core of a small teaching kernel: interrupt-controller register
//! encodings, the keyboard/serial input buffer and its line editor, the
//! process table and scheduler, system-call services, and the helpers of the
//! user library and shell.

pub mod apic;
pub mod boot;
pub mod input;
pub mod lib_io;
pub mod logger;
pub mod manager;
pub mod process;
pub mod regs;
pub mod serial;
pub mod shell;
pub mod sync;
pub mod syscall;
pub mod text;
pub mod unique_id;
