//! Process-management core of a small embedded kernel: it parses and
//! validates application image headers, loads position-independent binaries
//! into RAM, manages each process's memory partitions and protection
//! regions, queues pending work, and models the exception-frame bridge used
//! to enter and resume application code.

pub mod word;
pub mod header;
pub mod task;
pub mod process;
pub mod loader;
pub mod kernel;
pub mod mpu;
pub mod context;
pub mod sdcard;
