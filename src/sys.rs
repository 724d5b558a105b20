//! The layer that speaks to the kernel: descriptor I/O and files.

pub mod fd;
pub mod fs;
