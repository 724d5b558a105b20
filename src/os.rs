//! Operating-system specific building blocks.

pub mod fd;
