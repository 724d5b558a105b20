//! Owned file descriptors and unbuffered file I/O, as a verified core.
//!
//! The library decides everything that surrounds a system call: which
//! descriptor is owned and when it must be released, which flags an open
//! call takes, how many bytes one transfer may ask for, and what the
//! kernel's answer means. Issuing the calls themselves is left to the caller.

pub mod error;
pub mod fs;
pub mod num;
pub mod os;
pub mod report;
pub mod sys;
