//! Small, verified illustrations of value ownership, borrowing and
//! string slices: each demonstration returns the lines it reports, and a
//! runtime model of the owner/borrow state machine checks the same rules
//! that the compiler enforces statically.

pub mod transcript;
pub mod ownership;
pub mod borrowing;
pub mod strings;
pub mod lending;
