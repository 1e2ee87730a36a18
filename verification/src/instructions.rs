//! The checks on accounts and the two operations built on them.

pub mod helper;
pub mod make;
pub mod take;
