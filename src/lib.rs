//! Instruction processing for a program that creates accounts at
//! program-derived addresses and keeps an invocation counter in them.

pub mod account;
pub mod address;
pub mod bytes;
pub mod error;
pub mod instruction;
pub mod processor;
