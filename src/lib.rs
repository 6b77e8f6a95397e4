//! The command bridge between a desktop front end and an external backend
//! process: where the backend lives, how a named operation becomes a command
//! line, and how a finished process becomes a result for the caller.

pub mod decimal;
pub mod operation;
pub mod outcome;
pub mod locator;
