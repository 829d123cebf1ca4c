//! A tool-augmented conversation driver.
//!
//! The library holds the data model of a conversation (messages, tool
//! definitions, completion requests) and the state machine that alternates
//! between a completion backend and remote tools until a plain-text answer
//! is produced. The machine performs no I/O itself: it tells its caller which
//! outside action is due and is handed the outcome of that action.

pub mod catalog;
pub mod driver;
pub mod failure;
pub mod message;
pub mod replay;
pub mod request;
pub mod run;
pub mod session;
