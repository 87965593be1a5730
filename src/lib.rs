//! A personal contact book: contact records, name filters, the actions that
//! a search applies to its matches, and the interactive edit state machine.

pub mod labels;
pub mod contact;
pub mod search;
pub mod actions;
pub mod edit;
pub mod store;
pub mod error;
