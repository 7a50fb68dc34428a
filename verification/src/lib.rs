//! The pure core of a read-only dictionary lookup service.
//!
//! The service answers two kinds of request over a table of dictionary
//! entries: an exact lookup of one headword, and a fuzzy lookup in which `.`
//! stands for any run of characters. This crate decides which statement is
//! put to the store for a request, and which response is sent for what the
//! store answered. Talking to the store and to the network is left to the
//! program around it.

pub mod envelope;
pub mod error;
pub mod handler;
pub mod pattern;
pub mod response;
pub mod statement;
pub mod word;

pub use error::{EcdictError, StoreError};
pub use handler::{exact_response, fuzzy_response, handle_exact, handle_fuzzy};
pub use pattern::fuzzy_pattern;
pub use response::{root_response, words_response, ContentType, Response};
pub use statement::{exact_statement, fuzzy_statement, Statement};
pub use word::Word;
