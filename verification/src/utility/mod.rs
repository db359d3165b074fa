//! Reading documents and talking to the payment processor.

pub mod method_client;
pub mod parser;
