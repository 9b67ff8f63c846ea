//! Client side of a text-generation service: validated text, the two request
//! bodies, and the decisions of a call, with the transport left to the caller.

pub mod client;
pub mod content_string;
pub mod error;
pub mod exchange;
pub mod json;
pub mod payload;

pub use crate::client::MarkovChainClient;
pub use crate::payload::{GeneratePayload, InputPayload};
