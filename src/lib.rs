//! Prompt forwarding to a hosted text-generation model: request framing,
//! response text extraction, and the adapter that turns the model's chunked
//! stream into a sequence of text fragments.

pub mod error;
pub mod request;
pub mod response;
pub mod stream;

pub use error::CodecError;
pub use request::TitanRequest;
pub use response::{TitanResponse, TitanTextResult};
pub use stream::{StreamAdapter, StreamEvent};

use vstd::prelude::*;

verus! {

/// The greeting served at the root route.
pub fn hello_world() -> (r: &'static str)
    ensures
        r@ == "Hello, world!"@,
{
    "Hello, world!"
}

} // verus!
