use vstd::prelude::*;

verus! {

/// What can go wrong while handling one prompt.
#[derive(Clone, Copy, Debug, PartialEq, Eq, Structural)]
pub enum CodecError {
    /// The prompt could not be serialized into the request schema.
    Encoding,
    /// The model's response did not match the response schema.
    Decoding,
    /// The model's response held no candidate completion.
    EmptyResult,
    /// The call to the model failed in transport.
    Channel,
}

/// The HTTP status that a failed prompt is answered with.
pub open spec fn status_of(e: CodecError) -> u16 {
    match e {
        CodecError::Encoding => 400,
        CodecError::Decoding => 500,
        CodecError::EmptyResult => 500,
        CodecError::Channel => 502,
    }
}

impl CodecError {
    /// The HTTP status code of this failure: a client error for a prompt
    /// that cannot be encoded, a server error for a bad or empty response,
    /// a gateway error when the model could not be reached.
    pub fn status_code(&self) -> (r: u16)
        ensures
            r == status_of(*self),
    {
        match self {
            CodecError::Encoding => 400,
            CodecError::Decoding => 500,
            CodecError::EmptyResult => 500,
            CodecError::Channel => 502,
        }
    }
}

} // verus!
