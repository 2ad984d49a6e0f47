use vstd::prelude::*;
use crate::error::CodecError;

verus! {

/// One candidate completion returned by the model.
#[derive(Clone, Debug)]
pub struct TitanTextResult {
    pub token_count: i32,
    pub output_text: String,
    pub completion_reason: String,
}

/// The model's response: the token count of the prompt and the candidate
/// completions, in the order the model ranked them.
#[derive(Clone, Debug)]
pub struct TitanResponse {
    pub input_text_token_count: i32,
    pub results: Vec<TitanTextResult>,
}

impl TitanResponse {
    /// The text of the first candidate, if there is one.
    pub open spec fn first_text_spec(&self) -> Option<Seq<char>> {
        if self.results@.len() > 0 {
            Some(self.results@[0].output_text@)
        } else {
            None
        }
    }

    /// The text of the first candidate; the other candidates are ignored.
    /// Fails with `EmptyResult` when the response holds no candidate.
    pub fn first_text(&self) -> (r: Result<String, CodecError>)
        ensures
            self.results@.len() == 0 <==> r == Err::<String, CodecError>(CodecError::EmptyResult),
            self.results@.len() > 0 <==> r is Ok,
            r is Ok ==> Some(r->Ok_0@) == self.first_text_spec(),
    {
        if self.results.len() == 0 {
            Err(CodecError::EmptyResult)
        } else {
            Ok(self.results[0].output_text.clone())
        }
    }
}

} // verus!
