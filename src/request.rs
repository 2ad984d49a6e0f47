use vstd::prelude::*;
use vstd::utf8::encode_utf8;
use crate::error::CodecError;

verus! {

/// The request body up to the prompt text.
pub const REQUEST_HEAD: &'static str = "{\"inputText\":";

/// The request body after the prompt text: the fixed generation settings
/// (greedy sampling, at most 100 tokens, generation stops at `|`).
pub const REQUEST_TAIL: &'static str =
    ",\"textGenerationConfig\":{\"temperature\":0.0,\"topP\":0.0,\"maxTokenCount\":100,\"stopSequences\":[\"|\"]}}";

/// The lowercase hexadecimal digit of a value below 16.
pub open spec fn hex_digit(d: u32) -> char {
    seq!['0', '1', '2', '3', '4', '5', '6', '7', '8', '9', 'a', 'b', 'c', 'd', 'e', 'f'][d as int]
}

/// How one character is written inside a JSON string literal: the quote and
/// the backslash are escaped, the control characters U+0000 to U+001F get a
/// short escape where JSON has one and `\u00XX` otherwise, and every other
/// character stands as it is.
pub open spec fn escape_char(c: char) -> Seq<char> {
    let n = c as u32;
    if c == '"' {
        seq!['\\', '"']
    } else if c == '\\' {
        seq!['\\', '\\']
    } else if n == 0x08 {
        seq!['\\', 'b']
    } else if n == 0x09 {
        seq!['\\', 't']
    } else if n == 0x0a {
        seq!['\\', 'n']
    } else if n == 0x0c {
        seq!['\\', 'f']
    } else if n == 0x0d {
        seq!['\\', 'r']
    } else if n < 0x20 {
        seq!['\\', 'u', '0', '0', hex_digit(n / 16), hex_digit(n % 16)]
    } else {
        seq![c]
    }
}

/// A text with each of its characters escaped for a JSON string literal.
pub open spec fn json_escaped(s: Seq<char>) -> Seq<char>
    decreases s.len(),
{
    if s.len() == 0 {
        Seq::empty()
    } else {
        json_escaped(s.drop_last()) + escape_char(s.last())
    }
}

/// The JSON string literal for a text: the escaped text in double quotes.
pub open spec fn json_quoted(s: Seq<char>) -> Seq<char> {
    seq!['"'] + json_escaped(s) + seq!['"']
}

/// Relies on `serde_json::to_string` applied to a `str`: it writes the JSON
/// string literal for that text with the compact formatter's escapes, into
/// a `Vec` that never refuses a write, so it always succeeds.
#[verifier::external_body]
fn quote_json(s: &str) -> (r: Option<String>)
    ensures
        r is Some,
        r->0@ == json_quoted(s@),
{
    serde_json::to_string(s).ok()
}

/// The request body, as text, around an already quoted prompt.
pub open spec fn request_json(quoted: Seq<char>) -> Seq<char> {
    REQUEST_HEAD@ + quoted + REQUEST_TAIL@
}

/// Builds the request body around a prompt already written as a JSON
/// string literal, encoded as UTF-8.
pub fn frame_request(quoted: &str) -> (r: Vec<u8>)
    ensures
        r@ == encode_utf8(request_json(quoted@)),
{
    let mut text = String::from_str(REQUEST_HEAD);
    text.append(quoted);
    text.append(REQUEST_TAIL);
    text.as_str().as_bytes_vec()
}

/// One outbound generation request: the prompt text under the fixed
/// generation settings. There is no way to override the settings.
#[derive(Debug)]
pub struct TitanRequest {
    input_text: String,
}

impl View for TitanRequest {
    type V = Seq<char>;

    /// The prompt text.
    closed spec fn view(&self) -> Seq<char> {
        self.input_text@
    }
}

impl TitanRequest {
    /// The request for a prompt.
    pub fn new(prompt: String) -> (r: TitanRequest)
        ensures
            r@ == prompt@,
    {
        TitanRequest { input_text: prompt }
    }

    /// The prompt text.
    pub fn input_text(&self) -> (r: &str)
        ensures
            r@ == self@,
    {
        self.input_text.as_str()
    }

    /// The request body in the model's schema, as UTF-8 JSON. Writing the
    /// prompt as a JSON string cannot fail, so this always returns `Ok`; an
    /// `Encoding` error would stand for a failed serialization.
    pub fn encode(&self) -> (r: Result<Vec<u8>, CodecError>)
        ensures
            r is Ok,
            r->Ok_0@ == encode_utf8(request_json(json_quoted(self@))),
    {
        match quote_json(self.input_text.as_str()) {
            Some(quoted) => Ok(frame_request(quoted.as_str())),
            None => Err(CodecError::Encoding),
        }
    }
}

} // verus!
