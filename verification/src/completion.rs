//! The completion exchange as plain values: the single-turn request the
//! pipeline sends, and the extraction of the commit message from the parsed
//! response, with its fixed fallback.

use crate::text::trim;
use crate::text::trimmed;
use vstd::prelude::*;
use vstd::string::StringExecFns;

verus! {

/// One text part of a request turn.
#[derive(Debug, Clone, PartialEq, Eq)]
pub struct Part {
    pub text: String,
}

/// One conversation turn of the request.
#[derive(Debug, Clone, PartialEq, Eq)]
pub struct Content {
    pub parts: Vec<Part>,
    pub role: String,
}

/// The request body: the conversation turns sent to the completion service.
#[derive(Debug, Clone, PartialEq, Eq)]
pub struct GeminiRequest {
    pub contents: Vec<Content>,
}

/// One text part of a response candidate.
#[derive(Debug, Clone, PartialEq, Eq)]
pub struct PartText {
    pub text: String,
}

/// The content of a response candidate.
#[derive(Debug, Clone, PartialEq, Eq)]
pub struct ContentText {
    pub parts: Vec<PartText>,
}

/// One candidate of the response.
#[derive(Debug, Clone, PartialEq, Eq)]
pub struct Candidate {
    pub content: ContentText,
}

/// The parsed response body: a list of candidates.
#[derive(Debug, Clone, PartialEq, Eq)]
pub struct GeminiResponse {
    pub candidates: Vec<Candidate>,
}

/// A well-formed request: a single turn with role `user` whose sole text part
/// is the prompt, verbatim.
pub open spec fn request_shape(prompt: Seq<char>, req: GeminiRequest) -> bool {
    &&& req.contents@.len() == 1
    &&& req.contents@[0].role@ == "user"@
    &&& req.contents@[0].parts@.len() == 1
    &&& req.contents@[0].parts@[0].text@ == prompt
}

/// Builds the single-turn request carrying the prompt.
pub fn make_request(prompt: String) -> (req: GeminiRequest)
    ensures
        request_shape(prompt@, req),
{
    let mut parts: Vec<Part> = Vec::new();
    parts.push(Part { text: prompt });
    let mut contents: Vec<Content> = Vec::new();
    contents.push(Content { parts, role: String::from_str("user") });
    GeminiRequest { contents }
}

/// The fixed generation endpoint; the credential follows as the value of the
/// key query parameter.
pub open spec fn endpoint_base() -> Seq<char> {
    "https://generativelanguage.googleapis.com/v1beta/models/gemini-2.0-flash:generateContent?key="@
}

/// The URL a credential selects.
pub open spec fn url_of(key: Seq<char>) -> Seq<char> {
    endpoint_base() + key
}

/// Builds the request URL for the given credential.
pub fn request_url(key: &str) -> (u: String)
    ensures
        u@ == url_of(key@),
{
    let mut u = String::from_str(
        "https://generativelanguage.googleapis.com/v1beta/models/gemini-2.0-flash:generateContent?key=",
    );
    u.append(key);
    u
}

/// The fixed placeholder used when the response yields no candidate text.
pub open spec fn fallback_message() -> Seq<char> {
    "Generated commit message"@
}

/// The commit message a response yields: the first candidate's first text
/// part, trimmed of whitespace; the fixed fallback when the candidate or
/// part is absent.
pub open spec fn extracted(resp: GeminiResponse) -> Seq<char> {
    if resp.candidates@.len() > 0 && resp.candidates@[0].content.parts@.len() > 0 {
        trimmed(resp.candidates@[0].content.parts@[0].text@)
    } else {
        fallback_message()
    }
}

/// Extracts the commit message from a parsed response; a response lacking the
/// candidate or part yields the fallback text rather than a failure.
pub fn extract_message(resp: &GeminiResponse) -> (m: String)
    ensures
        m@ == extracted(*resp),
{
    if resp.candidates.len() > 0 {
        let c = &resp.candidates[0];
        if c.content.parts.len() > 0 {
            return trim(c.content.parts[0].text.as_str());
        }
    }
    String::from_str("Generated commit message")
}

} // verus!
