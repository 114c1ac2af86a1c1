//! The library's side of the remote-model path: the request it sends and the
//! check that a credential is present. The network exchange lies outside.

use vstd::prelude::*;

verus! {

pub const API_PROMPT_HEAD: &'static str = "You are a summarizer for Indian government procurement officers. From the provided document extract the most important bullets an officer needs to act on: procurement value, submission deadline(s), eligibility criteria, required documents, penalties, key contacts, and suggested next steps. Return JSON with keys short_summary, relevance_to_officials (array), action_items (array), confidence_estimate.\n\nDocument text:\n";

pub const MISSING_KEY_MESSAGE: &'static str = "OpenRouter API key not found. Please set OPENROUTER_API_KEY environment variable or use mock mode.";

/// The instruction for the remote model, followed by the document text.
pub fn api_prompt(text: &str) -> (r: String)
    ensures
        r@ == API_PROMPT_HEAD@ + text@,
{
    let mut r = String::from_str(API_PROMPT_HEAD);
    r.append(text);
    r
}

/// Accepts a non-empty credential; an empty one gives the message that asks for it.
pub fn check_api_key(key: &str) -> (r: Result<(), String>)
    ensures
        r is Ok <==> key@.len() > 0,
        r matches Err(m) ==> m@ == MISSING_KEY_MESSAGE@,
{
    if key.is_empty() {
        Err(String::from_str(MISSING_KEY_MESSAGE))
    } else {
        Ok(())
    }
}

} // verus!
