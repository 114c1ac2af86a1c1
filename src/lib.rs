//! Rule-based extraction of the facts a procurement official acts on
//! (deadlines, amounts, eligibility, contacts, tender terms) from free text.

pub mod laws;
mod outside;
pub mod remote;
pub mod summary;
pub mod text;

pub use laws::{
    lemma_confidence_from_count, lemma_findings_in_step, lemma_fired_detectors_decide,
    lemma_keyword_survives_reordering, lemma_points_match_actions, lemma_summary_deterministic,
};
pub use summary::{
    mock_summarize, summarize_scanned, summarize_text_mock, summary_text, MockSummaryRequest,
    SummaryResult, SummaryView, AMOUNT_PATTERN, CONTACT_PATTERN, DATE_PATTERN, FALLBACK_SUMMARY,
};
pub use remote::{api_prompt, check_api_key, API_PROMPT_HEAD, MISSING_KEY_MESSAGE};
pub use text::{chars_of, occurs, occurs_in};
