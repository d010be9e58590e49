//! LoomWM AI integration.
//!
//! Handles intent interpretation and generative UI:
//! - Parse natural language intents
//! - Suggest node arrangements
//! - Generate UI elements based on context

use vstd::prelude::*;
use vstd::string::StringExecFns;

pub mod generator;
pub mod intent;
pub mod suggestions;

pub use generator::UiGenerator;
pub use intent::{Intent, IntentParser};
pub use suggestions::SuggestionEngine;

verus! {

/// Why the AI integration failed.
#[derive(Debug)]
pub enum AiError {
    /// Failed to parse intent.
    ParseError(String),
    /// AI service unavailable.
    ServiceUnavailable(String),
    /// Generation failed.
    GenerationFailed(String),
}

/// The mathematical value of an [`AiError`].
pub ghost enum AiErrorView {
    ParseError(Seq<char>),
    ServiceUnavailable(Seq<char>),
    GenerationFailed(Seq<char>),
}

impl View for AiError {
    type V = AiErrorView;

    open spec fn view(&self) -> AiErrorView {
        match *self {
            AiError::ParseError(reason) => AiErrorView::ParseError(reason@),
            AiError::ServiceUnavailable(reason) => AiErrorView::ServiceUnavailable(reason@),
            AiError::GenerationFailed(reason) => AiErrorView::GenerationFailed(reason@),
        }
    }
}

impl AiErrorView {
    /// The error in words.
    pub open spec fn message(self) -> Seq<char> {
        match self {
            AiErrorView::ParseError(detail) => "Failed to parse intent: "@ + detail,
            AiErrorView::ServiceUnavailable(detail) => "AI service unavailable: "@ + detail,
            AiErrorView::GenerationFailed(detail) => "Generation failed: "@ + detail,
        }
    }
}

impl AiError {
    /// The error in words.
    pub fn message(&self) -> (message: String)
        ensures
            message@ == self@.message(),
    {
        match self {
            AiError::ParseError(detail) => String::from_str("Failed to parse intent: ").concat(detail.as_str()),
            AiError::ServiceUnavailable(detail) => String::from_str("AI service unavailable: ").concat(detail.as_str()),
            AiError::GenerationFailed(detail) => String::from_str("Generation failed: ").concat(detail.as_str()),
        }
    }
}

/// What the operations of the AI integration return.
pub type Result<T> = std::result::Result<T, AiError>;

} // verus!
