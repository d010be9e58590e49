//! Intent parsing and representation.
//!
//! Converts user input into structured intents that the compositor can act
//! upon.

use crate::ai::AiError;
use crate::text::{lowercase_of, occurs_in, texts_of, whitespace_words};
use vstd::prelude::*;
use vstd::string::StringExecFns;

verus! {

/// What the user wants.
#[derive(Debug, Clone)]
pub enum Intent {
    /// Open an application.
    Launch { app: String },
    /// Search for content.
    Search { query: String },
    /// Arrange nodes in a specific way.
    Arrange { pattern: ArrangePattern },
    /// Focus on a specific node or content.
    Focus { target: String },
    /// Create a new node.
    Create { node_type: String, content: Option<String> },
    /// Connect two nodes.
    Connect { from: String, to: String },
    /// General query for the AI.
    Query { question: String },
}

/// How to arrange nodes.
#[derive(Debug, Clone, Copy, PartialEq, Eq, Structural)]
pub enum ArrangePattern {
    /// Grid layout.
    Grid,
    /// Stack vertically.
    Stack,
    /// Radial around a center node.
    Radial,
    /// Timeline (horizontal sequence).
    Timeline,
    /// Let AI decide.
    Auto,
}

/// The mathematical value of an [`Intent`].
pub ghost enum IntentView {
    Launch { app: Seq<char> },
    Search { query: Seq<char> },
    Arrange { pattern: ArrangePattern },
    Focus { target: Seq<char> },
    Create { node_type: Seq<char>, content: Option<Seq<char>> },
    Connect { from: Seq<char>, to: Seq<char> },
    Query { question: Seq<char> },
}

impl View for Intent {
    type V = IntentView;

    open spec fn view(&self) -> IntentView {
        match *self {
            Intent::Launch { app } => IntentView::Launch { app: app@ },
            Intent::Search { query } => IntentView::Search { query: query@ },
            Intent::Arrange { pattern } => IntentView::Arrange { pattern },
            Intent::Focus { target } => IntentView::Focus { target: target@ },
            Intent::Create { node_type, content } => IntentView::Create {
                node_type: node_type@,
                content: match content {
                    Some(content) => Some(content@),
                    None => None,
                },
            },
            Intent::Connect { from, to } => IntentView::Connect { from: from@, to: to@ },
            Intent::Query { question } => IntentView::Query { question: question@ },
        }
    }
}

/// The words joined by single spaces.
pub open spec fn joined(words: Seq<Seq<char>>) -> Seq<char>
    decreases words.len(),
{
    if words.len() == 0 {
        Seq::empty()
    } else if words.len() == 1 {
        words[0]
    } else {
        joined(words.drop_last()) + " "@ + words.last()
    }
}

/// All words but the first.
pub open spec fn after_first(words: Seq<Seq<char>>) -> Seq<Seq<char>> {
    if words.len() == 0 {
        words
    } else {
        words.drop_first()
    }
}

/// The intent of an input, given its lowercase form and its words.
///
/// An input that begins with `open` or `launch` and a space launches what
/// its further words name; one that begins with `search` or `find` and a
/// space searches for them. An input that mentions `arrange` or `organize`
/// asks for an arrangement. Every other input is a question.
pub open spec fn spec_classify(
    input: Seq<char>,
    lower: Seq<char>,
    words: Seq<Seq<char>>,
) -> IntentView {
    if "open "@.is_prefix_of(lower) || "launch "@.is_prefix_of(lower) {
        IntentView::Launch { app: joined(after_first(words)) }
    } else if "search "@.is_prefix_of(lower) || "find "@.is_prefix_of(lower) {
        IntentView::Search { query: joined(after_first(words)) }
    } else if occurs_in("arrange"@, lower) || occurs_in("organize"@, lower) {
        IntentView::Arrange { pattern: ArrangePattern::Auto }
    } else {
        IntentView::Query { question: input }
    }
}

/// Joins all words but the first by single spaces.
fn join_after_first(words: &Vec<String>) -> (text: String)
    ensures
        text@ == joined(after_first(texts_of(words@))),
{
    let ghost rest = after_first(texts_of(words@));
    let mut text = String::new();
    let mut i: usize = 1;
    if words.len() == 0 {
        return text;
    }
    while i < words.len()
        invariant
            1 <= i <= words.len(),
            rest == texts_of(words@).drop_first(),
            text@ == joined(rest.take(i - 1)),
        decreases words.len() - i,
    {
        proof {
            assert(rest.take(i as int).drop_last() =~= rest.take(i - 1));
            assert(rest.take(i as int).last() == words[i as int]@);
            if i == 1 {
                assert(text@ + words[i as int]@ =~= words[i as int]@);
            }
        }
        if i > 1 {
            text.append(" ");
        }
        text.append(words[i].as_str());
        i += 1;
    }
    proof {
        assert(rest.take(words.len() - 1) =~= rest);
    }
    text
}

/// Turns text into intents by its keywords.
pub struct IntentParser {}

impl IntentParser {
    pub fn new() -> (parser: IntentParser) {
        IntentParser {  }
    }

    /// The intent of `input`, whose lowercase form is `lower` and whose
    /// words are `words`.
    pub fn classify(input: &str, lower: &str, words: &Vec<String>) -> (intent: Intent)
        ensures
            intent@ == spec_classify(input@, lower@, texts_of(words@)),
    {
        if crate::text::starts_with(lower, "open ") || crate::text::starts_with(lower, "launch ") {
            return Intent::Launch { app: join_after_first(words) };
        }
        if crate::text::starts_with(lower, "search ") || crate::text::starts_with(lower, "find ") {
            return Intent::Search { query: join_after_first(words) };
        }
        if crate::text::contains(lower, "arrange") || crate::text::contains(lower, "organize") {
            return Intent::Arrange { pattern: ArrangePattern::Auto };
        }
        // Default to query
        Intent::Query { question: input.to_owned() }
    }

    /// Parse natural language into an intent.
    ///
    /// This is simple keyword matching, and it never fails.
    pub fn parse(&self, input: &str) -> (intent: Result<Intent, AiError>)
        ensures
            intent is Ok,
            intent->Ok_0@ == spec_classify(input@, lowercase_of(input@), whitespace_words(input@)),
    {
        let lower = crate::text::to_lowercase(input);
        let words = crate::text::split_whitespace(input);
        Ok(Self::classify(input, lower.as_str(), &words))
    }
}

impl Default for IntentParser {
    fn default() -> (parser: IntentParser) {
        IntentParser::new()
    }
}

} // verus!
