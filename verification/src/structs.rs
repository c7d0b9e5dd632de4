use vstd::prelude::*;

verus! {

/// The verdict on a learner's answer: a score from the model together with
/// the model's commentary, cleaned of the score delimiters.
#[derive(Debug, Clone, PartialEq)]
pub struct Answer {
    pub score: u8,
    pub explanation: String,
}

/// One learning unit: a title and, once generated, an explanation.
#[derive(Debug, Clone, PartialEq)]
pub struct Topic {
    pub title: String,
    pub explanation: Option<String>,
}

/// A named grouping of learning topics (a roadmap section).
#[derive(Debug, PartialEq)]
pub struct Thematic {
    pub title: String,
    pub topics: Vec<Topic>,
}

} // verus!
