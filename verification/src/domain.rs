//! The domain model: the question and its identifier.

use crate::text::parse_unsigned;
use crate::text::unsigned_decimal;
use vstd::prelude::*;

verus! {

/// The text of the error for an empty identifier.
pub const NO_ID_PROVIDED: &'static str = "No id provided";

/// Why a text was refused as an identifier.
#[derive(Clone, Copy, Debug, PartialEq, Eq, Structural)]
pub enum ValidationError {
    /// The text was empty.
    Empty,
}

impl ValidationError {
    /// What the error says to a reader.
    pub fn message(&self) -> (text: &'static str)
        ensures
            text@ == NO_ID_PROVIDED@,
    {
        match self {
            ValidationError::Empty => NO_ID_PROVIDED,
        }
    }
}

/// The mark of an identifier that writes no unsigned integer.
#[derive(Clone, Copy, Debug, PartialEq, Eq, Structural)]
pub struct InvalidId;

/// The identifier of a question: a text that is not empty.
#[derive(Debug, PartialEq, Eq)]
pub struct QuestionId(String);

impl Clone for QuestionId {
    fn clone(&self) -> (copy: QuestionId)
        ensures
            copy@ == self@,
    {
        proof {
            use_type_invariant(self);
        }
        QuestionId(self.0.clone())
    }
}

impl View for QuestionId {
    type V = Seq<char>;

    closed spec fn view(&self) -> Seq<char> {
        self.0@
    }
}

impl QuestionId {
    /// Holds of every identifier: its text is not empty.
    #[verifier::type_invariant]
    pub open spec fn well_formed(&self) -> bool {
        self@.len() > 0
    }

    /// Takes `text` as an identifier, verbatim. Only the empty text is refused.
    pub fn parse(text: &str) -> (parsed: Result<QuestionId, ValidationError>)
        ensures
            text@.len() == 0 ==> parsed == Err::<QuestionId, ValidationError>(
                ValidationError::Empty,
            ),
            text@.len() > 0 ==> parsed is Ok && parsed->Ok_0@ == text@,
    {
        if text.is_empty() {
            return Err(ValidationError::Empty);
        }
        Ok(QuestionId(text.to_owned()))
    }

    /// The identifier's text.
    pub fn as_str(&self) -> (text: &str)
        ensures
            text@ == self@,
            text@.len() > 0,
    {
        proof {
            use_type_invariant(self);
        }
        self.0.as_str()
    }

    /// The 32-bit unsigned integer that the identifier writes in decimal, if
    /// it writes one.
    pub fn number(&self) -> (value: Option<u32>)
        ensures
            value == unsigned_decimal(self@),
    {
        parse_unsigned(self.0.as_str())
    }
}

impl std::str::FromStr for QuestionId {
    type Err = ValidationError;

    /// Takes `text` as an identifier, as [`QuestionId::parse`] does.
    fn from_str(text: &str) -> (parsed: Result<QuestionId, ValidationError>)
        ensures
            text@.len() == 0 ==> parsed == Err::<QuestionId, ValidationError>(
                ValidationError::Empty,
            ),
            text@.len() > 0 ==> parsed is Ok && parsed->Ok_0@ == text@,
    {
        QuestionId::parse(text)
    }
}

/// What contracts say of a [`Question`]: its four attributes as plain
/// sequences.
pub struct QuestionView {
    pub id: Seq<char>,
    pub title: Seq<char>,
    pub content: Seq<char>,
    pub tags: Option<Seq<Seq<char>>>,
}

/// A question: an identifier, a title, a content, and tags in their order or
/// no tags at all.
#[derive(Clone, Debug, PartialEq, Eq)]
pub struct Question {
    id: QuestionId,
    title: String,
    content: String,
    tags: Option<Vec<String>>,
}

impl View for Question {
    type V = QuestionView;

    closed spec fn view(&self) -> QuestionView {
        QuestionView {
            id: self.id@,
            title: self.title@,
            content: self.content@,
            tags: self.tags.deep_view(),
        }
    }
}

impl Question {
    /// Puts the four attributes together, unchanged.
    pub fn new(
        id: QuestionId,
        title: String,
        content: String,
        tags: Option<Vec<String>>,
    ) -> (question: Question)
        ensures
            question@ == (QuestionView {
                id: id@,
                title: title@,
                content: content@,
                tags: tags.deep_view(),
            }),
    {
        Question { id, title, content, tags }
    }

    /// The question's identifier.
    pub fn id(&self) -> (id: &QuestionId)
        ensures
            id@ == self@.id,
            id.well_formed(),
    {
        proof {
            use_type_invariant(&self.id);
        }
        &self.id
    }

    /// The question's title.
    pub fn title(&self) -> (title: &str)
        ensures
            title@ == self@.title,
    {
        self.title.as_str()
    }

    /// The question's content.
    pub fn content(&self) -> (content: &str)
        ensures
            content@ == self@.content,
    {
        self.content.as_str()
    }

    /// The question's tags, in their order.
    pub fn tags(&self) -> (tags: &Option<Vec<String>>)
        ensures
            tags.deep_view() == self@.tags,
    {
        &self.tags
    }
}

} // verus!
