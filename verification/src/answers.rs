//! The answer side of the questionnaire: the typed value a single
//! question produced, and the tree of answers a whole session produced.

use vstd::prelude::*;

verus! {

/// A floating point answer, carried as the bit pattern of an IEEE-754
/// single precision number.  The engine never computes on such a value;
/// it only stores it and hands it back, so the bits are all it needs.
/// The front end converts between this form and its native one.
#[derive(Debug, Clone, Copy, PartialEq, Eq, Structural)]
pub struct FloatValue {
    pub bits: u32,
}

/// The typed value a single answered question produced.  The inner
/// `Option` distinguishes "question skipped" (`None`) from an actual
/// value: a non-required question answered with empty input yields
/// `None`, and that absence is preserved through the whole session.
#[derive(Debug, PartialEq)]
pub enum QuestionAnswerInput {
    String(Option<String>),
    Int(Option<i32>),
    Float(Option<FloatValue>),
    Bool(Option<bool>),
    Option(Option<String>),
}

impl QuestionAnswerInput {
    /// Whether the answer carries no value, i.e. the question was skipped.
    pub open spec fn spec_is_empty(&self) -> bool {
        match self {
            QuestionAnswerInput::String(v) => v is None,
            QuestionAnswerInput::Int(v) => v is None,
            QuestionAnswerInput::Float(v) => v is None,
            QuestionAnswerInput::Bool(v) => v is None,
            QuestionAnswerInput::Option(v) => v is None,
        }
    }

    /// Whether the answer carries no value, i.e. the question was skipped.
    #[verifier::when_used_as_spec(spec_is_empty)]
    pub fn is_empty(&self) -> (r: bool)
        ensures
            r == self.spec_is_empty(),
    {
        match self {
            QuestionAnswerInput::String(v) => v.is_none(),
            QuestionAnswerInput::Int(v) => v.is_none(),
            QuestionAnswerInput::Float(v) => v.is_none(),
            QuestionAnswerInput::Bool(v) => v.is_none(),
            QuestionAnswerInput::Option(v) => v.is_none(),
        }
    }
}

impl Clone for QuestionAnswerInput {
    fn clone(&self) -> (res: Self)
        ensures
            res == self,
    {
        match self {
            QuestionAnswerInput::String(v) => QuestionAnswerInput::String(
                match v {
                    Some(s) => Some(s.clone()),
                    None => None,
                },
            ),
            QuestionAnswerInput::Int(v) => QuestionAnswerInput::Int(*v),
            QuestionAnswerInput::Float(v) => QuestionAnswerInput::Float(*v),
            QuestionAnswerInput::Bool(v) => QuestionAnswerInput::Bool(*v),
            QuestionAnswerInput::Option(v) => QuestionAnswerInput::Option(
                match v {
                    Some(s) => Some(s.clone()),
                    None => None,
                },
            ),
        }
    }
}

/// One persisted record: the id of the question and the answer it got.
#[derive(Debug, PartialEq)]
pub struct QuestionAnswer {
    pub id: String,
    pub answer: QuestionAnswerInput,
}

impl Clone for QuestionAnswer {
    fn clone(&self) -> (res: Self)
        ensures
            res == self,
    {
        QuestionAnswer { id: self.id.clone(), answer: self.answer.clone() }
    }
}

/// One node of the answer tree, mirroring the shape of the question tree.
#[derive(Debug)]
pub enum AnswerEntry {
    Block(BlockAnswer),
    Question(QuestionAnswerInput),
    RepeatedQuestion(Vec<QuestionAnswerInput>),
}

/// The answers a block collected: one inner list per pass through the
/// block's children.  An empty outer list means the block was declined
/// at its start prompt and never entered.
#[derive(Debug)]
pub struct BlockAnswer {
    pub id: String,
    pub iterations: Vec<Vec<AnswerEntry>>,
}

} // verus!
