//! The question side of the questionnaire: typed constraint sets for the
//! five kinds of answers, the question and block nodes, and the root
//! aggregate.  The tree is built once and read only during traversal.

use vstd::prelude::*;

use crate::answers::FloatValue;

verus! {

/// Constraints for a free-form string question.
#[derive(Debug, Clone, Default, PartialEq)]
pub struct StringEntry {
    pub default_value: Option<String>,
    pub regexp: Option<String>,
    pub max_length: Option<usize>,
    pub min_length: Option<usize>,
}

/// Constraints for an integer question.
#[derive(Debug, Clone, Default, PartialEq)]
pub struct IntEntry {
    pub default_value: Option<i32>,
    pub max: Option<i32>,
    pub min: Option<i32>,
}

/// Constraints for a floating point question.  The engine stores the
/// values only as bit patterns; comparing an input against these bounds
/// needs floating point arithmetic and is left to the front end.
#[derive(Debug, Clone, Copy, Default, PartialEq, Eq, Structural)]
pub struct FloatEntry {
    pub default_value: Option<FloatValue>,
    pub max: Option<FloatValue>,
    pub min: Option<FloatValue>,
}

/// Constraints for a yes/no question.
#[derive(Debug, Clone, Copy, Default, PartialEq, Eq, Structural)]
pub struct BoolEntry {
    pub default_value: Option<bool>,
}

/// A question answered by choosing one label out of a fixed list, by its
/// zero-based index.
#[derive(Debug, Clone, Default, PartialEq)]
pub struct OptionEntry {
    /// Index into `options` used when the input is empty.
    pub default_value: Option<u32>,
    /// The labels that can be chosen.
    pub options: Vec<String>,
}

/// The kind of value a question expects, with the constraints of that kind.
#[derive(Debug, Clone, PartialEq)]
pub enum EntryType {
    String(StringEntry),
    Int(IntEntry),
    Float(FloatEntry),
    Bool(BoolEntry),
    Option(OptionEntry),
    ProceedQuery(u32),
    InfoTxt,
}

impl Default for EntryType {
    fn default() -> (r: Self)
        ensures
            r == EntryType::String(StringEntry {
                default_value: None,
                regexp: None,
                max_length: None,
                min_length: None,
            }),
    {
        EntryType::String(StringEntry {
            default_value: None,
            regexp: None,
            max_length: None,
            min_length: None,
        })
    }
}

/// A single question of the tree.
#[derive(Debug, Clone, Default)]
pub struct QuestionEntry {
    pub id: String,
    pub pos: usize,
    pub required: bool,
    pub query_text: String,
    pub help_text: Option<String>,
    pub entry_type: EntryType,
}

/// A question asked repeatedly, `min_count` to `max_count` times
/// (`max_count == 0` means unbounded).  All its repetitions share one id
/// and one position; `secondary_query_text`, when set, is used from the
/// second repetition on.
#[derive(Debug, Clone, Default)]
pub struct RepeatedQuestionEntry {
    pub id: String,
    pub pos: usize,
    pub min_count: usize,
    pub max_count: usize,
    pub query_text: String,
    pub secondary_query_text: Option<String>,
    pub help_text: Option<String>,
    pub entry_type: EntryType,
}

/// One node of the question tree.
#[derive(Debug)]
pub enum QuestionaireEntry {
    Block(SubBlock),
    Question(QuestionEntry),
    RepeatedQuestion(RepeatedQuestionEntry),
}

/// A group of questions and nested blocks, guarded by a start prompt and,
/// when `end_text` is set, an end prompt.  A block without `end_text` runs
/// its children exactly once; one with `end_text` and `loop_over_entries`
/// runs them again each time the end prompt is affirmed.
#[derive(Debug, Default)]
pub struct SubBlock {
    pub id: String,
    pub pos: Option<usize>,
    pub start_text: String,
    pub end_text: Option<String>,
    pub help_text: Option<String>,
    pub entries: Vec<QuestionaireEntry>,
    pub loop_over_entries: bool,
}

/// The root aggregate: a title, the total number of assigned positions
/// (for "question N of M" progress display), and the block every session
/// enters first.
#[derive(Debug)]
pub struct Questionaire {
    pub title: String,
    pub pos_count: Option<usize>,
    pub init_block: SubBlock,
}

/// Nesting depth of one tree node: how many block levels it contains.
pub open spec fn entry_height(e: QuestionaireEntry) -> nat
    decreases e,
{
    match e {
        QuestionaireEntry::Block(b) => 1 + entries_height_from(b.entries@, 0),
        QuestionaireEntry::Question(_) => 0,
        QuestionaireEntry::RepeatedQuestion(_) => 0,
    }
}

/// Largest nesting depth among the entries of `s` from index `i` on.
pub open spec fn entries_height_from(s: Seq<QuestionaireEntry>, i: int) -> nat
    decreases s, s.len() - i,
{
    if i < 0 || i >= s.len() {
        0
    } else {
        let h = entry_height(s[i]);
        let rest = entries_height_from(s, i + 1);
        if h > rest {
            h
        } else {
            rest
        }
    }
}

/// The height of every entry is bounded by the height of its list.
pub proof fn lemma_entries_height_from_bound(s: Seq<QuestionaireEntry>, i: int, j: int)
    requires
        0 <= i <= j < s.len(),
    ensures
        entry_height(s[j]) <= entries_height_from(s, i),
    decreases j - i,
{
    if i < j {
        lemma_entries_height_from_bound(s, i + 1, j);
    }
}

} // verus!
