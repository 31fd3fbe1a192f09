//! Builders for the entry model: each constraint set, question kind and
//! block can be put together field by field, starting from its default,
//! the way questionnaire definitions read best.

use vstd::prelude::*;

use crate::entries::BoolEntry;
use crate::entries::EntryType;
use crate::entries::FloatEntry;
use crate::entries::IntEntry;
use crate::entries::OptionEntry;
use crate::entries::QuestionEntry;
use crate::entries::QuestionaireEntry;
use crate::entries::RepeatedQuestionEntry;
use crate::entries::StringEntry;
use crate::entries::SubBlock;
use crate::answers::FloatValue;

verus! {

/// Builds a `StringEntry` field by field.
pub struct StringEntryBuilder {
    pub default_value: Option<String>,
    pub regexp: Option<String>,
    pub max_length: Option<usize>,
    pub min_length: Option<usize>,
}

impl StringEntry {
    /// A fresh builder with no constraints set.
    pub fn builder() -> (r: StringEntryBuilder)
        ensures
            r == (StringEntryBuilder {
                default_value: None,
                regexp: None,
                max_length: None,
                min_length: None,
            }),
    {
        StringEntryBuilder { default_value: None, regexp: None, max_length: None, min_length: None }
    }
}

impl StringEntryBuilder {
    /// Sets the value used for empty input.
    pub fn default_value(self, v: &str) -> (r: Self)
        ensures
            r.default_value matches Some(s) && s@ == v@,
            r.regexp == self.regexp,
            r.max_length == self.max_length,
            r.min_length == self.min_length,
    {
        Self { default_value: Some(v.to_owned()), ..self }
    }

    /// Sets the pattern the input must match.
    pub fn regexp(self, v: &str) -> (r: Self)
        ensures
            r.regexp matches Some(s) && s@ == v@,
            r.default_value == self.default_value,
            r.max_length == self.max_length,
            r.min_length == self.min_length,
    {
        Self { regexp: Some(v.to_owned()), ..self }
    }

    /// Sets the largest accepted length.
    pub fn max_length(self, v: usize) -> (r: Self)
        ensures
            r == (Self { max_length: Some(v), ..self }),
    {
        Self { max_length: Some(v), ..self }
    }

    /// Sets the smallest accepted length.
    pub fn min_length(self, v: usize) -> (r: Self)
        ensures
            r == (Self { min_length: Some(v), ..self }),
    {
        Self { min_length: Some(v), ..self }
    }

    /// The finished constraint set.
    pub fn build(self) -> (r: StringEntry)
        ensures
            r == (StringEntry {
                default_value: self.default_value,
                regexp: self.regexp,
                max_length: self.max_length,
                min_length: self.min_length,
            }),
    {
        StringEntry {
            default_value: self.default_value,
            regexp: self.regexp,
            max_length: self.max_length,
            min_length: self.min_length,
        }
    }
}

/// Builds an `IntEntry` field by field.
pub struct IntEntryBuilder {
    pub default_value: Option<i32>,
    pub max: Option<i32>,
    pub min: Option<i32>,
}

impl IntEntry {
    /// A fresh builder with no constraints set.
    pub fn builder() -> (r: IntEntryBuilder)
        ensures
            r == (IntEntryBuilder { default_value: None, max: None, min: None }),
    {
        IntEntryBuilder { default_value: None, max: None, min: None }
    }
}

impl IntEntryBuilder {
    /// Sets the value used for empty input.
    pub fn default_value(self, v: i32) -> (r: Self)
        ensures
            r == (Self { default_value: Some(v), ..self }),
    {
        Self { default_value: Some(v), ..self }
    }

    /// Sets the largest accepted value.
    pub fn max(self, v: i32) -> (r: Self)
        ensures
            r == (Self { max: Some(v), ..self }),
    {
        Self { max: Some(v), ..self }
    }

    /// Sets the smallest accepted value.
    pub fn min(self, v: i32) -> (r: Self)
        ensures
            r == (Self { min: Some(v), ..self }),
    {
        Self { min: Some(v), ..self }
    }

    /// The finished constraint set.
    pub fn build(self) -> (r: IntEntry)
        ensures
            r == (IntEntry { default_value: self.default_value, max: self.max, min: self.min }),
    {
        IntEntry { default_value: self.default_value, max: self.max, min: self.min }
    }
}

/// Builds a `FloatEntry` field by field.
pub struct FloatEntryBuilder {
    pub default_value: Option<FloatValue>,
    pub max: Option<FloatValue>,
    pub min: Option<FloatValue>,
}

impl FloatEntry {
    /// A fresh builder with no constraints set.
    pub fn builder() -> (r: FloatEntryBuilder)
        ensures
            r == (FloatEntryBuilder { default_value: None, max: None, min: None }),
    {
        FloatEntryBuilder { default_value: None, max: None, min: None }
    }
}

impl FloatEntryBuilder {
    /// Sets the value used for empty input.
    pub fn default_value(self, v: FloatValue) -> (r: Self)
        ensures
            r == (Self { default_value: Some(v), ..self }),
    {
        Self { default_value: Some(v), ..self }
    }

    /// Sets the largest accepted value.
    pub fn max(self, v: FloatValue) -> (r: Self)
        ensures
            r == (Self { max: Some(v), ..self }),
    {
        Self { max: Some(v), ..self }
    }

    /// Sets the smallest accepted value.
    pub fn min(self, v: FloatValue) -> (r: Self)
        ensures
            r == (Self { min: Some(v), ..self }),
    {
        Self { min: Some(v), ..self }
    }

    /// The finished constraint set.
    pub fn build(self) -> (r: FloatEntry)
        ensures
            r == (FloatEntry { default_value: self.default_value, max: self.max, min: self.min }),
    {
        FloatEntry { default_value: self.default_value, max: self.max, min: self.min }
    }
}

/// Builds a `BoolEntry` field by field.
pub struct BoolEntryBuilder {
    pub default_value: Option<bool>,
}

impl BoolEntry {
    /// A fresh builder with no default set.
    pub fn builder() -> (r: BoolEntryBuilder)
        ensures
            r == (BoolEntryBuilder { default_value: None }),
    {
        BoolEntryBuilder { default_value: None }
    }
}

impl BoolEntryBuilder {
    /// Sets the value used for empty input.
    pub fn default_value(self, v: bool) -> (r: Self)
        ensures
            r == (Self { default_value: Some(v) }),
    {
        Self { default_value: Some(v) }
    }

    /// The finished constraint set.
    pub fn build(self) -> (r: BoolEntry)
        ensures
            r == (BoolEntry { default_value: self.default_value }),
    {
        BoolEntry { default_value: self.default_value }
    }
}

/// Builds an `OptionEntry` field by field.
pub struct OptionEntryBuilder {
    pub default_value: Option<u32>,
    pub options: Vec<String>,
}

impl OptionEntry {
    /// A fresh builder with no options set.
    pub fn builder() -> (r: OptionEntryBuilder)
        ensures
            r.default_value is None,
            r.options@.len() == 0,
    {
        OptionEntryBuilder { default_value: None, options: Vec::new() }
    }
}

impl OptionEntryBuilder {
    /// Sets the index used for empty input.
    pub fn default_value(self, v: u32) -> (r: Self)
        ensures
            r == (Self { default_value: Some(v), ..self }),
    {
        Self { default_value: Some(v), ..self }
    }

    /// Sets the labels that can be chosen.
    pub fn options(self, v: Vec<String>) -> (r: Self)
        ensures
            r == (Self { options: v, ..self }),
    {
        Self { options: v, ..self }
    }

    /// The finished constraint set.
    pub fn build(self) -> (r: OptionEntry)
        ensures
            r == (OptionEntry { default_value: self.default_value, options: self.options }),
    {
        OptionEntry { default_value: self.default_value, options: self.options }
    }
}

/// Builds a `QuestionEntry` field by field.
pub struct QuestionEntryBuilder {
    pub id: String,
    pub pos: usize,
    pub required: bool,
    pub query_text: String,
    pub help_text: Option<String>,
    pub entry_type: EntryType,
}

impl QuestionEntry {
    /// A fresh builder: no texts, not required, expecting a plain
    /// string.
    pub fn builder() -> (r: QuestionEntryBuilder)
        ensures
            r.id@ == Seq::<char>::empty(),
            r.pos == 0,
            r.required == false,
            r.query_text@ == Seq::<char>::empty(),
            r.help_text is None,
            r.entry_type == EntryType::String(StringEntry {
                default_value: None,
                regexp: None,
                max_length: None,
                min_length: None,
            }),
    {
        QuestionEntryBuilder {
            id: String::new(),
            pos: 0,
            required: false,
            query_text: String::new(),
            help_text: None,
            entry_type: EntryType::String(StringEntry {
                default_value: None,
                regexp: None,
                max_length: None,
                min_length: None,
            }),
        }
    }
}

impl QuestionEntryBuilder {
    /// Sets the question's id.
    pub fn id(self, v: &str) -> (r: Self)
        ensures
            r.id@ == v@,
            r.pos == self.pos,
            r.required == self.required,
            r.query_text == self.query_text,
            r.help_text == self.help_text,
            r.entry_type == self.entry_type,
    {
        Self { id: v.to_owned(), ..self }
    }

    /// Sets the question's position.
    pub fn pos(self, v: usize) -> (r: Self)
        ensures
            r == (Self { pos: v, ..self }),
    {
        Self { pos: v, ..self }
    }

    /// Sets whether an answer is required.
    pub fn required(self, v: bool) -> (r: Self)
        ensures
            r == (Self { required: v, ..self }),
    {
        Self { required: v, ..self }
    }

    /// Sets the question text.
    pub fn query_text(self, v: &str) -> (r: Self)
        ensures
            r.query_text@ == v@,
            r.id == self.id,
            r.pos == self.pos,
            r.required == self.required,
            r.help_text == self.help_text,
            r.entry_type == self.entry_type,
    {
        Self { query_text: v.to_owned(), ..self }
    }

    /// Sets the help text.
    pub fn help_text(self, v: &str) -> (r: Self)
        ensures
            r.help_text matches Some(s) && s@ == v@,
            r.id == self.id,
            r.pos == self.pos,
            r.required == self.required,
            r.query_text == self.query_text,
            r.entry_type == self.entry_type,
    {
        Self { help_text: Some(v.to_owned()), ..self }
    }

    /// Sets the kind of value the question expects.
    pub fn entry_type(self, v: EntryType) -> (r: Self)
        ensures
            r == (Self { entry_type: v, ..self }),
    {
        Self { entry_type: v, ..self }
    }

    /// The finished question.
    pub fn build(self) -> (r: QuestionEntry)
        ensures
            r == (QuestionEntry {
                id: self.id,
                pos: self.pos,
                required: self.required,
                query_text: self.query_text,
                help_text: self.help_text,
                entry_type: self.entry_type,
            }),
    {
        QuestionEntry {
            id: self.id,
            pos: self.pos,
            required: self.required,
            query_text: self.query_text,
            help_text: self.help_text,
            entry_type: self.entry_type,
        }
    }
}

/// Builds a `RepeatedQuestionEntry` field by field.
pub struct RepeatedQuestionEntryBuilder {
    pub id: String,
    pub pos: usize,
    pub min_count: usize,
    pub max_count: usize,
    pub query_text: String,
    pub secondary_query_text: Option<String>,
    pub help_text: Option<String>,
    pub entry_type: EntryType,
}

impl RepeatedQuestionEntry {
    /// A fresh builder: no texts, no counts, expecting a plain string.
    pub fn builder() -> (r: RepeatedQuestionEntryBuilder)
        ensures
            r.id@ == Seq::<char>::empty(),
            r.pos == 0,
            r.min_count == 0,
            r.max_count == 0,
            r.query_text@ == Seq::<char>::empty(),
            r.secondary_query_text is None,
            r.help_text is None,
            r.entry_type == EntryType::String(StringEntry {
                default_value: None,
                regexp: None,
                max_length: None,
                min_length: None,
            }),
    {
        RepeatedQuestionEntryBuilder {
            id: String::new(),
            pos: 0,
            min_count: 0,
            max_count: 0,
            query_text: String::new(),
            secondary_query_text: None,
            help_text: None,
            entry_type: EntryType::String(StringEntry {
                default_value: None,
                regexp: None,
                max_length: None,
                min_length: None,
            }),
        }
    }
}

impl RepeatedQuestionEntryBuilder {
    /// Sets the question's id, shared by all repetitions.
    pub fn id(self, v: &str) -> (r: Self)
        ensures
            r.id@ == v@,
            r.pos == self.pos,
            r.min_count == self.min_count,
            r.max_count == self.max_count,
            r.query_text == self.query_text,
            r.secondary_query_text == self.secondary_query_text,
            r.help_text == self.help_text,
            r.entry_type == self.entry_type,
    {
        Self { id: v.to_owned(), ..self }
    }

    /// Sets the question's position.
    pub fn pos(self, v: usize) -> (r: Self)
        ensures
            r == (Self { pos: v, ..self }),
    {
        Self { pos: v, ..self }
    }

    /// Sets the smallest accepted number of answers.
    pub fn min_count(self, v: usize) -> (r: Self)
        ensures
            r == (Self { min_count: v, ..self }),
    {
        Self { min_count: v, ..self }
    }

    /// Sets the largest accepted number of answers; zero is unbounded.
    pub fn max_count(self, v: usize) -> (r: Self)
        ensures
            r == (Self { max_count: v, ..self }),
    {
        Self { max_count: v, ..self }
    }

    /// Sets the text of the first repetition.
    pub fn query_text(self, v: &str) -> (r: Self)
        ensures
            r.query_text@ == v@,
            r.id == self.id,
            r.pos == self.pos,
            r.min_count == self.min_count,
            r.max_count == self.max_count,
            r.secondary_query_text == self.secondary_query_text,
            r.help_text == self.help_text,
            r.entry_type == self.entry_type,
    {
        Self { query_text: v.to_owned(), ..self }
    }

    /// Sets the text of the later repetitions.
    pub fn secondary_query_text(self, v: &str) -> (r: Self)
        ensures
            r.secondary_query_text matches Some(s) && s@ == v@,
            r.id == self.id,
            r.pos == self.pos,
            r.min_count == self.min_count,
            r.max_count == self.max_count,
            r.query_text == self.query_text,
            r.help_text == self.help_text,
            r.entry_type == self.entry_type,
    {
        Self { secondary_query_text: Some(v.to_owned()), ..self }
    }

    /// Sets the help text.
    pub fn help_text(self, v: &str) -> (r: Self)
        ensures
            r.help_text matches Some(s) && s@ == v@,
            r.id == self.id,
            r.pos == self.pos,
            r.min_count == self.min_count,
            r.max_count == self.max_count,
            r.query_text == self.query_text,
            r.secondary_query_text == self.secondary_query_text,
            r.entry_type == self.entry_type,
    {
        Self { help_text: Some(v.to_owned()), ..self }
    }

    /// Sets the kind of value the question expects.
    pub fn entry_type(self, v: EntryType) -> (r: Self)
        ensures
            r == (Self { entry_type: v, ..self }),
    {
        Self { entry_type: v, ..self }
    }

    /// The finished repeated question.
    pub fn build(self) -> (r: RepeatedQuestionEntry)
        ensures
            r == (RepeatedQuestionEntry {
                id: self.id,
                pos: self.pos,
                min_count: self.min_count,
                max_count: self.max_count,
                query_text: self.query_text,
                secondary_query_text: self.secondary_query_text,
                help_text: self.help_text,
                entry_type: self.entry_type,
            }),
    {
        RepeatedQuestionEntry {
            id: self.id,
            pos: self.pos,
            min_count: self.min_count,
            max_count: self.max_count,
            query_text: self.query_text,
            secondary_query_text: self.secondary_query_text,
            help_text: self.help_text,
            entry_type: self.entry_type,
        }
    }
}

/// Builds a `SubBlock` field by field.
pub struct SubBlockBuilder {
    pub id: String,
    pub pos: Option<usize>,
    pub start_text: String,
    pub end_text: Option<String>,
    pub help_text: Option<String>,
    pub entries: Vec<QuestionaireEntry>,
    pub loop_over_entries: bool,
}

impl SubBlock {
    /// A fresh builder: no texts, no children, entered at most once.
    pub fn builder() -> (r: SubBlockBuilder)
        ensures
            r.id@ == Seq::<char>::empty(),
            r.pos is None,
            r.start_text@ == Seq::<char>::empty(),
            r.end_text is None,
            r.help_text is None,
            r.entries@.len() == 0,
            r.loop_over_entries == false,
    {
        SubBlockBuilder {
            id: String::new(),
            pos: None,
            start_text: String::new(),
            end_text: None,
            help_text: None,
            entries: Vec::new(),
            loop_over_entries: false,
        }
    }
}

impl SubBlockBuilder {
    /// Sets the block's id.
    pub fn id(self, v: &str) -> (r: Self)
        ensures
            r.id@ == v@,
            r.pos == self.pos,
            r.start_text == self.start_text,
            r.end_text == self.end_text,
            r.help_text == self.help_text,
            r.entries == self.entries,
            r.loop_over_entries == self.loop_over_entries,
    {
        Self { id: v.to_owned(), ..self }
    }

    /// Sets the block's position.
    pub fn pos(self, v: usize) -> (r: Self)
        ensures
            r == (Self { pos: Some(v), ..self }),
    {
        Self { pos: Some(v), ..self }
    }

    /// Sets the text of the start prompt.
    pub fn start_text(self, v: &str) -> (r: Self)
        ensures
            r.start_text@ == v@,
            r.id == self.id,
            r.pos == self.pos,
            r.end_text == self.end_text,
            r.help_text == self.help_text,
            r.entries == self.entries,
            r.loop_over_entries == self.loop_over_entries,
    {
        Self { start_text: v.to_owned(), ..self }
    }

    /// Sets the text of the end prompt, making the block loopable.
    pub fn end_text(self, v: &str) -> (r: Self)
        ensures
            r.end_text matches Some(s) && s@ == v@,
            r.id == self.id,
            r.pos == self.pos,
            r.start_text == self.start_text,
            r.help_text == self.help_text,
            r.entries == self.entries,
            r.loop_over_entries == self.loop_over_entries,
    {
        Self { end_text: Some(v.to_owned()), ..self }
    }

    /// Sets the help text.
    pub fn help_text(self, v: &str) -> (r: Self)
        ensures
            r.help_text matches Some(s) && s@ == v@,
            r.id == self.id,
            r.pos == self.pos,
            r.start_text == self.start_text,
            r.end_text == self.end_text,
            r.entries == self.entries,
            r.loop_over_entries == self.loop_over_entries,
    {
        Self { help_text: Some(v.to_owned()), ..self }
    }

    /// Sets the block's children.
    pub fn entries(self, v: Vec<QuestionaireEntry>) -> (r: Self)
        ensures
            r == (Self { entries: v, ..self }),
    {
        Self { entries: v, ..self }
    }

    /// Sets whether an affirmed end prompt runs the children again.
    pub fn loop_over_entries(self, v: bool) -> (r: Self)
        ensures
            r == (Self { loop_over_entries: v, ..self }),
    {
        Self { loop_over_entries: v, ..self }
    }

    /// The finished block.
    pub fn build(self) -> (r: SubBlock)
        ensures
            r == (SubBlock {
                id: self.id,
                pos: self.pos,
                start_text: self.start_text,
                end_text: self.end_text,
                help_text: self.help_text,
                entries: self.entries,
                loop_over_entries: self.loop_over_entries,
            }),
    {
        SubBlock {
            id: self.id,
            pos: self.pos,
            start_text: self.start_text,
            end_text: self.end_text,
            help_text: self.help_text,
            entries: self.entries,
            loop_over_entries: self.loop_over_entries,
        }
    }
}

} // verus!
