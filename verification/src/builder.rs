//! The questionnaire builder: collects a title, the texts of the root
//! block and the entry list, numbers the tree when the entries are
//! handed in, and assembles the finished `Questionaire`.

use vstd::prelude::*;

use crate::entries::Questionaire;
use crate::entries::QuestionaireEntry;
use crate::entries::SubBlock;
use crate::positions::assign_entries;
use crate::positions::entries_positions;
use crate::positions::entries_same_shape;
use crate::positions::entries_slots;
use crate::positions::positions_ok;

verus! {

/// Builds a `Questionaire` step by step.  Handing in the entry list
/// runs the position numbering pass, so the built questionnaire always
/// carries a complete position assignment.
pub struct QuestionaireBuilder {
    title: String,
    id: String,
    start_text: String,
    end_text: Option<String>,
    help_text: Option<String>,
    question_count: usize,
    questions: Option<Vec<QuestionaireEntry>>,
}

impl Questionaire {
    /// A fresh builder with nothing set.
    pub fn builder() -> (r: QuestionaireBuilder)
        ensures
            r.spec_title()@ == Seq::<char>::empty(),
            r.spec_id()@ == Seq::<char>::empty(),
            r.spec_start_text()@ == Seq::<char>::empty(),
            r.spec_end_text() is None,
            r.spec_help_text() is None,
            r.spec_questions() is None,
    {
        QuestionaireBuilder {
            title: String::new(),
            id: String::new(),
            start_text: String::new(),
            end_text: None,
            help_text: None,
            question_count: 0,
            questions: None,
        }
    }
}

impl QuestionaireBuilder {
    /// The title set so far.
    pub closed spec fn spec_title(&self) -> String {
        self.title
    }

    /// The id of the root block set so far.
    pub closed spec fn spec_id(&self) -> String {
        self.id
    }

    /// The start text of the root block set so far.
    pub closed spec fn spec_start_text(&self) -> String {
        self.start_text
    }

    /// The end text of the root block set so far.
    pub closed spec fn spec_end_text(&self) -> Option<String> {
        self.end_text
    }

    /// The help text of the root block set so far.
    pub closed spec fn spec_help_text(&self) -> Option<String> {
        self.help_text
    }

    /// The numbered entry list, once one was handed in.
    pub closed spec fn spec_questions(&self) -> Option<Vec<QuestionaireEntry>> {
        self.questions
    }

    /// The number of positions the numbering pass assigned.
    pub closed spec fn spec_question_count(&self) -> usize {
        self.question_count
    }

    #[verifier::type_invariant]
    spec fn wf(&self) -> bool {
        match self.questions {
            Some(q) => entries_positions(q@) == Seq::new(
                self.question_count as nat,
                |k: int| 1 + k,
            ),
            None => self.question_count == 0,
        }
    }

    /// Sets the id of the root block.
    pub fn id(self, v: &str) -> (r: Self)
        ensures
            r.spec_id()@ == v@,
            r.spec_title() == self.spec_title(),
            r.spec_start_text() == self.spec_start_text(),
            r.spec_end_text() == self.spec_end_text(),
            r.spec_help_text() == self.spec_help_text(),
            r.spec_questions() == self.spec_questions(),
            r.spec_question_count() == self.spec_question_count(),
    {
        proof {
            use_type_invariant(&self);
        }
        Self { id: v.to_owned(), ..self }
    }

    /// Sets the title.
    pub fn title(self, v: &str) -> (r: Self)
        ensures
            r.spec_title()@ == v@,
            r.spec_id() == self.spec_id(),
            r.spec_start_text() == self.spec_start_text(),
            r.spec_end_text() == self.spec_end_text(),
            r.spec_help_text() == self.spec_help_text(),
            r.spec_questions() == self.spec_questions(),
            r.spec_question_count() == self.spec_question_count(),
    {
        proof {
            use_type_invariant(&self);
        }
        Self { title: v.to_owned(), ..self }
    }

    /// Sets the start text of the root block.
    pub fn start_text(self, v: &str) -> (r: Self)
        ensures
            r.spec_start_text()@ == v@,
            r.spec_title() == self.spec_title(),
            r.spec_id() == self.spec_id(),
            r.spec_end_text() == self.spec_end_text(),
            r.spec_help_text() == self.spec_help_text(),
            r.spec_questions() == self.spec_questions(),
            r.spec_question_count() == self.spec_question_count(),
    {
        proof {
            use_type_invariant(&self);
        }
        Self { start_text: v.to_owned(), ..self }
    }

    /// Sets the end text of the root block, making it loopable.
    pub fn end_text(self, v: &str) -> (r: Self)
        ensures
            r.spec_end_text() matches Some(t) && t@ == v@,
            r.spec_title() == self.spec_title(),
            r.spec_id() == self.spec_id(),
            r.spec_start_text() == self.spec_start_text(),
            r.spec_help_text() == self.spec_help_text(),
            r.spec_questions() == self.spec_questions(),
            r.spec_question_count() == self.spec_question_count(),
    {
        proof {
            use_type_invariant(&self);
        }
        Self { end_text: Some(v.to_owned()), ..self }
    }

    /// Sets the help text of the root block.
    pub fn help_text(self, v: &str) -> (r: Self)
        ensures
            r.spec_help_text() matches Some(t) && t@ == v@,
            r.spec_title() == self.spec_title(),
            r.spec_id() == self.spec_id(),
            r.spec_start_text() == self.spec_start_text(),
            r.spec_end_text() == self.spec_end_text(),
            r.spec_questions() == self.spec_questions(),
            r.spec_question_count() == self.spec_question_count(),
    {
        proof {
            use_type_invariant(&self);
        }
        Self { help_text: Some(v.to_owned()), ..self }
    }

    /// Hands in the entry list and numbers it: every question and block
    /// gets its 1-based depth-first position, and the count of assigned
    /// positions is recorded for the progress display.
    pub fn questions(self, q: Vec<QuestionaireEntry>) -> (r: Self)
        requires
            1 + entries_slots(q@) <= usize::MAX,
        ensures
            r.spec_questions() matches Some(aq) && entries_same_shape(aq@, q@),
            r.spec_question_count() == entries_slots(q@),
            r.spec_title() == self.spec_title(),
            r.spec_id() == self.spec_id(),
            r.spec_start_text() == self.spec_start_text(),
            r.spec_end_text() == self.spec_end_text(),
            r.spec_help_text() == self.spec_help_text(),
    {
        proof {
            use_type_invariant(&self);
        }
        let (assigned, next) = assign_entries(q, 1);
        Self { questions: Some(assigned), question_count: next - 1, ..self }
    }

    /// Assembles the questionnaire: the collected texts form the root
    /// block, which itself carries no position, and `pos_count` records
    /// how many positions were assigned.  The built questionnaire always
    /// satisfies `positions_ok`.
    pub fn build(self) -> (r: Questionaire)
        ensures
            r.title == self.spec_title(),
            r.init_block.id == self.spec_id(),
            r.init_block.start_text == self.spec_start_text(),
            r.init_block.end_text == self.spec_end_text(),
            r.init_block.help_text == self.spec_help_text(),
            r.init_block.pos is None,
            r.init_block.loop_over_entries == false,
            r.pos_count == Some(self.spec_question_count()),
            self.spec_questions() matches Some(qs) ==> r.init_block.entries == qs,
            self.spec_questions() is None ==> r.init_block.entries@.len() == 0,
            positions_ok(r),
    {
        proof {
            use_type_invariant(&self);
        }
        let entries = match self.questions {
            Some(qs) => qs,
            None => {
                let v: Vec<QuestionaireEntry> = Vec::new();
                proof {
                    assert(entries_positions(v@) =~= Seq::new(0 as nat, |k: int| 1 + k));
                }
                v
            },
        };
        Questionaire {
            title: self.title,
            pos_count: Some(self.question_count),
            init_block: SubBlock {
                id: self.id,
                pos: None,
                start_text: self.start_text,
                end_text: self.end_text,
                help_text: self.help_text,
                entries,
                loop_over_entries: false,
            },
        }
    }
}

} // verus!
