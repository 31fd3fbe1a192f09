//! The view interface the controller drives: one screen per block prompt
//! and one per question, plus fire-and-forget output.  A view is modeled
//! by the two finite sequences of responses it will give, one for
//! proceed prompts and one for question screens; each call consumes the
//! next response of its kind, and a view whose responses are exhausted
//! reports cancellation.  A session is thereby deterministic given the
//! tree and the responses, which is what the controller's contracts and
//! the replay machinery rely on.

use vstd::prelude::*;

use crate::answers::QuestionAnswerInput;
use crate::entries::QuestionEntry;

verus! {

/// What a question screen produced: the session was canceled, or an
/// already validated answer was given.
#[derive(Debug, PartialEq)]
pub enum QuestionScreenResult {
    Canceled,
    Proceeded(QuestionAnswerInput),
}

impl Clone for QuestionScreenResult {
    fn clone(&self) -> (res: Self)
        ensures
            res == self,
    {
        match self {
            QuestionScreenResult::Canceled => QuestionScreenResult::Canceled,
            QuestionScreenResult::Proceeded(a) => QuestionScreenResult::Proceeded(a.clone()),
        }
    }
}

/// What a proceed prompt produced: the session was canceled, or the
/// user decided whether to go on.
#[derive(Debug, Clone, Copy, PartialEq, Eq, Structural)]
pub enum ProceedScreenResult {
    Canceled,
    Proceeded(bool),
}

/// How urgent a fire-and-forget message is.
#[derive(Debug, Clone, Copy, PartialEq, Eq, Structural)]
pub enum MsgLevel {
    Normal,
    Urgent,
    Critical,
}

/// The presentation layer of a questionnaire session.  The controller
/// drives it screen by screen and never looks behind this interface.
pub trait QuestionaireView {
    /// The responses this view will give to proceed prompts, in order.
    /// An implementation outside the verified world that does not say
    /// is modeled as having none.
    open spec fn proceed_script(&self) -> Seq<ProceedScreenResult> {
        Seq::empty()
    }

    /// The responses this view will give to question screens, in order.
    /// An implementation outside the verified world that does not say
    /// is modeled as having none.
    open spec fn question_script(&self) -> Seq<QuestionScreenResult> {
        Seq::empty()
    }

    /// Shows the questionnaire title.  Called once at session start.
    fn print_title(&mut self, title: &str)
        ensures
            final(self).proceed_script() == old(self).proceed_script(),
            final(self).question_script() == old(self).question_script(),
    ;

    /// Shows a fire-and-forget message.
    fn show_msg(&mut self, msg: &str, level: MsgLevel)
        ensures
            final(self).proceed_script() == old(self).proceed_script(),
            final(self).question_script() == old(self).question_script(),
    ;

    /// Shows the start or end prompt of a block and yields the decision:
    /// the next proceed response, or cancellation once the responses are
    /// exhausted.
    fn show_proceed_screen(
        &mut self,
        id: &str,
        text: &str,
        help_text: Option<&str>,
        question_count: usize,
        current: usize,
        preferred: Option<bool>,
    ) -> (r: ProceedScreenResult)
        ensures
            final(self).question_script() == old(self).question_script(),
            old(self).proceed_script().len() > 0 ==> r == old(self).proceed_script()[0]
                && final(self).proceed_script() == old(self).proceed_script().drop_first(),
            old(self).proceed_script().len() == 0 ==> r == ProceedScreenResult::Canceled
                && final(self).proceed_script() == old(self).proceed_script(),
    ;

    /// Shows one question and yields its validated answer: the next
    /// question response, or cancellation once the responses are
    /// exhausted.
    fn show_question_screen(
        &mut self,
        question_entry: &QuestionEntry,
        question_count: usize,
        preferred: Option<QuestionAnswerInput>,
    ) -> (r: QuestionScreenResult)
        ensures
            final(self).proceed_script() == old(self).proceed_script(),
            old(self).question_script().len() > 0 ==> r == old(self).question_script()[0]
                && final(self).question_script() == old(self).question_script().drop_first(),
            old(self).question_script().len() == 0 ==> r == QuestionScreenResult::Canceled
                && final(self).question_script() == old(self).question_script(),
    ;
}

/// A view that plays back fixed response lists: the mock front end for
/// tests and replays, with no terminal behind it.  It records the
/// preferred defaults it was offered, so a caller can check what the
/// replay machinery suggested for each screen.
#[derive(Debug)]
pub struct ScriptedView {
    /// The responses still to be given to proceed prompts.
    pub proceed_responses: Vec<ProceedScreenResult>,
    /// The responses still to be given to question screens.
    pub question_responses: Vec<QuestionScreenResult>,
    /// The preferred decision offered at each proceed prompt, in order.
    pub proceed_preferred: Vec<Option<bool>>,
    /// The preferred answer offered at each question screen, in order.
    pub question_preferred: Vec<Option<QuestionAnswerInput>>,
}

impl ScriptedView {
    /// A view that will give exactly these responses, in order.
    pub fn new(
        proceed_responses: Vec<ProceedScreenResult>,
        question_responses: Vec<QuestionScreenResult>,
    ) -> (r: Self)
        ensures
            r.proceed_script() == proceed_responses@,
            r.question_script() == question_responses@,
            r.proceed_preferred@.len() == 0,
            r.question_preferred@.len() == 0,
    {
        ScriptedView {
            proceed_responses,
            question_responses,
            proceed_preferred: Vec::new(),
            question_preferred: Vec::new(),
        }
    }
}

impl QuestionaireView for ScriptedView {
    closed spec fn proceed_script(&self) -> Seq<ProceedScreenResult> {
        self.proceed_responses@
    }

    closed spec fn question_script(&self) -> Seq<QuestionScreenResult> {
        self.question_responses@
    }

    fn print_title(&mut self, title: &str) {
    }

    fn show_msg(&mut self, msg: &str, level: MsgLevel) {
    }

    fn show_proceed_screen(
        &mut self,
        id: &str,
        text: &str,
        help_text: Option<&str>,
        question_count: usize,
        current: usize,
        preferred: Option<bool>,
    ) -> (r: ProceedScreenResult) {
        self.proceed_preferred.push(preferred);
        if self.proceed_responses.len() > 0 {
            let r = self.proceed_responses.remove(0);
            proof {
                assert(self.proceed_responses@ =~= old(self).proceed_responses@.drop_first());
            }
            r
        } else {
            ProceedScreenResult::Canceled
        }
    }

    fn show_question_screen(
        &mut self,
        question_entry: &QuestionEntry,
        question_count: usize,
        preferred: Option<QuestionAnswerInput>,
    ) -> (r: QuestionScreenResult) {
        self.question_preferred.push(preferred);
        if self.question_responses.len() > 0 {
            let r = self.question_responses.remove(0);
            proof {
                assert(self.question_responses@ =~= old(self).question_responses@.drop_first());
            }
            r
        } else {
            QuestionScreenResult::Canceled
        }
    }
}

} // verus!
