//! The traversal controller: walks the question tree depth-first,
//! drives the view one screen at a time, hands every confirmed answer
//! to the persistence layer and gathers the answer tree.  Blocks are
//! entered through their start prompt, looped through their end prompt,
//! and cancellation propagates out of the whole run.  Before each
//! prompt the replay resolver is asked whether an earlier session
//! already answered it, so a resumed session can be fast-forwarded.

use vstd::prelude::*;

use crate::answers::AnswerEntry;
use crate::answers::BlockAnswer;
use crate::answers::QuestionAnswer;
use crate::answers::QuestionAnswerInput;
use crate::entries::QuestionEntry;
use crate::entries::Questionaire;
use crate::entries::QuestionaireEntry;
use crate::entries::RepeatedQuestionEntry;
use crate::entries::SubBlock;
use crate::entries::entries_height_from;
use crate::entries::lemma_entries_height_from_bound;
use crate::persistence::PersistenceError;
use crate::persistence::QuestionairePersistence;
use crate::view::MsgLevel;
use crate::view::ProceedScreenResult;
use crate::view::QuestionScreenResult;
use crate::view::QuestionaireView;

verus! {

/// Overall outcome of a session: canceled by the user, or finished with
/// the root block's answers.
#[derive(Debug)]
pub enum QuestionaireResult {
    Canceled,
    Finished(BlockAnswer),
}

/// Outcome of one flow inside a session: canceled, or finished with the
/// answers this flow gathered.
#[derive(Debug)]
pub enum ControllerResult {
    Canceled,
    Finished(AnswerEntry),
}

/// How the replay data relates to a block: there is more data inside
/// the block, the data moved on to some other node, or there is no data
/// left at all.
#[derive(Debug, Clone, Copy, PartialEq, Eq, Structural)]
pub enum PreferredBlockAnswer {
    NoMoreAnswers,
    NextHasWrongId,
    Exist,
}

/// Whether one answer node has the shape the tree node asks for: a
/// question gets a question answer, a repeated question a list, and a
/// block a block answer under the block's id.
pub open spec fn answer_kind_matches(a: AnswerEntry, e: QuestionaireEntry) -> bool {
    match e {
        QuestionaireEntry::Question(_) => a is Question,
        QuestionaireEntry::RepeatedQuestion(_) => a is RepeatedQuestion,
        QuestionaireEntry::Block(b) => a matches AnswerEntry::Block(ba) && ba.id@ == b.id@,
    }
}

/// Whether one pass through a block produced one answer per child, in
/// the children's order and of their shapes.
pub open spec fn iteration_matches(ans: Seq<AnswerEntry>, entries: Seq<QuestionaireEntry>) -> bool {
    ans.len() == entries.len() && (forall|j: int|
        0 <= j < ans.len() ==> answer_kind_matches(#[trigger] ans[j], entries[j]))
}

/// Whether a block answer is shaped like its block: every recorded pass
/// produced one answer per child, in order and of the right shapes.
pub open spec fn block_answer_matches(ba: BlockAnswer, block: SubBlock) -> bool {
    forall|k: int|
        0 <= k < ba.iterations@.len() ==> iteration_matches(
            #[trigger] ba.iterations@[k]@,
            block.entries@,
        )
}

/// Whether a question response carries an answer with no value in it.
pub open spec fn empty_answer_response(x: QuestionScreenResult) -> bool {
    x matches QuestionScreenResult::Proceeded(a) && a.spec_is_empty()
}

/// Whether every entry of `s` is a plain question.
pub open spec fn all_plain_questions(s: Seq<QuestionaireEntry>) -> bool {
    forall|j: int| 0 <= j < s.len() ==> s[j] is Question
}

/// Whether the first `n` responses all carry an answer.
pub open spec fn all_proceeded(responses: Seq<QuestionScreenResult>, n: int) -> bool {
    forall|j: int| 0 <= j < n ==> responses[j] is Proceeded
}

/// The answer list made from the first `n` question responses, in
/// order.
pub open spec fn question_answers_of(responses: Seq<QuestionScreenResult>, n: int) -> Seq<
    AnswerEntry,
> {
    Seq::new(n as nat, |j: int| AnswerEntry::Question(responses[j]->Proceeded_0))
}

/// The answer values carried by the first `m` question responses.
pub open spec fn repeated_answers_of(responses: Seq<QuestionScreenResult>, m: int) -> Seq<
    QuestionAnswerInput,
> {
    Seq::new(m as nat, |j: int| responses[j]->Proceeded_0)
}

/// Whether the question responses answer a repeated question `m` times
/// and then stop: the first `m` responses carry a value, the next one
/// carries none.
pub open spec fn stops_after(responses: Seq<QuestionScreenResult>, m: int) -> bool {
    &&& 0 <= m < responses.len()
    &&& all_proceeded(responses, m + 1)
    &&& (forall|j: int| 0 <= j < m ==> !empty_answer_response(#[trigger] responses[j]))
    &&& empty_answer_response(responses[m])
}

/// The records a run of plain questions appends to a keeping log: one
/// per entry, under the entry's id, carrying the response's answer.
pub open spec fn question_records_of(
    entries: Seq<QuestionaireEntry>,
    responses: Seq<QuestionScreenResult>,
    n: int,
) -> Seq<QuestionAnswer> {
    Seq::new(
        n as nat,
        |j: int|
            QuestionAnswer { id: entries[j]->Question_0.id, answer: responses[j]->Proceeded_0 },
    )
}

/// The records a repeated question appends to a keeping log: one per
/// accepted answer, all under the question's shared id.
pub open spec fn repeated_records_of(
    id: String,
    responses: Seq<QuestionScreenResult>,
    m: int,
) -> Seq<QuestionAnswer> {
    Seq::new(m as nat, |j: int| QuestionAnswer { id: id, answer: responses[j]->Proceeded_0 })
}

/// The record the controller appends before the root block's end
/// prompt: the marker that the questionnaire reached its end.
pub open spec fn finish_marker_record(r: QuestionAnswer) -> bool {
    &&& r.id@ == "00000000"@
    &&& (r.answer matches QuestionAnswerInput::String(Some(s)) && s@ == "done"@)
}

/// Whether every entry of `s` is a nested block.
pub open spec fn all_nested_blocks(s: Seq<QuestionaireEntry>) -> bool {
    forall|j: int| 0 <= j < s.len() ==> s[j] is Block
}

/// Whether the first `n` proceed responses all decline.
pub open spec fn all_declined(responses: Seq<ProceedScreenResult>, n: int) -> bool {
    forall|j: int| 0 <= j < n ==> responses[j] == ProceedScreenResult::Proceeded(false)
}

/// Whether `a` is the answer of the nested block `e` entered zero
/// times: the block's id over an empty list of passes.
pub open spec fn declined_block_answer(a: AnswerEntry, e: QuestionaireEntry) -> bool {
    a matches AnswerEntry::Block(cb) && cb.id == e->Block_0.id && cb.iterations@.len() == 0
}

/// The end-prompt responses under which an entered block runs its
/// children exactly once and finishes with what it gathered: the end
/// prompt is canceled (keep the answers, stop asking), declined by a
/// nested block, or affirmed for a block that does not loop.
pub open spec fn one_round_end(block: SubBlock, first_end: ProceedScreenResult, init: bool) -> bool {
    ||| first_end == ProceedScreenResult::Canceled
    ||| (first_end == ProceedScreenResult::Proceeded(false) && !init)
    ||| (first_end == ProceedScreenResult::Proceeded(true) && !block.loop_over_entries)
}

/// How a keeping log grows over one completed pass of a block of plain
/// questions: the children's records in order; for the root block also
/// the end marker, appended before its end prompt is shown.
pub open spec fn one_pass_log(
    old_log: Seq<QuestionAnswer>,
    new_log: Seq<QuestionAnswer>,
    entries: Seq<QuestionaireEntry>,
    responses: Seq<QuestionScreenResult>,
    init: bool,
) -> bool {
    if init {
        &&& new_log.len() == old_log.len() + entries.len() + 1
        &&& new_log.subrange(0, old_log.len() + entries.len() as int) == old_log
            + question_records_of(entries, responses, entries.len() as int)
        &&& finish_marker_record(new_log[old_log.len() + entries.len() as int])
    } else {
        new_log == old_log + question_records_of(entries, responses, entries.len() as int)
    }
}

/// The inputs under which an entered loopable block of plain questions
/// runs its children exactly twice: its end prompt is affirmed once and
/// then declined, and the question responses carry answers throughout.
pub open spec fn two_round_block(
    block: SubBlock,
    proceeds: Seq<ProceedScreenResult>,
    questions: Seq<QuestionScreenResult>,
) -> bool {
    &&& block.end_text is Some
    &&& block.loop_over_entries
    &&& all_plain_questions(block.entries@)
    &&& questions.len() >= 2 * block.entries@.len()
    &&& all_proceeded(questions, 2 * block.entries@.len() as int)
    &&& proceeds.len() >= 2
    &&& proceeds[0] == ProceedScreenResult::Proceeded(true)
    &&& proceeds[1] == ProceedScreenResult::Proceeded(false)
}

/// Character-wise string comparison.
fn str_eq(a: &str, b: &str) -> (r: bool)
    ensures
        r == (a@ == b@),
{
    let n = a.unicode_len();
    let m = b.unicode_len();
    if n != m {
        return false;
    }
    let mut i: usize = 0;
    while i < n
        invariant
            i <= n,
            n == a@.len(),
            n == b@.len(),
            forall|j: int| 0 <= j < i ==> a@[j] == b@[j],
        decreases n - i,
    {
        if a.get_char(i) != b.get_char(i) {
            return false;
        }
        i = i + 1;
    }
    proof {
        assert(a@ =~= b@);
    }
    true
}

/// Whether `next_id` names a node inside the block `block_id`: it goes
/// on after the block's id with a separator, the way nested ids are
/// formed.
pub open spec fn block_prefix_matches(next_id: Seq<char>, block_id: Seq<char>) -> bool {
    &&& next_id.len() > block_id.len()
    &&& next_id.subrange(0, block_id.len() as int) == block_id
    &&& next_id[block_id.len() as int] == '_'
}

/// Tests whether `next_id` lies inside the block `block_id`.
fn id_prefix_matches(next_id: &str, block_id: &str) -> (r: bool)
    ensures
        r == block_prefix_matches(next_id@, block_id@),
{
    let n = next_id.unicode_len();
    let m = block_id.unicode_len();
    if n <= m {
        return false;
    }
    let mut i: usize = 0;
    while i < m
        invariant
            i <= m,
            m == block_id@.len(),
            n == next_id@.len(),
            n > m,
            forall|j: int| 0 <= j < i ==> next_id@[j] == block_id@[j],
        decreases m - i,
    {
        if next_id.get_char(i) != block_id.get_char(i) {
            proof {
                assert(next_id@.subrange(0, m as int)[i as int] == next_id@[i as int]);
            }
            return false;
        }
        i = i + 1;
    }
    proof {
        assert(next_id@.subrange(0, m as int) =~= block_id@);
    }
    next_id.get_char(m) == '_'
}

/// Classifies the replay data with respect to the block `id`: replay
/// records for nodes inside the block mean the block was entered in the
/// earlier session; records for other nodes mean it was left behind.
/// The cursor is never moved.
fn has_preferred_block_answer<P: QuestionairePersistence>(id: &str, persistence: &mut P) -> (r:
    PreferredBlockAnswer)
    ensures
        final(persistence).replay() == old(persistence).replay(),
        final(persistence).log() == old(persistence).log(),
        final(persistence).keeps() == old(persistence).keeps(),
        final(persistence).always_accepts() == old(persistence).always_accepts(),
        old(persistence).replay().len() == 0 ==> r == PreferredBlockAnswer::NoMoreAnswers,
        old(persistence).replay().len() > 0 && block_prefix_matches(
            old(persistence).replay()[0].id@,
            id@,
        ) ==> r == PreferredBlockAnswer::Exist,
        old(persistence).replay().len() > 0 && !block_prefix_matches(
            old(persistence).replay()[0].id@,
            id@,
        ) ==> r == PreferredBlockAnswer::NextHasWrongId,
{
    match persistence.next_answer_id() {
        Some(i) => {
            if id_prefix_matches(i.as_str(), id) {
                PreferredBlockAnswer::Exist
            } else {
                PreferredBlockAnswer::NextHasWrongId
            }
        },
        None => PreferredBlockAnswer::NoMoreAnswers,
    }
}

/// The replay resolver: decides whether an earlier session's answer is
/// offered as the default for the node `id`.  When the next replay
/// record is for this very node it is consumed and its answer returned;
/// when the replay data has moved elsewhere a neutral empty marker is
/// returned and the cursor stays where it is, so records for later
/// nodes are not lost; when no data is left there is no preference.
pub fn get_preferred<P: QuestionairePersistence>(id: &str, persistence: &mut P) -> (r: Option<
    QuestionAnswerInput,
>)
    ensures
        final(persistence).log() == old(persistence).log(),
        final(persistence).keeps() == old(persistence).keeps(),
        final(persistence).always_accepts() == old(persistence).always_accepts(),
        old(persistence).replay().len() == 0 ==> r is None && final(persistence).replay() == old(persistence).replay(),
        old(persistence).replay().len() > 0 && old(persistence).replay()[0].id@ == id@ ==> r
            == Some(old(persistence).replay()[0].answer) && final(persistence).replay() == old(persistence).replay().drop_first(),
        old(persistence).replay().len() > 0 && old(persistence).replay()[0].id@ != id@ ==> r
            == Some(QuestionAnswerInput::String(None)) && final(persistence).replay() == old(persistence).replay(),
{
    match persistence.next_answer_id() {
        Some(i) => {
            if str_eq(i.as_str(), id) {
                match persistence.next_answer() {
                    Some(a) => Some(a.answer),
                    None => None,
                }
            } else {
                Some(QuestionAnswerInput::String(None))
            }
        },
        None => None,
    }
}

/// The repeated-question flow: asks the same question again and again,
/// collecting the non-empty answers, until the user gives an empty
/// answer with the minimum satisfied, the maximum count is reached, or
/// the session is canceled.  An empty answer while fewer than
/// `min_count` repetitions were made is refused with a message and the
/// same repetition is asked again; so with a minimum of one and room to
/// repeat, a first empty answer never ends the flow by itself: either a
/// second question screen is shown or the session was canceled.
pub fn run_repeated_question<V: QuestionaireView, P: QuestionairePersistence>(
    view: &mut V,
    persistence: &mut P,
    repeated_question: &RepeatedQuestionEntry,
    question_count: usize,
) -> (r: Result<ControllerResult, PersistenceError>)
    ensures
        final(view).proceed_script() == old(view).proceed_script(),
        final(view).question_script().len() <= old(view).question_script().len(),
        old(persistence).log().is_prefix_of(final(persistence).log()),
        final(persistence).keeps() == old(persistence).keeps(),
        final(persistence).always_accepts() == old(persistence).always_accepts(),
        r matches Ok(cr) ==> (cr matches ControllerResult::Finished(ae)
            ==> ae is RepeatedQuestion),
        repeated_question.max_count > 0 ==> (r matches Ok(
            ControllerResult::Finished(AnswerEntry::RepeatedQuestion(answers)),
        ) ==> answers@.len() <= repeated_question.max_count),
        repeated_question.min_count == 0 && old(view).question_script().len() > 0
            && empty_answer_response(old(view).question_script()[0]) ==> (r matches Ok(
            ControllerResult::Finished(AnswerEntry::RepeatedQuestion(answers)),
        ) && answers@.len() == 0 && final(view).question_script() == old(view).question_script().skip(1) && final(persistence).log() == old(persistence).log()),
        repeated_question.min_count >= 1 && (repeated_question.max_count == 0
            || repeated_question.max_count > 1) && old(view).question_script().len() > 0
            && empty_answer_response(old(view).question_script()[0])
            ==> (final(view).question_script().len() + 2 <= old(view).question_script().len() || (
        r matches Ok(cr) && cr is Canceled)),
        forall|m: int|
            stops_after(old(view).question_script(), m) && repeated_question.min_count <= m && (
            repeated_question.max_count == 0 || m + 1 <= repeated_question.max_count) && m
                < usize::MAX ==> ((r is Err && !old(persistence).always_accepts()) || (r matches Ok(
                ControllerResult::Finished(AnswerEntry::RepeatedQuestion(answers)),
            ) && answers@ == repeated_answers_of(old(view).question_script(), m)
                && final(view).question_script() == old(view).question_script().skip(m + 1) && (
            old(persistence).keeps() ==> final(persistence).log() == old(persistence).log()
                + repeated_records_of(repeated_question.id, old(view).question_script(), m)) && (
            !old(persistence).keeps() ==> final(persistence).log() == old(persistence).log()))),
{
    let ghost qs0 = view.question_script();
    let ghost g0 = repeated_question.min_count == 0 && qs0.len() > 0 && empty_answer_response(
        qs0[0],
    );
    let ghost has_stop = (exists|m: int|
        #[trigger] stops_after(qs0, m) && repeated_question.min_count <= m && (
        repeated_question.max_count == 0 || m + 1 <= repeated_question.max_count) && m
            < usize::MAX);
    let ghost m0: int = if has_stop {
        choose|m: int|
            #[trigger] stops_after(qs0, m) && repeated_question.min_count <= m && (
            repeated_question.max_count == 0 || m + 1 <= repeated_question.max_count) && m
                < usize::MAX
    } else {
        0
    };
    let mut loop_count: usize = 0;
    let ghost mut iter: int = 0;
    let mut answers: Vec<QuestionAnswerInput> = Vec::new();
    let mut has_preferred: bool = false;
    loop
        invariant_except_break
            view.question_script().len() + iter == qs0.len(),
            has_stop ==> iter <= m0 && view.question_script() == qs0.skip(iter) && answers@
                == repeated_answers_of(qs0, iter) && (old(persistence).keeps()
                ==> persistence.log() == old(persistence).log() + repeated_records_of(
                repeated_question.id,
                qs0,
                iter,
            )) && (!old(persistence).keeps() ==> persistence.log() == old(persistence).log()),
            g0 ==> iter == 0 && answers@.len() == 0 && persistence.log() == old(persistence).log(),
        invariant
            g0 == (repeated_question.min_count == 0 && qs0.len() > 0 && empty_answer_response(
                qs0[0],
            )),
            answers@.len() <= iter,
            repeated_question.max_count > 0 ==> answers@.len() <= repeated_question.max_count,
            persistence.keeps() == old(persistence).keeps(),
            persistence.always_accepts() == old(persistence).always_accepts(),
            0 <= iter,
            loop_count == (if iter < usize::MAX as int {
                iter
            } else {
                usize::MAX as int
            }),
            iter == 0 ==> view.question_script() == qs0,
            view.proceed_script() == old(view).proceed_script(),
            qs0 == old(view).question_script(),
            old(persistence).log().is_prefix_of(persistence.log()),
            has_stop == (exists|m: int|
                #[trigger] stops_after(qs0, m) && repeated_question.min_count <= m && (
                repeated_question.max_count == 0 || m + 1 <= repeated_question.max_count) && m
                    < usize::MAX),
            has_stop ==> stops_after(qs0, m0) && repeated_question.min_count <= m0 && (
            repeated_question.max_count == 0 || m0 + 1 <= repeated_question.max_count) && m0
                < usize::MAX,
        ensures
            view.proceed_script() == old(view).proceed_script(),
            view.question_script().len() <= qs0.len(),
            old(persistence).log().is_prefix_of(persistence.log()),
            repeated_question.min_count >= 1 && (repeated_question.max_count == 0
                || repeated_question.max_count > 1) && qs0.len() > 0 && empty_answer_response(
                qs0[0],
            ) ==> view.question_script().len() + 2 <= qs0.len(),
            has_stop ==> answers@ == repeated_answers_of(qs0, m0) && view.question_script()
                == qs0.skip(m0 + 1) && (old(persistence).keeps() ==> persistence.log() == old(persistence).log() + repeated_records_of(repeated_question.id, qs0, m0)) && (!old(persistence).keeps() ==> persistence.log() == old(persistence).log()),
            g0 ==> answers@.len() == 0 && view.question_script() == qs0.skip(1)
                && persistence.log() == old(persistence).log(),
            repeated_question.max_count > 0 ==> answers@.len() <= repeated_question.max_count,
            persistence.keeps() == old(persistence).keeps(),
            persistence.always_accepts() == old(persistence).always_accepts(),
        decreases qs0.len() - iter,
    {
        if loop_count < usize::MAX {
            loop_count = loop_count + 1;
        }
        proof {
            iter = iter + 1;
        }
        if repeated_question.max_count > 0 && loop_count > repeated_question.max_count {
            view.show_msg(
                "Reached maximum number of input entries. Go on with the next topic ...",
                MsgLevel::Normal,
            );
            break ;
        }
        let question_txt = if loop_count == 1 {
            repeated_question.query_text.clone()
        } else {
            match &repeated_question.secondary_query_text {
                Some(t) => t.clone(),
                None => repeated_question.query_text.clone(),
            }
        };
        let q = QuestionEntry {
            id: repeated_question.id.clone(),
            pos: repeated_question.pos,
            required: false,
            query_text: question_txt,
            help_text: None,
            entry_type: repeated_question.entry_type.clone(),
        };
        let mut preferred = get_preferred(repeated_question.id.as_str(), persistence);
        if preferred.is_some() {
            has_preferred = true;
        } else {
            if has_preferred {
                preferred = Some(QuestionAnswerInput::String(None));
            }
        }
        match view.show_question_screen(&q, question_count, preferred) {
            QuestionScreenResult::Canceled => {
                return Ok(ControllerResult::Canceled);
            },
            QuestionScreenResult::Proceeded(answer) => {
                let empty = answer.is_empty();
                if repeated_question.min_count > 0 && loop_count <= repeated_question.min_count
                    && empty {
                    view.show_msg(
                        "Input is needed. The minimal number of elements isn't reached yet.",
                        MsgLevel::Critical,
                    );
                } else {
                    if empty {
                        proof {
                            if g0 && iter == 1 {
                                assert(qs0.drop_first() =~= qs0.skip(1));
                            }
                        }
                        break ;
                    }
                    match persistence.store_question(&q, &answer) {
                        Ok(_) => {
                            proof {
                                lemma_log_prefix_push(old(persistence).log(), persistence.log());
                            }
                        },
                        Err(e) => {
                            return Err(e);
                        },
                    }
                    answers.push(answer);
                    proof {
                        assert(answers.len() <= usize::MAX);
                        if has_stop {
                            assert(qs0.skip(iter - 1).drop_first() =~= qs0.skip(iter));
                            assert(answers@ =~= repeated_answers_of(qs0, iter));
                            if old(persistence).keeps() {
                                assert(persistence.log() =~= old(persistence).log()
                                    + repeated_records_of(repeated_question.id, qs0, iter));
                            }
                        }
                    }
                }
            },
        }
    }
    proof {
        assert forall|m: int|
            stops_after(qs0, m) && repeated_question.min_count <= m && (
            repeated_question.max_count == 0 || m + 1 <= repeated_question.max_count) && m
                < usize::MAX implies m == m0 by {
            assert(has_stop);
            if m < m0 {
                assert(empty_answer_response(qs0[m]));
            } else if m > m0 {
                assert(empty_answer_response(qs0[m0]));
            }
        }
    }
    Ok(ControllerResult::Finished(AnswerEntry::RepeatedQuestion(answers)))
}

/// A log that was a prefix before one more record was pushed is still a
/// prefix.
proof fn lemma_log_prefix_push(
    base: Seq<crate::answers::QuestionAnswer>,
    now: Seq<crate::answers::QuestionAnswer>,
)
    requires
        base.is_prefix_of(now) || now.len() > 0 && base.is_prefix_of(now.drop_last()),
    ensures
        base.is_prefix_of(now),
{
    if !base.is_prefix_of(now) {
        assert(base.is_prefix_of(now.drop_last()));
        assert(forall|i: int|
            0 <= i < base.len() ==> base[i] == now.drop_last()[i] && now.drop_last()[i] == now[i]);
        assert(base =~= now.subrange(0, base.len() as int));
    }
}

/// Runs the body of a block that was entered: the children in order,
/// one pass per loop turn, with the end prompt deciding whether the
/// body runs again.  A cancellation from a question propagates out; a
/// cancellation at the end prompt keeps what was gathered.  A block
/// without an end text runs its body exactly once.
pub fn enter_sub_block<V: QuestionaireView, P: QuestionairePersistence>(
    view: &mut V,
    persistence: &mut P,
    sub_block: &SubBlock,
    init: bool,
    question_count: usize,
) -> (r: Result<ControllerResult, PersistenceError>)
    ensures
        final(view).proceed_script().len() <= old(view).proceed_script().len(),
        final(view).question_script().len() <= old(view).question_script().len(),
        old(persistence).log().is_prefix_of(final(persistence).log()),
        final(persistence).keeps() == old(persistence).keeps(),
        final(persistence).always_accepts() == old(persistence).always_accepts(),
        r matches Ok(cr) ==> (cr matches ControllerResult::Finished(ae)
            ==> ae matches AnswerEntry::Block(ba) && ba.id@ == sub_block.id@
            && block_answer_matches(ba, *sub_block) && (sub_block.end_text is None
            ==> ba.iterations@.len() == 1)),
        all_plain_questions(sub_block.entries@) && sub_block.end_text is None
            && sub_block.entries@.len() <= old(view).question_script().len() && all_proceeded(
            old(view).question_script(),
            sub_block.entries@.len() as int,
        ) ==> ((r is Err && !old(persistence).always_accepts()) || (r matches Ok(ControllerResult::Finished(AnswerEntry::Block(ba)))
            && ba.iterations@.len() == 1 && ba.iterations@[0]@ == question_answers_of(
            old(view).question_script(),
            sub_block.entries@.len() as int,
        ) && final(view).question_script() == old(view).question_script().skip(
            sub_block.entries@.len() as int,
        ) && final(view).proceed_script() == old(view).proceed_script() && (old(
            persistence,
        ).keeps() ==> final(persistence).log() == old(persistence).log() + question_records_of(
            sub_block.entries@,
            old(view).question_script(),
            sub_block.entries@.len() as int,
        )) && (!old(persistence).keeps() ==> final(persistence).log() == old(persistence).log()))),
        !init && two_round_block(
            *sub_block,
            old(view).proceed_script(),
            old(view).question_script(),
        ) ==> ((r is Err && !old(persistence).always_accepts()) || (r matches Ok(ControllerResult::Finished(AnswerEntry::Block(ba)))
            && ba.iterations@.len() == 2 && ba.iterations@[0]@ == question_answers_of(
            old(view).question_script(),
            sub_block.entries@.len() as int,
        ) && ba.iterations@[1]@ == question_answers_of(
            old(view).question_script().skip(sub_block.entries@.len() as int),
            sub_block.entries@.len() as int,
        ) && final(view).question_script() == old(view).question_script().skip(
            2 * sub_block.entries@.len() as int,
        ) && final(view).proceed_script() == old(view).proceed_script().skip(2) && (old(persistence).keeps() ==> final(persistence).log() == old(persistence).log() + question_records_of(
            sub_block.entries@,
            old(view).question_script(),
            sub_block.entries@.len() as int,
        ) + question_records_of(
            sub_block.entries@,
            old(view).question_script().skip(sub_block.entries@.len() as int),
            sub_block.entries@.len() as int,
        )) && (!old(persistence).keeps() ==> final(persistence).log() == old(persistence).log()))),
        all_plain_questions(sub_block.entries@) && sub_block.end_text is Some
            && sub_block.entries@.len() <= old(view).question_script().len() && all_proceeded(
            old(view).question_script(),
            sub_block.entries@.len() as int,
        ) && old(view).proceed_script().len() >= 1 && one_round_end(
            *sub_block,
            old(view).proceed_script()[0],
            init,
        ) ==> ((r is Err && !old(persistence).always_accepts()) || (r matches Ok(ControllerResult::Finished(AnswerEntry::Block(ba)))
            && ba.iterations@.len() == 1 && ba.iterations@[0]@ == question_answers_of(
            old(view).question_script(),
            sub_block.entries@.len() as int,
        ) && final(view).question_script() == old(view).question_script().skip(
            sub_block.entries@.len() as int,
        ) && final(view).proceed_script() == old(view).proceed_script().skip(1) && (old(persistence).keeps() ==> one_pass_log(
            old(persistence).log(),
            final(persistence).log(),
            sub_block.entries@,
            old(view).question_script(),
            init,
        )) && (!old(persistence).keeps() ==> final(persistence).log() == old(persistence).log()))),
        all_plain_questions(sub_block.entries@) && sub_block.end_text is Some
            && sub_block.entries@.len() <= old(view).question_script().len() && all_proceeded(
            old(view).question_script(),
            sub_block.entries@.len() as int,
        ) && old(view).proceed_script().len() >= 1 && old(view).proceed_script()[0]
            == ProceedScreenResult::Proceeded(false) && init ==> ((r is Err && !old(persistence).always_accepts()) || (r == Ok::<
            ControllerResult,
            PersistenceError,
        >(ControllerResult::Canceled) && final(view).question_script() == old(view).question_script().skip(sub_block.entries@.len() as int) && final(view).proceed_script()
            == old(view).proceed_script().skip(1) && (old(persistence).keeps() ==> one_pass_log(
            old(persistence).log(),
            final(persistence).log(),
            sub_block.entries@,
            old(view).question_script(),
            init,
        )) && (!old(persistence).keeps() ==> final(persistence).log() == old(persistence).log()))),
        all_nested_blocks(sub_block.entries@) && sub_block.end_text is None
            && sub_block.entries@.len() <= old(view).proceed_script().len() && all_declined(
            old(view).proceed_script(),
            sub_block.entries@.len() as int,
        ) ==> (r matches Ok(ControllerResult::Finished(AnswerEntry::Block(ba)))
            && ba.iterations@.len() == 1 && ba.iterations@[0]@.len() == sub_block.entries@.len()
            && (forall|j: int|
            0 <= j < sub_block.entries@.len() ==> declined_block_answer(
                #[trigger] ba.iterations@[0]@[j],
                sub_block.entries@[j],
            )) && final(view).question_script() == old(view).question_script()
            && final(view).proceed_script() == old(view).proceed_script().skip(
            sub_block.entries@.len() as int,
        ) && final(persistence).log() == old(persistence).log() && final(persistence).replay()
            == old(persistence).replay()),
    decreases entries_height_from(sub_block.entries@, 0), 1int,
{
    let ghost qs0 = view.question_script();
    let ghost ps0 = view.proceed_script();
    let ghost straight = all_plain_questions(sub_block.entries@) && sub_block.end_text is None
        && sub_block.entries@.len() <= qs0.len() && all_proceeded(
        qs0,
        sub_block.entries@.len() as int,
    );
    let ghost rounds = !init && two_round_block(*sub_block, ps0, qs0);
    let ghost plain_some = all_plain_questions(sub_block.entries@) && sub_block.end_text is Some
        && sub_block.entries@.len() <= qs0.len() && all_proceeded(
        qs0,
        sub_block.entries@.len() as int,
    ) && ps0.len() >= 1;
    let ghost e1end = plain_some && one_round_end(*sub_block, ps0[0], init);
    let ghost e1cancel = plain_some && ps0[0] == ProceedScreenResult::Proceeded(false) && init;
    let ghost rp0 = persistence.replay();
    let ghost decl = all_nested_blocks(sub_block.entries@) && sub_block.end_text is None
        && sub_block.entries@.len() <= ps0.len() && all_declined(
        ps0,
        sub_block.entries@.len() as int,
    );
    let mut iterations: Vec<Vec<AnswerEntry>> = Vec::new();
    loop
        invariant_except_break
            sub_block.end_text is None ==> iterations@.len() == 0,
            straight ==> view.question_script() == qs0 && view.proceed_script() == ps0
                && persistence.log() == old(persistence).log(),
            rounds ==> iterations@.len() <= 1,
            rounds && iterations@.len() == 0 ==> view.question_script() == qs0
                && view.proceed_script() == ps0 && persistence.log() == old(persistence).log(),
            rounds && iterations@.len() == 1 ==> view.question_script() == qs0.skip(
                sub_block.entries@.len() as int,
            ) && view.proceed_script() == ps0.skip(1) && iterations@[0]@ == question_answers_of(
                qs0,
                sub_block.entries@.len() as int,
            ) && (old(persistence).keeps() ==> persistence.log() == old(persistence).log()
                + question_records_of(
                sub_block.entries@,
                qs0,
                sub_block.entries@.len() as int,
            )) && (!old(persistence).keeps() ==> persistence.log() == old(persistence).log()),
            e1end || e1cancel ==> iterations@.len() == 0 && view.question_script() == qs0
                && view.proceed_script() == ps0 && persistence.log() == old(persistence).log(),
            decl ==> iterations@.len() == 0 && view.question_script() == qs0
                && view.proceed_script() == ps0 && persistence.log() == old(persistence).log()
                && persistence.replay() == rp0,
        invariant
            persistence.keeps() == old(persistence).keeps(),
            persistence.always_accepts() == old(persistence).always_accepts(),
            plain_some == (all_plain_questions(sub_block.entries@) && sub_block.end_text is Some
                && sub_block.entries@.len() <= qs0.len() && all_proceeded(
                qs0,
                sub_block.entries@.len() as int,
            ) && ps0.len() >= 1),
            e1end == (plain_some && one_round_end(*sub_block, ps0[0], init)),
            e1cancel == (plain_some && ps0[0] == ProceedScreenResult::Proceeded(false) && init),
            rp0 == old(persistence).replay(),
            decl == (all_nested_blocks(sub_block.entries@) && sub_block.end_text is None
                && sub_block.entries@.len() <= ps0.len() && all_declined(
                ps0,
                sub_block.entries@.len() as int,
            )),
            qs0 == old(view).question_script(),
            ps0 == old(view).proceed_script(),
            straight == (all_plain_questions(sub_block.entries@) && sub_block.end_text is None
                && sub_block.entries@.len() <= qs0.len() && all_proceeded(
                qs0,
                sub_block.entries@.len() as int,
            )),
            rounds == (!init && two_round_block(*sub_block, ps0, qs0)),
            view.proceed_script().len() <= old(view).proceed_script().len(),
            view.question_script().len() <= old(view).question_script().len(),
            old(persistence).log().is_prefix_of(persistence.log()),
            forall|k: int|
                0 <= k < iterations@.len() ==> iteration_matches(
                    #[trigger] iterations@[k]@,
                    sub_block.entries@,
                ),
        ensures
            view.proceed_script().len() <= old(view).proceed_script().len(),
            view.question_script().len() <= old(view).question_script().len(),
            old(persistence).log().is_prefix_of(persistence.log()),
            forall|k: int|
                0 <= k < iterations@.len() ==> iteration_matches(
                    #[trigger] iterations@[k]@,
                    sub_block.entries@,
                ),
            sub_block.end_text is None ==> iterations@.len() == 1,
            persistence.keeps() == old(persistence).keeps(),
            persistence.always_accepts() == old(persistence).always_accepts(),
            straight ==> iterations@.len() == 1 && iterations@[0]@ == question_answers_of(
                qs0,
                sub_block.entries@.len() as int,
            ) && view.question_script() == qs0.skip(sub_block.entries@.len() as int)
                && view.proceed_script() == ps0 && (old(persistence).keeps()
                ==> persistence.log() == old(persistence).log() + question_records_of(
                sub_block.entries@,
                qs0,
                sub_block.entries@.len() as int,
            )) && (!old(persistence).keeps() ==> persistence.log() == old(persistence).log()),
            rounds ==> iterations@.len() == 2 && iterations@[0]@ == question_answers_of(
                qs0,
                sub_block.entries@.len() as int,
            ) && iterations@[1]@ == question_answers_of(
                qs0.skip(sub_block.entries@.len() as int),
                sub_block.entries@.len() as int,
            ) && view.question_script() == qs0.skip(2 * sub_block.entries@.len() as int)
                && view.proceed_script() == ps0.skip(2) && (old(persistence).keeps()
                ==> persistence.log() == old(persistence).log() + question_records_of(
                sub_block.entries@,
                qs0,
                sub_block.entries@.len() as int,
            ) + question_records_of(
                sub_block.entries@,
                qs0.skip(sub_block.entries@.len() as int),
                sub_block.entries@.len() as int,
            )) && (!old(persistence).keeps() ==> persistence.log() == old(persistence).log()),
            decl ==> iterations@.len() == 1 && iterations@[0]@.len() == sub_block.entries@.len()
                && (forall|j: int|
                0 <= j < sub_block.entries@.len() ==> declined_block_answer(
                    #[trigger] iterations@[0]@[j],
                    sub_block.entries@[j],
                )) && view.question_script() == qs0 && view.proceed_script() == ps0.skip(
                sub_block.entries@.len() as int,
            ) && persistence.log() == old(persistence).log() && persistence.replay() == rp0,
            e1end ==> iterations@.len() == 1 && iterations@[0]@ == question_answers_of(
                qs0,
                sub_block.entries@.len() as int,
            ) && view.question_script() == qs0.skip(sub_block.entries@.len() as int)
                && view.proceed_script() == ps0.skip(1) && (old(persistence).keeps()
                ==> one_pass_log(
                old(persistence).log(),
                persistence.log(),
                sub_block.entries@,
                qs0,
                init,
            )) && (!old(persistence).keeps() ==> persistence.log() == old(persistence).log()),
            !e1cancel,
        decreases view.proceed_script().len(),
    {
        let mut iteration_answers: Vec<AnswerEntry> = Vec::new();
        let n = sub_block.entries.len();
        let ghost ps_head = view.proceed_script();
        let ghost qs_head = view.question_script();
        let mut idx: usize = 0;
        while idx < n
            invariant
                idx <= n,
                n == sub_block.entries@.len(),
                iteration_answers@.len() == idx,
                forall|j: int|
                    0 <= j < idx ==> answer_kind_matches(
                        #[trigger] iteration_answers@[j],
                        sub_block.entries@[j],
                    ),
                view.proceed_script().len() <= ps_head.len(),
                view.question_script().len() <= qs_head.len(),
                ps_head.len() <= old(view).proceed_script().len(),
                qs_head.len() <= old(view).question_script().len(),
                old(persistence).log().is_prefix_of(persistence.log()),
                qs0 == old(view).question_script(),
                straight == (all_plain_questions(sub_block.entries@) && sub_block.end_text is None
                    && sub_block.entries@.len() <= qs0.len() && all_proceeded(
                    qs0,
                    sub_block.entries@.len() as int,
                )),
                sub_block.end_text is None ==> iterations@.len() == 0,
                persistence.keeps() == old(persistence).keeps(),
                persistence.always_accepts() == old(persistence).always_accepts(),
            persistence.always_accepts() == old(persistence).always_accepts(),
                straight && iterations@.len() == 0 ==> view.question_script() == qs0.skip(
                    idx as int,
                ) && view.proceed_script() == ps0 && iteration_answers@ == question_answers_of(
                    qs0,
                    idx as int,
                ) && (old(persistence).keeps() ==> persistence.log() == old(persistence).log()
                    + question_records_of(
                    sub_block.entries@,
                    qs0,
                    idx as int,
                )) && (!old(persistence).keeps() ==> persistence.log() == old(persistence).log()),
                ps0 == old(view).proceed_script(),
                rounds == (!init && two_round_block(*sub_block, ps0, qs0)),
                rounds ==> iterations@.len() <= 1,
                rounds && iterations@.len() == 0 ==> view.question_script() == qs0.skip(
                    idx as int,
                ) && view.proceed_script() == ps0 && iteration_answers@ == question_answers_of(
                    qs0,
                    idx as int,
                ) && (old(persistence).keeps() ==> persistence.log() == old(persistence).log()
                    + question_records_of(sub_block.entries@, qs0, idx as int)) && (!old(persistence).keeps() ==> persistence.log() == old(persistence).log()),
                rounds && iterations@.len() == 1 ==> view.question_script() == qs0.skip(
                    n + idx as int,
                ) && view.proceed_script() == ps0.skip(1) && iteration_answers@
                    == question_answers_of(qs0.skip(n as int), idx as int) && (old(persistence).keeps() ==> persistence.log() == old(persistence).log() + question_records_of(
                    sub_block.entries@,
                    qs0,
                    n as int,
                ) + question_records_of(sub_block.entries@, qs0.skip(n as int), idx as int)) && (
                !old(persistence).keeps() ==> persistence.log() == old(persistence).log()),
                plain_some == (all_plain_questions(sub_block.entries@) && sub_block.end_text
                    is Some && sub_block.entries@.len() <= qs0.len() && all_proceeded(
                    qs0,
                    sub_block.entries@.len() as int,
                ) && ps0.len() >= 1),
                e1end == (plain_some && one_round_end(*sub_block, ps0[0], init)),
                e1cancel == (plain_some && ps0[0] == ProceedScreenResult::Proceeded(false)
                    && init),
                e1end || e1cancel ==> iterations@.len() == 0,
                rp0 == old(persistence).replay(),
                decl == (all_nested_blocks(sub_block.entries@) && sub_block.end_text is None
                    && sub_block.entries@.len() <= ps0.len() && all_declined(
                    ps0,
                    sub_block.entries@.len() as int,
                )),
                decl && iterations@.len() == 0 ==> view.question_script() == qs0
                    && view.proceed_script() == ps0.skip(idx as int) && persistence.log() == old(persistence).log()
                    && persistence.replay() == rp0 && (forall|j: int|
                    0 <= j < idx ==> declined_block_answer(
                        #[trigger] iteration_answers@[j],
                        sub_block.entries@[j],
                    )),
                (e1end || e1cancel) && iterations@.len() == 0 ==> view.question_script()
                    == qs0.skip(idx as int) && view.proceed_script() == ps0 && iteration_answers@
                    == question_answers_of(qs0, idx as int) && (old(persistence).keeps()
                    ==> persistence.log() == old(persistence).log() + question_records_of(
                    sub_block.entries@,
                    qs0,
                    idx as int,
                )) && (!old(persistence).keeps() ==> persistence.log() == old(persistence).log()),
            decreases n - idx,
        {
            match &sub_block.entries[idx] {
                QuestionaireEntry::Question(q) => {
                    let preferred = get_preferred(q.id.as_str(), persistence);
                    match view.show_question_screen(q, question_count, preferred) {
                        QuestionScreenResult::Canceled => {
                            return Ok(ControllerResult::Canceled);
                        },
                        QuestionScreenResult::Proceeded(answer) => {
                            match persistence.store_question(q, &answer) {
                                Ok(_) => {
                                    proof {
                                        lemma_log_prefix_push(
                                            old(persistence).log(),
                                            persistence.log(),
                                        );
                                    }
                                },
                                Err(e) => {
                                    return Err(e);
                                },
                            }
                            iteration_answers.push(AnswerEntry::Question(answer));
                            proof {
                                if (straight || rounds || e1end || e1cancel)
                                    && iterations@.len() == 0 {
                                    assert(qs0.skip(idx as int).drop_first() =~= qs0.skip(
                                        idx + 1 as int,
                                    ));
                                    assert(iteration_answers@ =~= question_answers_of(
                                        qs0,
                                        idx + 1 as int,
                                    ));
                                    if old(persistence).keeps() {
                                        assert(persistence.log() =~= old(persistence).log()
                                            + question_records_of(
                                            sub_block.entries@,
                                            qs0,
                                            idx + 1 as int,
                                        ));
                                    }
                                }
                                if rounds && iterations@.len() == 1 {
                                    assert(qs0.skip(n + idx as int).drop_first() =~= qs0.skip(
                                        n + (idx + 1) as int,
                                    ));
                                    assert(qs0.skip(n as int)[idx as int] == qs0[n + idx as int]);
                                    assert(iteration_answers@ =~= question_answers_of(
                                        qs0.skip(n as int),
                                        idx + 1 as int,
                                    ));
                                    if old(persistence).keeps() {
                                        assert(persistence.log() =~= old(persistence).log()
                                            + question_records_of(
                                            sub_block.entries@,
                                            qs0,
                                            n as int,
                                        ) + question_records_of(
                                            sub_block.entries@,
                                            qs0.skip(n as int),
                                            idx + 1 as int,
                                        ));
                                    }
                                }
                            }
                        },
                    }
                },
                QuestionaireEntry::Block(b) => {
                    proof {
                        lemma_entries_height_from_bound(sub_block.entries@, 0, idx as int);
                    }
                    match run_sub_block(view, persistence, b, false, question_count) {
                        Err(e) => {
                            return Err(e);
                        },
                        Ok(ControllerResult::Canceled) => {
                            return Ok(ControllerResult::Canceled);
                        },
                        Ok(ControllerResult::Finished(answer)) => {
                            iteration_answers.push(answer);
                            proof {
                                if decl && iterations@.len() == 0 {
                                    assert(ps0.skip(idx as int).drop_first() =~= ps0.skip(
                                        idx + 1 as int,
                                    ));
                                }
                            }
                        },
                    }
                },
                QuestionaireEntry::RepeatedQuestion(rq) => {
                    match run_repeated_question(view, persistence, rq, question_count) {
                        Err(e) => {
                            return Err(e);
                        },
                        Ok(ControllerResult::Canceled) => {
                            return Ok(ControllerResult::Canceled);
                        },
                        Ok(ControllerResult::Finished(answer)) => {
                            iteration_answers.push(answer);
                        },
                    }
                },
            }
            idx = idx + 1;
        }
        proof {
            if (straight || rounds || e1end || e1cancel) && iterations@.len() == 0 {
                assert(iteration_answers@ == question_answers_of(
                    qs0,
                    sub_block.entries@.len() as int,
                ));
            }
            if rounds && iterations@.len() == 1 {
                assert(iteration_answers@ == question_answers_of(
                    qs0.skip(sub_block.entries@.len() as int),
                    sub_block.entries@.len() as int,
                ));
            }
        }
        iterations.push(iteration_answers);
        match &sub_block.end_text {
            None => {
                break ;
            },
            Some(end_text) => {
                let mut preferred: Option<bool> = match has_preferred_block_answer(
                    sub_block.id.as_str(),
                    persistence,
                ) {
                    PreferredBlockAnswer::Exist => Some(true),
                    PreferredBlockAnswer::NextHasWrongId => Some(false),
                    PreferredBlockAnswer::NoMoreAnswers => None,
                };
                if init {
                    preferred = None;
                }
                let current: usize = if init {
                    let dummy = QuestionEntry {
                        id: String::from_str("00000000"),
                        pos: 0,
                        required: false,
                        query_text: String::new(),
                        help_text: None,
                        entry_type: crate::entries::EntryType::String(
                            crate::entries::StringEntry {
                                default_value: None,
                                regexp: None,
                                max_length: None,
                                min_length: None,
                            },
                        ),
                    };
                    let final_data = QuestionAnswerInput::String(Some(String::from_str("done")));
                    match persistence.store_question(&dummy, &final_data) {
                        Ok(_) => {
                            proof {
                                lemma_log_prefix_push(old(persistence).log(), persistence.log());
                                if (e1end || e1cancel) && iterations@.len() == 1 && old(persistence).keeps() {
                                    assert(persistence.log().subrange(
                                        0,
                                        old(persistence).log().len()
                                            + sub_block.entries@.len() as int,
                                    ) =~= old(persistence).log() + question_records_of(
                                        sub_block.entries@,
                                        qs0,
                                        sub_block.entries@.len() as int,
                                    ));
                                }
                            }
                        },
                        Err(e) => {
                            return Err(e);
                        },
                    }
                    question_count
                } else {
                    0
                };
                let help = match &sub_block.help_text {
                    Some(h) => Some(h.as_str()),
                    None => None,
                };
                match view.show_proceed_screen(
                    sub_block.id.as_str(),
                    end_text.as_str(),
                    help,
                    question_count,
                    current,
                    preferred,
                ) {
                    ProceedScreenResult::Canceled => {
                        proof {
                            if e1end || e1cancel {
                                assert(ps0.drop_first() =~= ps0.skip(1));
                            }
                        }
                        break ;
                    },
                    ProceedScreenResult::Proceeded(again) => {
                        proof {
                            if e1end || e1cancel {
                                assert(ps0.drop_first() =~= ps0.skip(1));
                            }
                        }
                        if !again {
                            if init {
                                return Ok(ControllerResult::Canceled);
                            }
                            break ;
                        }
                        if !sub_block.loop_over_entries {
                            break ;
                        }
                    },
                }
            },
        }
    }
    Ok(
        ControllerResult::Finished(
            AnswerEntry::Block(BlockAnswer { id: sub_block.id.clone(), iterations }),
        ),
    )
}

/// Runs one block from its start prompt on.  Cancellation at the start
/// prompt, or a decline at the very first block of the session, cancels
/// the whole run; a decline elsewhere skips the block with an empty
/// block answer; an affirmed start prompt enters the block's body.
pub fn run_sub_block<V: QuestionaireView, P: QuestionairePersistence>(
    view: &mut V,
    persistence: &mut P,
    sub_block: &SubBlock,
    init: bool,
    question_count: usize,
) -> (r: Result<ControllerResult, PersistenceError>)
    ensures
        final(view).proceed_script().len() <= old(view).proceed_script().len(),
        final(view).question_script().len() <= old(view).question_script().len(),
        old(persistence).log().is_prefix_of(final(persistence).log()),
        final(persistence).keeps() == old(persistence).keeps(),
        final(persistence).always_accepts() == old(persistence).always_accepts(),
        r matches Ok(cr) ==> (cr matches ControllerResult::Finished(ae)
            ==> ae matches AnswerEntry::Block(ba) && ba.id@ == sub_block.id@
            && block_answer_matches(ba, *sub_block) && (sub_block.end_text is None
            ==> ba.iterations@.len() <= 1)),
        old(view).proceed_script().len() == 0 ==> r == Ok::<ControllerResult, PersistenceError>(
            ControllerResult::Canceled,
        ) && final(view).proceed_script() == old(view).proceed_script() && final(view).question_script() == old(view).question_script() && final(persistence).log() == old(persistence).log() && final(persistence).replay() == old(persistence).replay(),
        old(view).proceed_script().len() > 0 && old(view).proceed_script()[0]
            == ProceedScreenResult::Canceled ==> r == Ok::<ControllerResult, PersistenceError>(
            ControllerResult::Canceled,
        ) && final(view).proceed_script() == old(view).proceed_script().skip(1) && final(view).question_script() == old(view).question_script() && final(persistence).log() == old(persistence).log() && final(persistence).replay() == old(persistence).replay(),
        init && old(view).proceed_script().len() > 0 && old(view).proceed_script()[0]
            == ProceedScreenResult::Proceeded(false) ==> r == Ok::<
            ControllerResult,
            PersistenceError,
        >(ControllerResult::Canceled) && final(view).proceed_script() == old(view).proceed_script().skip(1) && final(view).question_script() == old(view).question_script() && final(persistence).log() == old(persistence).log() && final(persistence).replay() == old(persistence).replay(),
        !init && old(view).proceed_script().len() > 0 && old(view).proceed_script()[0]
            == ProceedScreenResult::Proceeded(false) ==> (r matches Ok(
            ControllerResult::Finished(AnswerEntry::Block(ba)),
        ) && ba.id == sub_block.id && ba.iterations@.len() == 0) && final(view).proceed_script()
            == old(view).proceed_script().skip(1) && final(view).question_script() == old(view).question_script() && final(persistence).log() == old(persistence).log() && final(persistence).replay() == old(persistence).replay(),
        all_plain_questions(sub_block.entries@) && sub_block.end_text is None
            && sub_block.entries@.len() <= old(view).question_script().len() && all_proceeded(
            old(view).question_script(),
            sub_block.entries@.len() as int,
        ) && old(view).proceed_script().len() > 0 && old(view).proceed_script()[0]
            == ProceedScreenResult::Proceeded(true) ==> ((r is Err && !old(persistence).always_accepts()) || (r matches Ok(
            ControllerResult::Finished(AnswerEntry::Block(ba)),
        ) && ba.iterations@.len() == 1 && ba.iterations@[0]@ == question_answers_of(
            old(view).question_script(),
            sub_block.entries@.len() as int,
        ) && final(view).question_script() == old(view).question_script().skip(
            sub_block.entries@.len() as int,
        ) && final(view).proceed_script() == old(view).proceed_script().skip(1) && (old(
            persistence,
        ).keeps() ==> final(persistence).log() == old(persistence).log() + question_records_of(
            sub_block.entries@,
            old(view).question_script(),
            sub_block.entries@.len() as int,
        )) && (!old(persistence).keeps() ==> final(persistence).log() == old(persistence).log()))),
        !init && old(view).proceed_script().len() > 0 && old(view).proceed_script()[0]
            == ProceedScreenResult::Proceeded(true) && two_round_block(
            *sub_block,
            old(view).proceed_script().skip(1),
            old(view).question_script(),
        ) ==> ((r is Err && !old(persistence).always_accepts()) || (r matches Ok(ControllerResult::Finished(AnswerEntry::Block(ba)))
            && ba.iterations@.len() == 2 && ba.iterations@[0]@ == question_answers_of(
            old(view).question_script(),
            sub_block.entries@.len() as int,
        ) && ba.iterations@[1]@ == question_answers_of(
            old(view).question_script().skip(sub_block.entries@.len() as int),
            sub_block.entries@.len() as int,
        ))),
        all_plain_questions(sub_block.entries@) && sub_block.end_text is Some
            && sub_block.entries@.len() <= old(view).question_script().len() && all_proceeded(
            old(view).question_script(),
            sub_block.entries@.len() as int,
        ) && old(view).proceed_script().len() >= 2 && old(view).proceed_script()[0]
            == ProceedScreenResult::Proceeded(true) && one_round_end(
            *sub_block,
            old(view).proceed_script()[1],
            init,
        ) ==> ((r is Err && !old(persistence).always_accepts()) || (r matches Ok(ControllerResult::Finished(AnswerEntry::Block(ba)))
            && ba.iterations@.len() == 1 && ba.iterations@[0]@ == question_answers_of(
            old(view).question_script(),
            sub_block.entries@.len() as int,
        ) && final(view).question_script() == old(view).question_script().skip(
            sub_block.entries@.len() as int,
        ) && final(view).proceed_script() == old(view).proceed_script().skip(2) && (old(persistence).keeps() ==> one_pass_log(
            old(persistence).log(),
            final(persistence).log(),
            sub_block.entries@,
            old(view).question_script(),
            init,
        )) && (!old(persistence).keeps() ==> final(persistence).log() == old(persistence).log()))),
        all_plain_questions(sub_block.entries@) && sub_block.end_text is Some
            && sub_block.entries@.len() <= old(view).question_script().len() && all_proceeded(
            old(view).question_script(),
            sub_block.entries@.len() as int,
        ) && old(view).proceed_script().len() >= 2 && old(view).proceed_script()[0]
            == ProceedScreenResult::Proceeded(true) && old(view).proceed_script()[1]
            == ProceedScreenResult::Proceeded(false) && init ==> ((r is Err && !old(persistence).always_accepts()) || (r == Ok::<
            ControllerResult,
            PersistenceError,
        >(ControllerResult::Canceled) && final(view).question_script() == old(view).question_script().skip(sub_block.entries@.len() as int) && final(view).proceed_script()
            == old(view).proceed_script().skip(2) && (old(persistence).keeps() ==> one_pass_log(
            old(persistence).log(),
            final(persistence).log(),
            sub_block.entries@,
            old(view).question_script(),
            init,
        )) && (!old(persistence).keeps() ==> final(persistence).log() == old(persistence).log()))),
    decreases entries_height_from(sub_block.entries@, 0), 2int,
{
    let current: usize = match sub_block.pos {
        Some(p) => p,
        None => 0,
    };
    let mut preferred: Option<bool> = match has_preferred_block_answer(
        sub_block.id.as_str(),
        persistence,
    ) {
        PreferredBlockAnswer::Exist => Some(true),
        PreferredBlockAnswer::NextHasWrongId => Some(false),
        PreferredBlockAnswer::NoMoreAnswers => None,
    };
    if init {
        if persistence.next_answer_id().is_some() {
            preferred = Some(true);
        }
    }
    let help = match &sub_block.help_text {
        Some(h) => Some(h.as_str()),
        None => None,
    };
    match view.show_proceed_screen(
        sub_block.id.as_str(),
        sub_block.start_text.as_str(),
        help,
        question_count,
        current,
        preferred,
    ) {
        ProceedScreenResult::Canceled => Ok(ControllerResult::Canceled),
        ProceedScreenResult::Proceeded(enter) => {
            if enter {
                let result = enter_sub_block(view, persistence, sub_block, init, question_count);
                proof {
                    if old(view).proceed_script().len() >= 2 {
                        assert(old(view).proceed_script().skip(1).skip(1) =~= old(view).proceed_script().skip(2));
                    }
                }
                result
            } else {
                if init {
                    Ok(ControllerResult::Canceled)
                } else {
                    Ok(
                        ControllerResult::Finished(
                            AnswerEntry::Block(
                                BlockAnswer { id: sub_block.id.clone(), iterations: Vec::new() },
                            ),
                        ),
                    )
                }
            }
        },
    }
}

/// Drives one questionnaire session: holds the tree, the view and the
/// persistence, and walks the tree from the root block.
pub struct QuestionaireController<'a, V: QuestionaireView, P: QuestionairePersistence> {
    questionaire: &'a Questionaire,
    view: V,
    persistence: P,
}

impl<'a, V: QuestionaireView, P: QuestionairePersistence> QuestionaireController<'a, V, P> {
    /// The questionnaire this controller walks.
    pub closed spec fn spec_questionaire(&self) -> Questionaire {
        *self.questionaire
    }

    /// The view this controller drives.
    pub closed spec fn spec_view(&self) -> V {
        self.view
    }

    /// The persistence this controller writes to and replays from.
    pub closed spec fn spec_persistence(&self) -> P {
        self.persistence
    }

    /// A controller for one session over `questionaire`.
    pub fn new(questionaire: &'a Questionaire, view: V, persistence: P) -> (r: Self)
        ensures
            r.spec_questionaire() == *questionaire,
            r.spec_view() == view,
            r.spec_persistence() == persistence,
    {
        Self { questionaire, view, persistence }
    }

    /// Runs the session: enters the root block unconditionally and
    /// yields its answers, or reports cancellation.  If the first
    /// response to the root block's start prompt is a decline or a
    /// cancellation, or there are no responses at all, the whole run is
    /// canceled and never finished.
    pub fn run(&mut self) -> (r: Result<QuestionaireResult, PersistenceError>)
        ensures
            final(self).spec_questionaire() == old(self).spec_questionaire(),
            final(self).spec_view().proceed_script().len() <= old(self).spec_view().proceed_script().len(),
            final(self).spec_view().question_script().len() <= old(self).spec_view().question_script().len(),
            old(self).spec_persistence().log().is_prefix_of(final(self).spec_persistence().log()),
            final(self).spec_persistence().keeps() == old(self).spec_persistence().keeps(),
            final(self).spec_persistence().always_accepts() == old(self).spec_persistence().always_accepts(),
            r matches Ok(QuestionaireResult::Finished(ba)) ==> ba.id@ == old(self).spec_questionaire().init_block.id@ && block_answer_matches(
                ba,
                old(self).spec_questionaire().init_block,
            ) && (old(self).spec_questionaire().init_block.end_text is None
                ==> ba.iterations@.len() <= 1),
            old(self).spec_view().proceed_script().len() == 0 ==> r == Ok::<
                QuestionaireResult,
                PersistenceError,
            >(QuestionaireResult::Canceled) && final(self).spec_view().proceed_script() == old(self).spec_view().proceed_script() && final(self).spec_view().question_script() == old(self).spec_view().question_script() && final(self).spec_persistence().log() == old(self).spec_persistence().log() && final(self).spec_persistence().replay() == old(self).spec_persistence().replay(),
            old(self).spec_view().proceed_script().len() > 0 && (old(self).spec_view().proceed_script()[0] == ProceedScreenResult::Canceled || old(self).spec_view().proceed_script()[0] == ProceedScreenResult::Proceeded(false)) ==> r
                == Ok::<QuestionaireResult, PersistenceError>(QuestionaireResult::Canceled)
                && final(self).spec_view().proceed_script() == old(self).spec_view().proceed_script().skip(1) && final(self).spec_view().question_script()
                == old(self).spec_view().question_script() && final(self).spec_persistence().log()
                == old(self).spec_persistence().log() && final(self).spec_persistence().replay()
                == old(self).spec_persistence().replay(),
            all_plain_questions(old(self).spec_questionaire().init_block.entries@) && old(self).spec_questionaire().init_block.end_text is None && old(self).spec_questionaire().init_block.entries@.len() <= old(self).spec_view().question_script().len() && all_proceeded(
                old(self).spec_view().question_script(),
                old(self).spec_questionaire().init_block.entries@.len() as int,
            ) && old(self).spec_view().proceed_script().len() > 0 && old(self).spec_view().proceed_script()[0] == ProceedScreenResult::Proceeded(true) ==> ((
            r is Err && !old(self).spec_persistence().always_accepts()) || (r matches Ok(
                QuestionaireResult::Finished(ba),
            ) && ba.iterations@.len()
                == 1 && ba.iterations@[0]@ == question_answers_of(
                old(self).spec_view().question_script(),
                old(self).spec_questionaire().init_block.entries@.len() as int,
            ) && final(self).spec_view().question_script() == old(self).spec_view().question_script().skip(
                old(self).spec_questionaire().init_block.entries@.len() as int,
            ) && (old(self).spec_persistence().keeps() ==> final(self).spec_persistence().log()
                == old(self).spec_persistence().log() + question_records_of(
                old(self).spec_questionaire().init_block.entries@,
                old(self).spec_view().question_script(),
                old(self).spec_questionaire().init_block.entries@.len() as int,
            )) && (!old(self).spec_persistence().keeps() ==> final(self).spec_persistence().log()
                == old(self).spec_persistence().log()))),
            all_plain_questions(old(self).spec_questionaire().init_block.entries@) && old(self).spec_questionaire().init_block.end_text is Some && old(self).spec_questionaire().init_block.entries@.len() <= old(self).spec_view().question_script().len() && all_proceeded(
                old(self).spec_view().question_script(),
                old(self).spec_questionaire().init_block.entries@.len() as int,
            ) && old(self).spec_view().proceed_script().len() >= 2 && old(self).spec_view().proceed_script()[0] == ProceedScreenResult::Proceeded(true)
                && one_round_end(
                old(self).spec_questionaire().init_block,
                old(self).spec_view().proceed_script()[1],
                true,
            ) ==> ((r is Err && !old(self).spec_persistence().always_accepts()) || (r matches Ok(
                QuestionaireResult::Finished(ba),
            ) && ba.iterations@.len() == 1 && ba.iterations@[0]@ == question_answers_of(
                old(self).spec_view().question_script(),
                old(self).spec_questionaire().init_block.entries@.len() as int,
            ) && (old(self).spec_persistence().keeps() ==> one_pass_log(
                old(self).spec_persistence().log(),
                final(self).spec_persistence().log(),
                old(self).spec_questionaire().init_block.entries@,
                old(self).spec_view().question_script(),
                true,
            )) && (!old(self).spec_persistence().keeps() ==> final(self).spec_persistence().log()
                == old(self).spec_persistence().log()))),
            all_plain_questions(old(self).spec_questionaire().init_block.entries@) && old(self).spec_questionaire().init_block.end_text is Some && old(self).spec_questionaire().init_block.entries@.len() <= old(self).spec_view().question_script().len() && all_proceeded(
                old(self).spec_view().question_script(),
                old(self).spec_questionaire().init_block.entries@.len() as int,
            ) && old(self).spec_view().proceed_script().len() >= 2 && old(self).spec_view().proceed_script()[0] == ProceedScreenResult::Proceeded(true) && old(self).spec_view().proceed_script()[1] == ProceedScreenResult::Proceeded(false) ==> ((
            r is Err && !old(self).spec_persistence().always_accepts()) || r == Ok::<
                QuestionaireResult,
                PersistenceError,
            >(QuestionaireResult::Canceled)),
    {
        let pos_count: usize = match self.questionaire.pos_count {
            Some(pc) => pc,
            None => 0,
        };
        let result = run_sub_block(
            &mut self.view,
            &mut self.persistence,
            &self.questionaire.init_block,
            true,
            pos_count,
        );
        match result {
            Err(e) => Err(e),
            Ok(ControllerResult::Canceled) => Ok(QuestionaireResult::Canceled),
            Ok(ControllerResult::Finished(ae)) => match ae {
                AnswerEntry::Block(ba) => Ok(QuestionaireResult::Finished(ba)),
                _ => unreached(),
            },
        }
    }
}

} // verus!
