//! The persistence interface the controller drives: an append-only log
//! of confirmed answers, and a read cursor over the records of an
//! earlier session that feeds the replay machinery.  A persistence
//! value is modeled by the records still to be replayed and the records
//! stored so far.  The line format of the on-disk log, one
//! `id=payload` pair per line, is framed and split here; what the
//! payload holds is the business of the layer that writes it.

use vstd::prelude::*;
use vstd::string::StrSliceExecFns;

use crate::answers::QuestionAnswer;
use crate::answers::QuestionAnswerInput;
use crate::entries::QuestionEntry;

verus! {

/// Why a persistence operation failed.
#[derive(Debug, Clone, Copy, PartialEq, Eq, Structural)]
pub enum PersistenceError {
    /// The implementation does not support this operation.
    NotSupported,
    /// No source to load from was given.
    NoSource,
    /// The record could not be written.
    StoreFailed,
    /// The source could not be read.
    LoadFailed,
}

impl PersistenceError {
    /// The message shown for this failure.
    pub open spec fn spec_message(&self) -> Seq<char> {
        match self {
            PersistenceError::NotSupported => "Not supported"@,
            PersistenceError::NoSource => "No source for loading given"@,
            PersistenceError::StoreFailed => "Error while storing an answer"@,
            PersistenceError::LoadFailed => "Error while loading the answer log"@,
        }
    }

    /// The message shown for this failure.
    pub fn message(&self) -> (r: String)
        ensures
            r@ == self.spec_message(),
    {
        match self {
            PersistenceError::NotSupported => String::from_str("Not supported"),
            PersistenceError::NoSource => String::from_str("No source for loading given"),
            PersistenceError::StoreFailed => String::from_str("Error while storing an answer"),
            PersistenceError::LoadFailed => String::from_str(
                "Error while loading the answer log",
            ),
        }
    }
}

/// Where answers go and where replay records come from.  `replay()` is
/// the sequence of records not yet consumed by the cursor; `log()` is
/// what this session has stored.  An implementation may keep nothing,
/// in which case its log stays empty.
pub trait QuestionairePersistence {
    /// The replay records the cursor has not consumed yet, in order.
    /// An implementation outside the verified world that does not say
    /// is modeled as having none.
    open spec fn replay(&self) -> Seq<QuestionAnswer> {
        Seq::empty()
    }

    /// The records stored in this session, in order.  An implementation
    /// outside the verified world that does not say is modeled as
    /// keeping none.
    open spec fn log(&self) -> Seq<QuestionAnswer> {
        Seq::empty()
    }

    /// Whether this implementation keeps what is stored: a keeping
    /// implementation appends every accepted record to its log, one
    /// that keeps nothing leaves the log empty.  An implementation
    /// outside the verified world that does not say is modeled as
    /// keeping none.
    open spec fn keeps(&self) -> bool {
        false
    }

    /// Whether storing can fail at all: where this holds, every store
    /// succeeds, and a session over such a persistence cannot end in a
    /// store error.  An implementation outside the verified world that
    /// does not say is modeled as one whose stores may fail.
    open spec fn always_accepts(&self) -> bool {
        false
    }

    /// Appends one confirmed answer to the log.  The replay cursor is
    /// untouched; a keeping implementation appends exactly this record
    /// on success, one that keeps nothing leaves the log unchanged.
    fn store_question(&mut self, entry: &QuestionEntry, data: &QuestionAnswerInput) -> (r: Result<
        (),
        PersistenceError,
    >)
        ensures
            final(self).replay() == old(self).replay(),
            final(self).keeps() == old(self).keeps(),
            final(self).always_accepts() == old(self).always_accepts(),
            old(self).always_accepts() ==> r is Ok,
            r is Ok && old(self).keeps() ==> final(self).log() == old(self).log().push(
                (QuestionAnswer { id: entry.id, answer: *data }),
            ),
            r is Ok && !old(self).keeps() ==> final(self).log() == old(self).log(),
            r is Err ==> final(self).log() == old(self).log(),
    ;

    /// Fills the replay cursor from an earlier session's log.  What a
    /// source is, and whether loading is supported at all, is up to the
    /// implementation; the stored log is never touched, and a failed
    /// load leaves the cursor as it was.
    fn load(&mut self, source: Option<&str>) -> (r: Result<(), PersistenceError>)
        ensures
            final(self).log() == old(self).log(),
            final(self).keeps() == old(self).keeps(),
            final(self).always_accepts() == old(self).always_accepts(),
            r is Err ==> final(self).replay() == old(self).replay(),
    ;

    /// Appends records to the replay data.  An implementation that
    /// keeps nothing discards them.
    fn import(&mut self, data_to_import: &Vec<QuestionAnswer>)
        ensures
            final(self).log() == old(self).log(),
            final(self).keeps() == old(self).keeps(),
            final(self).always_accepts() == old(self).always_accepts(),
            final(self).replay() == old(self).replay() + data_to_import@ || final(self).replay()
                == old(self).replay(),
    ;

    /// Consumes and yields the next replay record, if any.
    fn next_answer(&mut self) -> (r: Option<QuestionAnswer>)
        ensures
            final(self).log() == old(self).log(),
            final(self).keeps() == old(self).keeps(),
            final(self).always_accepts() == old(self).always_accepts(),
            old(self).replay().len() == 0 ==> r is None && final(self).replay() == old(self).replay(),
            old(self).replay().len() > 0 ==> r == Some(old(self).replay()[0])
                && final(self).replay() == old(self).replay().drop_first(),
    ;

    /// Yields the id of the next replay record without consuming it.
    fn next_answer_id(&mut self) -> (r: Option<String>)
        ensures
            final(self).log() == old(self).log(),
            final(self).keeps() == old(self).keeps(),
            final(self).always_accepts() == old(self).always_accepts(),
            final(self).replay() == old(self).replay(),
            old(self).replay().len() == 0 ==> r is None,
            old(self).replay().len() > 0 ==> (r matches Some(id) && id@ == old(self).replay()[0].id@),
    ;
}

/// A persistence that keeps nothing: answers are discarded and there is
/// never anything to replay.
#[derive(Debug)]
pub struct NoPersistence {}

impl NoPersistence {
    /// A persistence that keeps nothing.
    pub fn new() -> (r: NoPersistence)
        ensures
            r.replay() == Seq::<QuestionAnswer>::empty(),
            r.log() == Seq::<QuestionAnswer>::empty(),
    {
        NoPersistence {  }
    }
}

impl QuestionairePersistence for NoPersistence {
    closed spec fn replay(&self) -> Seq<QuestionAnswer> {
        Seq::empty()
    }

    closed spec fn log(&self) -> Seq<QuestionAnswer> {
        Seq::empty()
    }

    open spec fn keeps(&self) -> bool {
        false
    }

    open spec fn always_accepts(&self) -> bool {
        true
    }

    fn store_question(&mut self, entry: &QuestionEntry, data: &QuestionAnswerInput) -> (r: Result<
        (),
        PersistenceError,
    >) {
        Ok(())
    }

    fn load(&mut self, source: Option<&str>) -> (r: Result<(), PersistenceError>)
        ensures
            r is Err,
    {
        Err(PersistenceError::NotSupported)
    }

    fn import(&mut self, data_to_import: &Vec<QuestionAnswer>) {
    }

    fn next_answer(&mut self) -> (r: Option<QuestionAnswer>) {
        None
    }

    fn next_answer_id(&mut self) -> (r: Option<String>) {
        None
    }
}

/// A persistence that keeps everything in memory: the stored answers in
/// an ordered list, and the replay records behind a read cursor.  The
/// layer that owns the on-disk log loads its records in here and writes
/// the stored answers out.
#[derive(Debug)]
pub struct MemoryPersistence {
    data: Vec<QuestionAnswer>,
    current_pos: usize,
    stored: Vec<QuestionAnswer>,
}

impl MemoryPersistence {
    #[verifier::type_invariant]
    spec fn wf(&self) -> bool {
        self.current_pos <= self.data@.len()
    }

    /// An empty persistence: nothing to replay, nothing stored.
    pub fn new() -> (r: MemoryPersistence)
        ensures
            r.replay() == Seq::<QuestionAnswer>::empty(),
            r.log() == Seq::<QuestionAnswer>::empty(),
    {
        MemoryPersistence { data: Vec::new(), current_pos: 0, stored: Vec::new() }
    }

    /// The records stored in this session, for the owner to write out.
    pub fn stored(&self) -> (r: &Vec<QuestionAnswer>)
        ensures
            r@ == self.log(),
    {
        &self.stored
    }
}

impl QuestionairePersistence for MemoryPersistence {
    closed spec fn replay(&self) -> Seq<QuestionAnswer> {
        if self.current_pos <= self.data@.len() {
            self.data@.skip(self.current_pos as int)
        } else {
            Seq::empty()
        }
    }

    closed spec fn log(&self) -> Seq<QuestionAnswer> {
        self.stored@
    }

    open spec fn keeps(&self) -> bool {
        true
    }

    open spec fn always_accepts(&self) -> bool {
        true
    }

    fn store_question(&mut self, entry: &QuestionEntry, data: &QuestionAnswerInput) -> (r: Result<
        (),
        PersistenceError,
    >)
        ensures
            r is Ok,
            final(self).log() == old(self).log().push(
                (QuestionAnswer { id: entry.id, answer: *data }),
            ),
    {
        proof {
            use_type_invariant(&*self);
        }
        let rec = QuestionAnswer { id: entry.id.clone(), answer: data.clone() };
        let mut stored: Vec<QuestionAnswer> = Vec::new();
        core::mem::swap(&mut stored, &mut self.stored);
        stored.push(rec);
        core::mem::swap(&mut stored, &mut self.stored);
        Ok(())
    }

    fn load(&mut self, source: Option<&str>) -> (r: Result<(), PersistenceError>)
        ensures
            r is Err,
            *final(self) == *old(self),
    {
        match source {
            Some(_) => Err(PersistenceError::NotSupported),
            None => Err(PersistenceError::NoSource),
        }
    }

    fn import(&mut self, data_to_import: &Vec<QuestionAnswer>)
        ensures
            final(self).replay() == old(self).replay() + data_to_import@,
    {
        proof {
            use_type_invariant(&*self);
        }
        let n = data_to_import.len();
        let saved_pos = self.current_pos;
        self.current_pos = 0;
        let mut data: Vec<QuestionAnswer> = Vec::new();
        core::mem::swap(&mut data, &mut self.data);
        let mut i: usize = 0;
        while i < n
            invariant
                n == data_to_import@.len(),
                i <= n,
                data@ =~= old(self).data@ + data_to_import@.subrange(0, i as int),
            decreases n - i,
        {
            data.push(data_to_import[i].clone());
            i = i + 1;
            proof {
                assert(data@ =~= old(self).data@ + data_to_import@.subrange(0, i as int));
            }
        }
        core::mem::swap(&mut data, &mut self.data);
        self.current_pos = saved_pos;
        proof {
            assert(data_to_import@.subrange(0, n as int) =~= data_to_import@);
            assert(self.data@.skip(self.current_pos as int) =~= old(self).data@.skip(
                old(self).current_pos as int,
            ) + data_to_import@);
        }
    }

    fn next_answer(&mut self) -> (r: Option<QuestionAnswer>) {
        proof {
            use_type_invariant(&*self);
        }
        if self.current_pos < self.data.len() {
            let e = self.data[self.current_pos].clone();
            self.current_pos = self.current_pos + 1;
            proof {
                assert(self.data@.skip(self.current_pos as int) =~= old(self).replay(
                ).drop_first());
            }
            Some(e)
        } else {
            None
        }
    }

    fn next_answer_id(&mut self) -> (r: Option<String>) {
        if self.current_pos < self.data.len() {
            Some(self.data[self.current_pos].id.clone())
        } else {
            None
        }
    }
}

/// Where the first separator of a log line stands: the smallest index
/// at or after `i` holding `=`, or `-1` when there is none.
pub open spec fn eq_sign_pos_from(s: Seq<char>, i: int) -> int
    decreases s.len() - i,
{
    if i < 0 || i >= s.len() {
        -1
    } else if s[i] == '=' {
        i
    } else {
        eq_sign_pos_from(s, i + 1)
    }
}

/// Frames one log line: the id, a separator, and the payload.
pub fn join_answer_line(id: &str, payload: &str) -> (r: String)
    ensures
        r@ == id@ + seq!['='] + payload@,
{
    proof {
        reveal_strlit("=");
    }
    let mut s = id.to_owned();
    s.append("=");
    s.append(payload);
    s
}

/// Splits one log line at its first separator: the text before the
/// first `=` is the id, everything after it is the payload.  A line
/// without a separator is no record.
pub fn split_answer_line(line: &str) -> (r: Option<(String, String)>)
    ensures
        eq_sign_pos_from(line@, 0) < 0 ==> r is None,
        eq_sign_pos_from(line@, 0) >= 0 ==> (r matches Some(parts) && parts.0@ == line@.subrange(
            0,
            eq_sign_pos_from(line@, 0),
        ) && parts.1@ == line@.subrange(eq_sign_pos_from(line@, 0) + 1, line@.len() as int)),
{
    let n = line.unicode_len();
    let mut i: usize = 0;
    while i < n
        invariant
            i <= n,
            n == line@.len(),
            eq_sign_pos_from(line@, 0) == eq_sign_pos_from(line@, i as int),
            forall|j: int| 0 <= j < i ==> line@[j] != '=',
        decreases n - i,
    {
        let c = line.get_char(i);
        if c == '=' {
            let id_part = line.substring_char(0, i).to_owned();
            let payload_part = line.substring_char(i + 1, n).to_owned();
            return Some((id_part, payload_part));
        }
        i = i + 1;
    }
    None
}

/// Framing and splitting are inverse: a line framed from an id without
/// a separator in it splits back into the same id and payload.
pub proof fn lemma_log_line_round_trip(id: Seq<char>, payload: Seq<char>)
    requires
        forall|i: int| 0 <= i < id.len() ==> id[i] != '=',
    ensures
        eq_sign_pos_from(id + seq!['='] + payload, 0) == id.len(),
        (id + seq!['='] + payload).subrange(0, id.len() as int) == id,
        (id + seq!['='] + payload).subrange(
            id.len() as int + 1,
            (id + seq!['='] + payload).len() as int,
        ) == payload,
{
    let line = id + seq!['='] + payload;
    lemma_eq_pos_scan(line, id.len() as int, 0);
    assert(line.subrange(0, id.len() as int) =~= id);
    assert(line.subrange(id.len() as int + 1, line.len() as int) =~= payload);
}

/// Scanning for the separator from any index before it finds it.
proof fn lemma_eq_pos_scan(line: Seq<char>, p: int, i: int)
    requires
        0 <= i <= p < line.len(),
        line[p] == '=',
        forall|j: int| 0 <= j < p ==> line[j] != '=',
    ensures
        eq_sign_pos_from(line, i) == p,
    decreases p - i,
{
    if i < p {
        lemma_eq_pos_scan(line, p, i + 1);
    }
}

} // verus!
