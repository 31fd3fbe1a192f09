//! Position numbering: a build-time pass that walks the entry list in
//! depth-first pre-order and gives every question, repeated question and
//! block the next free 1-based position number.  A block takes one slot
//! for its own start prompt and its children continue the same counter.
//! The positions of a finished tree are exactly `1 ..= pos_count`, each
//! used once, which is what the progress display relies on.

use vstd::prelude::*;

use crate::entries::QuestionaireEntry;
use crate::entries::Questionaire;
use crate::entries::SubBlock;
use crate::entries::entries_height_from;
use crate::entries::entry_height;
use crate::entries::lemma_entries_height_from_bound;

verus! {

/// How many position slots one tree node takes: one for a question or a
/// repeated question, and one plus its children's slots for a block.
pub open spec fn entry_slots(e: QuestionaireEntry) -> nat
    decreases e,
{
    match e {
        QuestionaireEntry::Block(b) => 1 + entries_slots_from(b.entries@, 0),
        QuestionaireEntry::Question(_) => 1,
        QuestionaireEntry::RepeatedQuestion(_) => 1,
    }
}

/// Position slots taken by the entries of `s` from index `i` on.
pub open spec fn entries_slots_from(s: Seq<QuestionaireEntry>, i: int) -> nat
    decreases s, s.len() - i,
{
    if i < 0 || i >= s.len() {
        0
    } else {
        entry_slots(s[i]) + entries_slots_from(s, i + 1)
    }
}

/// Position slots taken by all entries of `s`.
pub open spec fn entries_slots(s: Seq<QuestionaireEntry>) -> nat {
    entries_slots_from(s, 0)
}

/// The position marker of a block, or `-1` while none is assigned.
pub open spec fn opt_pos_val(p: Option<usize>) -> int {
    match p {
        Some(v) => v as int,
        None => -1,
    }
}

/// The positions of one tree node in depth-first pre-order.
pub open spec fn entry_positions(e: QuestionaireEntry) -> Seq<int>
    decreases e,
{
    match e {
        QuestionaireEntry::Block(b) => seq![opt_pos_val(b.pos)] + entries_positions_from(
            b.entries@,
            0,
        ),
        QuestionaireEntry::Question(q) => seq![q.pos as int],
        QuestionaireEntry::RepeatedQuestion(rq) => seq![rq.pos as int],
    }
}

/// The positions of the entries of `s` from index `i` on, in pre-order.
pub open spec fn entries_positions_from(s: Seq<QuestionaireEntry>, i: int) -> Seq<int>
    decreases s, s.len() - i,
{
    if i < 0 || i >= s.len() {
        Seq::empty()
    } else {
        entry_positions(s[i]) + entries_positions_from(s, i + 1)
    }
}

/// The positions of all entries of `s`, in pre-order.
pub open spec fn entries_positions(s: Seq<QuestionaireEntry>) -> Seq<int> {
    entries_positions_from(s, 0)
}

/// Whether two tree nodes agree on everything but their positions.
pub open spec fn entry_same_shape(a: QuestionaireEntry, b: QuestionaireEntry) -> bool
    decreases a,
{
    match (a, b) {
        (QuestionaireEntry::Question(x), QuestionaireEntry::Question(y)) => {
            &&& x.id == y.id
            &&& x.required == y.required
            &&& x.query_text == y.query_text
            &&& x.help_text == y.help_text
            &&& x.entry_type == y.entry_type
        },
        (QuestionaireEntry::RepeatedQuestion(x), QuestionaireEntry::RepeatedQuestion(y)) => {
            &&& x.id == y.id
            &&& x.min_count == y.min_count
            &&& x.max_count == y.max_count
            &&& x.query_text == y.query_text
            &&& x.secondary_query_text == y.secondary_query_text
            &&& x.help_text == y.help_text
            &&& x.entry_type == y.entry_type
        },
        (QuestionaireEntry::Block(x), QuestionaireEntry::Block(y)) => {
            &&& x.id == y.id
            &&& x.start_text == y.start_text
            &&& x.end_text == y.end_text
            &&& x.help_text == y.help_text
            &&& x.loop_over_entries == y.loop_over_entries
            &&& x.entries@.len() == y.entries@.len()
            &&& entries_same_shape_from(x.entries@, y.entries@, 0)
        },
        _ => false,
    }
}

/// Whether the entries of `a` and `b` agree pairwise, from index `i` on,
/// on everything but their positions.
pub open spec fn entries_same_shape_from(
    a: Seq<QuestionaireEntry>,
    b: Seq<QuestionaireEntry>,
    i: int,
) -> bool
    decreases a, a.len() - i,
{
    if i < 0 || i >= a.len() || a.len() != b.len() {
        true
    } else {
        entry_same_shape(a[i], b[i]) && entries_same_shape_from(a, b, i + 1)
    }
}

/// Whether `a` is `b` with positions assigned: same length and pairwise
/// the same shape.
pub open spec fn entries_same_shape(a: Seq<QuestionaireEntry>, b: Seq<QuestionaireEntry>) -> bool {
    a.len() == b.len() && entries_same_shape_from(a, b, 0)
}

/// Pairwise shape agreement on every index gives the recursive form.
proof fn lemma_same_shape_from_pointwise(
    a: Seq<QuestionaireEntry>,
    b: Seq<QuestionaireEntry>,
    i: int,
)
    requires
        a.len() == b.len(),
        0 <= i <= a.len(),
        forall|j: int| i <= j < a.len() ==> entry_same_shape(#[trigger] a[j], b[j]),
    ensures
        entries_same_shape_from(a, b, i),
    decreases a.len() - i,
{
    if i < a.len() {
        lemma_same_shape_from_pointwise(a, b, i + 1);
    }
}

/// Appending an entry appends its positions at the end.
proof fn lemma_positions_from_push(s: Seq<QuestionaireEntry>, x: QuestionaireEntry, i: int)
    requires
        0 <= i <= s.len(),
    ensures
        entries_positions_from(s.push(x), i) == entries_positions_from(s, i) + entry_positions(x),
    decreases s.len() - i,
{
    if i == s.len() {
        assert(s.push(x)[i] == x);
        assert(entries_positions_from(s.push(x), i + 1) =~= Seq::empty());
        assert(entries_positions_from(s.push(x), i) =~= entries_positions_from(s, i)
            + entry_positions(x));
    } else {
        assert(s.push(x)[i] == s[i]);
        lemma_positions_from_push(s, x, i + 1);
        assert(entries_positions_from(s.push(x), i) =~= entries_positions_from(s, i)
            + entry_positions(x));
    }
}

/// Assigns positions to every entry of `entries`, depth-first, starting
/// at `counter`.  Yields the assigned entries and the next free counter
/// value.  The assigned positions are exactly the run of `entry_slots`
/// many numbers from `counter` on, in pre-order, and nothing but the
/// positions changes.
#[verifier::loop_isolation(false)]
pub(crate) fn assign_entries(entries: Vec<QuestionaireEntry>, counter: usize) -> (r: (
    Vec<QuestionaireEntry>,
    usize,
))
    requires
        counter + entries_slots(entries@) <= usize::MAX,
    ensures
        r.1 == counter + entries_slots(entries@),
        entries_same_shape(r.0@, entries@),
        entries_positions(r.0@) == Seq::new(entries_slots(entries@), |k: int| counter + k),
    decreases entries_height_from(entries@, 0),
{
    let ghost orig = entries@;
    let mut v = entries;
    let mut res: Vec<QuestionaireEntry> = Vec::new();
    let mut c: usize = counter;
    while v.len() > 0
        invariant
            res@.len() <= orig.len(),
            v@ =~= orig.subrange(res@.len() as int, orig.len() as int),
            counter + entries_slots_from(orig, 0) <= usize::MAX,
            counter <= c,
            c == counter + entries_slots_from(orig, 0) - entries_slots_from(
                orig,
                res@.len() as int,
            ),
            entries_positions_from(res@, 0) =~= Seq::new((c - counter) as nat, |k: int| counter + k),
            forall|j: int|
                0 <= j < res@.len() ==> entry_same_shape(#[trigger] res@[j], orig[j]),
        decreases v@.len(),
    {
        let ghost i = res@.len() as int;
        proof {
            assert(entries_slots_from(orig, i) == entry_slots(orig[i]) + entries_slots_from(
                orig,
                i + 1,
            ));
        }
        let e = v.remove(0);
        proof {
            assert(e == orig[i]);
            assert(v@ =~= orig.subrange(i + 1, orig.len() as int));
        }
        match e {
            QuestionaireEntry::Question(q) => {
                let assigned = crate::entries::QuestionEntry { pos: c, ..q };
                proof {
                    lemma_positions_from_push(res@, QuestionaireEntry::Question(assigned), 0);
                    assert(entry_positions(QuestionaireEntry::Question(assigned)) =~= seq![
                        c as int
                    ]);
                }
                res.push(QuestionaireEntry::Question(assigned));
                c = c + 1;
                proof {
                    assert(entries_positions_from(res@, 0) =~= Seq::new(
                        (c - counter) as nat,
                        |k: int| counter + k,
                    ));
                }
            },
            QuestionaireEntry::RepeatedQuestion(rq) => {
                let assigned = crate::entries::RepeatedQuestionEntry { pos: c, ..rq };
                proof {
                    lemma_positions_from_push(
                        res@,
                        QuestionaireEntry::RepeatedQuestion(assigned),
                        0,
                    );
                    assert(entry_positions(QuestionaireEntry::RepeatedQuestion(assigned)) =~= seq![
                        c as int
                    ]);
                }
                res.push(QuestionaireEntry::RepeatedQuestion(assigned));
                c = c + 1;
                proof {
                    assert(entries_positions_from(res@, 0) =~= Seq::new(
                        (c - counter) as nat,
                        |k: int| counter + k,
                    ));
                }
            },
            QuestionaireEntry::Block(b) => {
                proof {
                    lemma_entries_height_from_bound(orig, 0, i);
                    assert(orig[i] == QuestionaireEntry::Block(b));
                    assert(entry_height(orig[i]) == 1 + entries_height_from(b.entries@, 0));
                }
                let SubBlock {
                    id,
                    pos: _,
                    start_text,
                    end_text,
                    help_text,
                    entries: sub_entries,
                    loop_over_entries,
                } = b;
                let (new_sub, next) = assign_entries(sub_entries, c + 1);
                let assigned = SubBlock {
                    id,
                    pos: Some(c),
                    start_text,
                    end_text,
                    help_text,
                    entries: new_sub,
                    loop_over_entries,
                };
                proof {
                    lemma_positions_from_push(res@, QuestionaireEntry::Block(assigned), 0);
                    assert(entry_positions(QuestionaireEntry::Block(assigned)) =~= Seq::new(
                        (next - c) as nat,
                        |k: int| c + k,
                    ));
                }
                res.push(QuestionaireEntry::Block(assigned));
                c = next;
                proof {
                    assert(entries_positions_from(res@, 0) =~= Seq::new(
                        (c - counter) as nat,
                        |k: int| counter + k,
                    ));
                }
            },
        }
    }
    proof {
        assert(res@.len() == orig.len());
        lemma_same_shape_from_pointwise(res@, orig, 0);
    }
    (res, c)
}


/// Whether a questionnaire carries a complete position assignment: the
/// pre-order positions of its tree are exactly `1 ..= pos_count`.
pub open spec fn positions_ok(q: Questionaire) -> bool {
    &&& q.pos_count is Some
    &&& entries_positions(q.init_block.entries@) == Seq::new(
        q.pos_count->0 as nat,
        |k: int| 1 + k,
    )
}

/// Position uniqueness: in a questionnaire with a complete position
/// assignment, the positions of the whole tree are distinct integers
/// from 1 to `pos_count` with no gaps: there are `pos_count` of them, no
/// two are equal, each lies in `1 ..= pos_count`, and every number in
/// that range is assigned.
pub proof fn lemma_position_uniqueness(q: Questionaire)
    requires
        positions_ok(q),
    ensures
        entries_positions(q.init_block.entries@).len() == q.pos_count->0,
        forall|i: int, j: int|
            0 <= i < j < entries_positions(q.init_block.entries@).len()
                ==> #[trigger] entries_positions(q.init_block.entries@)[i] != #[trigger] entries_positions(
                q.init_block.entries@,
            )[j],
        forall|i: int|
            0 <= i < entries_positions(q.init_block.entries@).len() ==> 1 <= #[trigger] entries_positions(
                q.init_block.entries@,
            )[i] <= q.pos_count->0,
        forall|p: int|
            1 <= p <= q.pos_count->0 ==> #[trigger] entries_positions(
                q.init_block.entries@,
            ).contains(p),
{
    let ps = entries_positions(q.init_block.entries@);
    let n = q.pos_count->0 as int;
    assert(forall|i: int| 0 <= i < n ==> ps[i] == 1 + i);
    assert forall|p: int| 1 <= p <= n implies #[trigger] ps.contains(p) by {
        assert(ps[p - 1] == p);
    }
}

} // verus!
