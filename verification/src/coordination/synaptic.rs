//! The reference DAG fabric and node registry.
//!
//! It models the two things self-healing depends on:
//!
//! * a committed DAG log (append-only): the durable state that must survive node churn, and
//! * the inbox of undelivered entries a returning node drains to resync (replay). Every published
//!   entry is committed and queued for delivery in the same order, so the inbox always holds the
//!   tail of the committed log, by value.
//!
//! The live district membership is kept as a set of node names, listed in lexicographic order.
//! There is, by construction, no remote-call path: only `publish` and `next_event`.

use vstd::prelude::*;

use std::collections::VecDeque;

use crate::consensus::DagEntry;
use crate::ids::NodeId;
use crate::text::{
    lemma_lex_irreflexive, lemma_lex_total, lemma_lex_transitive, lex_less, same_text, text_less,
};

verus! {

/// Each name is below every later one: sorted, hence without repeats.
pub open spec fn strictly_sorted(s: Seq<Seq<char>>) -> bool {
    forall|i: int, j: int| 0 <= i < j < s.len() ==> lex_less(#[trigger] s[i], #[trigger] s[j])
}

/// The names of a sequence of node ids.
pub open spec fn names(nodes: Seq<NodeId>) -> Seq<Seq<char>> {
    nodes.map_values(|n: NodeId| n@)
}

/// The values of a sequence of entries.
pub open spec fn entry_values(entries: Seq<DagEntry>) -> Seq<
    (crate::consensus::AgreementValue, Option<Seq<u8>>),
> {
    entries.map_values(|e: DagEntry| e@)
}

/// `after` is `before` once its oldest undelivered entry, if any, was delivered as `r`: the
/// committed log and the members are untouched.
pub open spec fn delivered_next(
    before: SynapticMeshAdapter,
    after: SynapticMeshAdapter,
    r: Option<DagEntry>,
) -> bool {
    &&& after.well_formed()
    &&& after.committed_log() == before.committed_log()
    &&& after.members() == before.members()
    &&& before.pending_entries().len() == 0 ==> r is None && after.pending_entries()
        == before.pending_entries()
    &&& before.pending_entries().len() > 0 ==> (r matches Some(e) && e@
        == before.pending_entries()[0]@) && after.pending_entries()
        == before.pending_entries().drop_first()
}

/// `after` is `before` with `node` marked live: the committed log and the undelivered entries
/// are untouched.
pub open spec fn marked_up(before: SynapticMeshAdapter, after: SynapticMeshAdapter, node: NodeId) -> bool {
    &&& after.well_formed()
    &&& names(after.members()).to_set() == names(before.members()).to_set().insert(node@)
    &&& after.committed_log() == before.committed_log()
    &&& after.pending_entries() == before.pending_entries()
}

/// `after` is `before` with `node` marked down: the committed log and the undelivered entries
/// are untouched.
pub open spec fn marked_down(
    before: SynapticMeshAdapter,
    after: SynapticMeshAdapter,
    node: NodeId,
) -> bool {
    &&& after.well_formed()
    &&& names(after.members()).to_set() == names(before.members()).to_set().remove(node@)
    &&& after.committed_log() == before.committed_log()
    &&& after.pending_entries() == before.pending_entries()
}

/// `after` is `before` with `entry` published: committed durably at the end of the log and
/// queued for delivery after the undelivered entries; the members are untouched.
pub open spec fn published(before: SynapticMeshAdapter, after: SynapticMeshAdapter, entry: DagEntry) -> bool {
    &&& after.well_formed()
    &&& after.committed_log() == before.committed_log().push(entry)
    &&& entry_values(after.pending_entries()) == entry_values(before.pending_entries()).push(entry@)
    &&& after.members() == before.members()
}

/// The values of the entries a drain delivered: every answer but the final `None`.
pub open spec fn replayed_values(answers: Seq<Option<DagEntry>>) -> Seq<
    (crate::consensus::AgreementValue, Option<Seq<u8>>),
> {
    answers.take(answers.len() - 1).map_values(|a: Option<DagEntry>| a->0@)
}

/// `answers` is a drain of the fabric states `states`: each answer is one delivery between
/// consecutive states, every answer but the last is an entry, and the last is `None`.
pub open spec fn drains(states: Seq<SynapticMeshAdapter>, answers: Seq<Option<DagEntry>>) -> bool {
    &&& answers.len() >= 1
    &&& states.len() == answers.len() + 1
    &&& forall|i: int| 0 <= i < answers.len() ==> delivered_next(
        #[trigger] states[i],
        states[i + 1],
        answers[i],
    )
    &&& forall|i: int| 0 <= i < answers.len() - 1 ==> #[trigger] answers[i] is Some
    &&& answers.last() is None
}

/// An empty inbox is the (empty) tail of any committed log.
proof fn lemma_empty_tail(committed: Seq<DagEntry>)
    ensures
        entry_values(Seq::<DagEntry>::empty()) == entry_values(committed).skip(
            committed.len() - 0,
        ),
{
    assert(entry_values(Seq::<DagEntry>::empty()) =~= entry_values(committed).skip(
        committed.len() - 0,
    ));
}

/// The reference fabric and registry.
pub struct SynapticMeshAdapter {
    committed: Vec<DagEntry>,
    inbox: VecDeque<DagEntry>,
    live: Vec<NodeId>,
}

impl SynapticMeshAdapter {
    /// The fabric's invariant: the inbox holds, by value, the tail of the committed log, and the
    /// members are listed in strictly increasing name order.
    #[verifier::type_invariant]
    pub closed spec fn well_formed(&self) -> bool {
        &&& self.inbox@.len() <= self.committed@.len()
        &&& entry_values(self.inbox@) == entry_values(self.committed@).skip(
            self.committed@.len() - self.inbox@.len(),
        )
        &&& strictly_sorted(names(self.live@))
    }

    /// The committed DAG log, oldest first.
    pub closed spec fn committed_log(&self) -> Seq<DagEntry> {
        self.committed@
    }

    /// The entries not delivered yet, in delivery order.
    pub closed spec fn pending_entries(&self) -> Seq<DagEntry> {
        self.inbox@
    }

    /// The live members, in lexicographic order of their names.
    pub closed spec fn members(&self) -> Seq<NodeId> {
        self.live@
    }

    /// A fabric with nothing committed and no live member.
    pub fn new() -> (r: SynapticMeshAdapter)
        ensures
            r.well_formed(),
            r.committed_log() == Seq::<DagEntry>::empty(),
            r.pending_entries() == Seq::<DagEntry>::empty(),
            r.members() == Seq::<NodeId>::empty(),
    {
        proof {
            lemma_empty_tail(Seq::<DagEntry>::empty());
        }
        SynapticMeshAdapter { committed: Vec::new(), inbox: VecDeque::new(), live: Vec::new() }
    }

    /// Commit `entry` durably and queue it for delivery.
    pub fn publish(&mut self, entry: DagEntry)
        ensures
            published(*old(self), *final(self), entry),
    {
        proof {
            use_type_invariant(&*self);
        }
        let ghost old_committed = self.committed@;
        let ghost old_inbox = self.inbox@;
        let mut inbox: VecDeque<DagEntry> = VecDeque::new();
        proof {
            lemma_empty_tail(self.committed@);
            lemma_empty_tail(Seq::<DagEntry>::empty());
        }
        std::mem::swap(&mut inbox, &mut self.inbox);
        let mut committed: Vec<DagEntry> = Vec::new();
        std::mem::swap(&mut committed, &mut self.committed);
        let queued = entry.clone();
        committed.push(entry);
        inbox.push_back(queued);
        proof {
            lemma_empty_tail(committed@);
        }
        self.committed = committed;
        proof {
            let n = old_committed.len();
            let m = old_inbox.len();
            assert(entry_values(self.committed@) =~= entry_values(old_committed).push(
                self.committed@[n as int]@,
            ));
            assert(entry_values(inbox@) =~= entry_values(old_inbox).push(queued@));
            assert(entry_values(inbox@) =~= entry_values(self.committed@).skip(
                self.committed@.len() - inbox@.len(),
            ));
        }
        self.inbox = inbox;
    }

    /// Deliver the oldest undelivered entry, if any. The committed log is untouched.
    pub fn next_event(&mut self) -> (r: Option<DagEntry>)
        ensures
            delivered_next(*old(self), *final(self), r),
    {
        proof {
            use_type_invariant(&*self);
        }
        let ghost old_inbox = self.inbox@;
        let mut inbox: VecDeque<DagEntry> = VecDeque::new();
        proof {
            lemma_empty_tail(self.committed@);
        }
        std::mem::swap(&mut inbox, &mut self.inbox);
        let r = inbox.pop_front();
        proof {
            if old_inbox.len() > 0 {
                assert(inbox@ =~= old_inbox.drop_first());
                assert(entry_values(inbox@) =~= entry_values(old_inbox).drop_first());
                assert(entry_values(inbox@) =~= entry_values(self.committed@).skip(
                    self.committed@.len() - inbox@.len(),
                ));
            }
        }
        self.inbox = inbox;
        r
    }

    /// Number of entries still undelivered (awaiting resync).
    pub fn pending(&self) -> (r: usize)
        ensures
            r == self.pending_entries().len(),
            entry_values(self.pending_entries()) == entry_values(self.committed_log()).skip(
                self.committed_log().len() - self.pending_entries().len(),
            ),
    {
        proof {
            use_type_invariant(self);
        }
        self.inbox.len()
    }

    /// A copy of the committed DAG log: what survivors retain across churn.
    pub fn committed(&self) -> (r: Vec<DagEntry>)
        ensures
            entry_values(r@) == entry_values(self.committed_log()),
    {
        let mut out: Vec<DagEntry> = Vec::new();
        let mut i: usize = 0;
        while i < self.committed.len()
            invariant
                i <= self.committed@.len(),
                out@.len() == i,
                forall|k: int| 0 <= k < i ==> (#[trigger] out@[k])@ == self.committed@[k]@,
            decreases self.committed.len() - i,
        {
            out.push(self.committed[i].clone());
            i = i + 1;
        }
        assert(entry_values(out@) =~= entry_values(self.committed@));
        out
    }

    /// Find the position of the first member not below `name`.
    fn position_of(&self, name: &str) -> (r: usize)
        ensures
            r <= self.members().len(),
            forall|j: int| 0 <= j < r ==> lex_less(#[trigger] self.members()[j]@, name@),
            r < self.members().len() ==> !lex_less(self.members()[r as int]@, name@),
    {
        let mut i: usize = 0;
        while i < self.live.len() && text_less(self.live[i].as_str(), name)
            invariant
                i <= self.live@.len(),
                forall|j: int| 0 <= j < i ==> lex_less(#[trigger] self.live@[j]@, name@),
            decreases self.live.len() - i,
        {
            i = i + 1;
        }
        i
    }

    /// Mark `node` live. The other members and the committed log are untouched.
    pub fn mark_up(&mut self, node: NodeId)
        ensures
            marked_up(*old(self), *final(self), node),
    {
        proof {
            use_type_invariant(&*self);
        }
        let i = self.position_of(node.as_str());
        let ghost old_names = names(self.live@);
        if i < self.live.len() && same_text(self.live[i].as_str(), node.as_str()) {
            assert(old_names[i as int] == node@);
            assert(old_names.to_set() =~= old_names.to_set().insert(node@));
            return;
        }
        proof {
            if i < self.live@.len() {
                lemma_lex_total(self.live@[i as int]@, node@);
            }
        }
        let ghost nv = node@;
        let mut live: Vec<NodeId> = Vec::new();
        std::mem::swap(&mut live, &mut self.live);
        live.insert(i, node);
        let ghost new_names = names(live@);
        proof {
            assert(new_names =~= old_names.insert(i as int, nv));
            assert forall|a: int, b: int| 0 <= a < b < new_names.len() implies lex_less(
                #[trigger] new_names[a],
                #[trigger] new_names[b],
            ) by {
                if b < i {
                    assert(new_names[a] == old_names[a] && new_names[b] == old_names[b]);
                } else if b == i {
                    assert(new_names[a] == old_names[a]);
                } else if a == i {
                    assert(new_names[b] == old_names[b - 1]);
                    if b - 1 > i {
                        assert(lex_less(old_names[i as int], old_names[b - 1]));
                        lemma_lex_transitive(nv, old_names[i as int], old_names[b - 1]);
                    }
                } else if a < i {
                    assert(new_names[a] == old_names[a] && new_names[b] == old_names[b - 1]);
                    if a < b - 1 {
                    } else {
                        assert(false);
                    }
                } else {
                    assert(new_names[a] == old_names[a - 1] && new_names[b] == old_names[b - 1]);
                }
            }
            assert(new_names.to_set() =~= old_names.to_set().insert(nv)) by {
                assert forall|x: Seq<char>| new_names.to_set().contains(x) implies old_names.to_set().insert(
                    nv,
                ).contains(x) by {
                    let k = choose|k: int| 0 <= k < new_names.len() && new_names[k] == x;
                    if k < i {
                        assert(old_names[k] == x);
                    } else if k > i {
                        assert(old_names[k - 1] == x);
                    }
                }
                assert forall|x: Seq<char>| old_names.to_set().insert(nv).contains(
                    x,
                ) implies new_names.to_set().contains(x) by {
                    if x == nv {
                        assert(new_names[i as int] == x);
                    } else {
                        let k = choose|k: int| 0 <= k < old_names.len() && old_names[k] == x;
                        if k < i {
                            assert(new_names[k] == x);
                        } else {
                            assert(new_names[k + 1] == x);
                        }
                    }
                }
            }
        }
        self.live = live;
    }

    /// Mark `node` down. The other members and the committed log are untouched.
    pub fn mark_down(&mut self, node: NodeId)
        ensures
            marked_down(*old(self), *final(self), node),
    {
        proof {
            use_type_invariant(&*self);
        }
        let ghost old_names = names(self.live@);
        let mut i: usize = 0;
        let mut found = false;
        while i < self.live.len() && !found
            invariant
                i <= self.live@.len(),
                old_names == names(self.live@),
                found ==> i < self.live@.len() && self.live@[i as int]@ == node@,
                !found ==> forall|j: int| 0 <= j < i ==> (#[trigger] self.live@[j])@ != node@,
            decreases self.live.len() - i, (if found { 0int } else { 1int }),
        {
            if same_text(self.live[i].as_str(), node.as_str()) {
                found = true;
            } else {
                i = i + 1;
            }
        }
        if !found {
            assert(old_names.to_set() =~= old_names.to_set().remove(node@)) by {
                assert forall|x: Seq<char>| old_names.to_set().contains(x) implies x != node@ by {
                    let k = choose|k: int| 0 <= k < old_names.len() && old_names[k] == x;
                    assert(self.live@[k]@ == x);
                }
            }
            return;
        }
        assert(old_names[i as int] == node@);
        let mut live: Vec<NodeId> = Vec::new();
        std::mem::swap(&mut live, &mut self.live);
        live.remove(i);
        let ghost new_names = names(live@);
        proof {
            assert(new_names =~= old_names.remove(i as int));
            assert forall|a: int, b: int| 0 <= a < b < new_names.len() implies lex_less(
                #[trigger] new_names[a],
                #[trigger] new_names[b],
            ) by {
                if b < i {
                } else if a < i {
                    assert(new_names[b] == old_names[b + 1]);
                } else {
                    assert(new_names[a] == old_names[a + 1] && new_names[b] == old_names[b + 1]);
                }
            }
            assert(new_names.to_set() =~= old_names.to_set().remove(node@)) by {
                assert forall|x: Seq<char>| new_names.to_set().contains(x) implies old_names.to_set().remove(
                    node@,
                ).contains(x) by {
                    let k = choose|k: int| 0 <= k < new_names.len() && new_names[k] == x;
                    if k < i {
                        assert(old_names[k] == x);
                        assert(lex_less(old_names[k], old_names[i as int]));
                        lemma_lex_irreflexive(x);
                    } else {
                        assert(old_names[k + 1] == x);
                        assert(lex_less(old_names[i as int], old_names[k + 1]));
                        lemma_lex_irreflexive(x);
                    }
                }
                assert forall|x: Seq<char>| old_names.to_set().remove(node@).contains(
                    x,
                ) implies new_names.to_set().contains(x) by {
                    let k = choose|k: int| 0 <= k < old_names.len() && old_names[k] == x;
                    if k < i {
                        assert(new_names[k] == x);
                    } else {
                        assert(k != i);
                        assert(new_names[k - 1] == x);
                    }
                }
            }
        }
        self.live = live;
    }

    /// The live members, in lexicographic order of their names.
    pub fn live(&self) -> (r: Vec<NodeId>)
        ensures
            r@ == self.members(),
            strictly_sorted(names(r@)),
    {
        proof {
            use_type_invariant(self);
        }
        let mut out: Vec<NodeId> = Vec::new();
        let mut i: usize = 0;
        while i < self.live.len()
            invariant
                i <= self.live@.len(),
                out@ == self.live@.subrange(0, i as int),
            decreases self.live.len() - i,
        {
            out.push(self.live[i].clone());
            i = i + 1;
        }
        assert(out@ =~= self.live@);
        out
    }
}

/// A drain delivers exactly the undelivered entries, in order, and leaves the committed log as
/// it was.
pub proof fn lemma_drain(states: Seq<SynapticMeshAdapter>, answers: Seq<Option<DagEntry>>)
    requires
        states[0].well_formed(),
        drains(states, answers),
    ensures
        states.last().committed_log() == states[0].committed_log(),
        replayed_values(answers) == entry_values(states[0].pending_entries()),
    decreases answers.len(),
{
    let p = states[0].pending_entries();
    assert(delivered_next(states[0], states[1], answers[0]));
    if answers.len() == 1 {
        assert(p.len() == 0);
        assert(replayed_values(answers) =~= entry_values(p));
    } else {
        assert(answers[0] is Some);
        assert(p.len() > 0);
        let rest_states = states.drop_first();
        let rest_answers = answers.drop_first();
        assert forall|i: int| 0 <= i < rest_answers.len() implies delivered_next(
            #[trigger] rest_states[i],
            rest_states[i + 1],
            rest_answers[i],
        ) by {
            assert(delivered_next(states[i + 1], states[i + 2], answers[i + 1]));
        }
        assert forall|i: int| 0 <= i < rest_answers.len() - 1 implies #[trigger] rest_answers[i] is Some by {
            assert(answers[i + 1] is Some);
        }
        assert(rest_answers.last() == answers.last());
        lemma_drain(rest_states, rest_answers);
        assert(rest_states[0].pending_entries() == p.drop_first());
        assert(replayed_values(answers) =~= seq![answers[0]->0@] + replayed_values(rest_answers));
        assert(entry_values(p) =~= seq![p[0]@] + entry_values(p.drop_first()));
    }
}

/// Law: node churn never loses committed state, and a returning node converges. Marking a node
/// down and then up leaves the committed log and the undelivered entries as they were, and
/// draining the fabric afterwards delivers exactly the undelivered entries, in commit order (all
/// of the committed log when nothing had been delivered yet), with the committed log still intact.
pub proof fn law_churn_keeps_committed_and_resync_converges(
    before: SynapticMeshAdapter,
    down: SynapticMeshAdapter,
    up: SynapticMeshAdapter,
    node: NodeId,
    states: Seq<SynapticMeshAdapter>,
    answers: Seq<Option<DagEntry>>,
)
    requires
        before.well_formed(),
        marked_down(before, down, node),
        marked_up(down, up, node),
        drains(states, answers),
        states[0] == up,
    ensures
        up.committed_log() == before.committed_log(),
        states.last().committed_log() == before.committed_log(),
        replayed_values(answers) == entry_values(before.pending_entries()),
        entry_values(before.pending_entries()) == entry_values(before.committed_log())
            ==> replayed_values(answers) == entry_values(before.committed_log()),
        names(up.members()).to_set() == names(before.members()).to_set().insert(node@),
{
    lemma_drain(states, answers);
    assert(names(up.members()).to_set() =~= names(before.members()).to_set().insert(node@));
}

/// Law: the inbox is first in, first out, and draining never shrinks the log. Publishing an
/// entry and then draining the fabric delivers the entries that were undelivered before, in
/// order, and then the new entry; the committed log ends as it was with the entry appended.
pub proof fn law_publish_then_drain(
    before: SynapticMeshAdapter,
    after: SynapticMeshAdapter,
    entry: DagEntry,
    states: Seq<SynapticMeshAdapter>,
    answers: Seq<Option<DagEntry>>,
)
    requires
        before.well_formed(),
        published(before, after, entry),
        drains(states, answers),
        states[0] == after,
    ensures
        replayed_values(answers) == entry_values(before.pending_entries()).push(entry@),
        states.last().committed_log() == before.committed_log().push(entry),
{
    lemma_drain(states, answers);
}

/// Law: on a fresh fabric, every published entry stays undelivered until drained. After
/// publishing `entries` one by one on a fabric with nothing committed, the committed log is
/// exactly those entries, and the undelivered entries are the whole log, by value.
pub proof fn law_fresh_publishes_are_all_pending(
    states: Seq<SynapticMeshAdapter>,
    entries: Seq<DagEntry>,
)
    requires
        states.len() == entries.len() + 1,
        states[0].committed_log() == Seq::<DagEntry>::empty(),
        states[0].pending_entries() == Seq::<DagEntry>::empty(),
        forall|i: int| 0 <= i < entries.len() ==> published(#[trigger] states[i], states[i + 1], entries[i]),
    ensures
        states.last().committed_log() == entries,
        entry_values(states.last().pending_entries()) == entry_values(states.last().committed_log()),
    decreases entries.len(),
{
    if entries.len() == 0 {
        assert(states.last().committed_log() =~= entries);
        assert(entry_values(states.last().pending_entries()) =~= entry_values(
            states.last().committed_log(),
        ));
    } else {
        let k = entries.len() - 1;
        let prev_states = states.drop_last();
        let prev_entries = entries.drop_last();
        assert forall|i: int| 0 <= i < prev_entries.len() implies published(
            #[trigger] prev_states[i],
            prev_states[i + 1],
            prev_entries[i],
        ) by {
            assert(published(states[i], states[i + 1], entries[i]));
        }
        law_fresh_publishes_are_all_pending(prev_states, prev_entries);
        assert(published(states[k], states[k + 1], entries[k]));
        assert(states.last().committed_log() =~= entries);
        assert(entry_values(states[k + 1].committed_log()) =~= entry_values(
            states[k].committed_log(),
        ).push(entries[k]@));
    }
}

} // verus!
