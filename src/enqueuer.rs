//! Turning registry change events into queue entries.
use vstd::prelude::*;
use crate::queue::{BuildQueue, QueueEntry, has_package};

verus! {

/// What happened to a package version in the registry.
#[derive(Clone, Copy, Debug, PartialEq, Eq, Structural)]
pub enum ChangeKind {
    Added,
    Yanked,
}

/// One registry change event.
#[derive(Debug)]
pub struct Change {
    pub name: String,
    pub version: String,
    pub kind: ChangeKind,
}

impl Change {
    /// A field-by-field copy.
    pub fn duplicate(&self) -> (r: Change)
        ensures
            r == *self,
    {
        Change { name: self.name.clone(), version: self.version.clone(), kind: self.kind }
    }
}

/// A package version as the queue knows it.
pub type PackageKey = (Seq<char>, Seq<char>);

pub open spec fn change_key(c: Change) -> PackageKey {
    (c.name@, c.version@)
}

pub open spec fn entry_key(e: QueueEntry) -> PackageKey {
    (e.name@, e.version@)
}

/// The package versions already present in `s`.
pub open spec fn keys_of(s: Seq<QueueEntry>) -> Set<PackageKey> {
    Set::new(|k: PackageKey| has_package(s, k.0, k.1))
}

/// The events to enqueue, in the order of enqueueing: the batch is walked
/// from its last event to its first, and yanked events are left out.
pub open spec fn pending_spec(s: Seq<Change>) -> Seq<Change>
    decreases s.len(),
{
    if s.len() == 0 {
        Seq::empty()
    } else {
        let rest = pending_spec(s.drop_first());
        if s[0].kind == ChangeKind::Yanked {
            rest
        } else {
            rest.push(s[0])
        }
    }
}

/// The package versions that enqueueing `pend` in order adds to a queue
/// holding `present`: each one not yet present, once.
pub open spec fn added_keys(present: Set<PackageKey>, pend: Seq<Change>) -> Seq<PackageKey>
    decreases pend.len(),
{
    if pend.len() == 0 {
        Seq::empty()
    } else {
        let prev = added_keys(present, pend.drop_last());
        let k = change_key(pend.last());
        if present.contains(k) || prev.contains(k) {
            prev
        } else {
            prev.push(k)
        }
    }
}

/// The events of `changes` to enqueue, oldest first, without yanked ones.
pub fn pending_changes(changes: &Vec<Change>) -> (r: Vec<Change>)
    ensures
        r@ == pending_spec(changes@),
{
    let mut out: Vec<Change> = Vec::new();
    let mut i: usize = changes.len();
    while i > 0
        invariant
            i <= changes@.len(),
            out@ == pending_spec(changes@.subrange(i as int, changes@.len() as int)),
        decreases i,
    {
        let ghost s = changes@;
        assert(s.subrange(i - 1, s.len() as int).drop_first() == s.subrange(i as int, s.len() as int));
        i = i - 1;
        if changes[i].kind != ChangeKind::Yanked {
            out.push(changes[i].duplicate());
        }
    }
    assert(changes@.subrange(0, changes@.len() as int) == changes@);
    out
}

/// Enqueues each of `pend` in order with priority 0. A package version that
/// is already queued is skipped, and no failure stops the batch.
pub fn enqueue_changes(queue: &mut BuildQueue, pend: &Vec<Change>)
    requires
        old(queue).wf(),
    ensures
        final(queue).wf(),
        final(queue)@.len() >= old(queue)@.len(),
        final(queue)@.subrange(0, old(queue)@.len() as int) == old(queue)@,
        forall|p: int|
            old(queue)@.len() <= p < final(queue)@.len() ==> (#[trigger] final(queue)@[p]).priority
                == 0 && final(queue)@[p].attempt == 0,
        final(queue)@.len() - old(queue)@.len() <= pend@.len(),
        final(queue).next_id() == old(queue).next_id() + (final(queue)@.len() - old(queue)@.len()),
        forall|p: int|
            old(queue)@.len() <= p < final(queue)@.len() ==> (#[trigger] final(queue)@[p]).id
                == old(queue).next_id() + (p - old(queue)@.len()),
        old(queue).next_id() + pend@.len() < u64::MAX ==> final(queue)@.subrange(
            old(queue)@.len() as int,
            final(queue)@.len() as int,
        ).map_values(|e: QueueEntry| entry_key(e)) == added_keys(keys_of(old(queue)@), pend@),
{
    let ghost n0 = queue.next_id();
    let ghost q0 = queue@;
    let ghost present = keys_of(q0);
    let mut j: usize = 0;
    while j < pend.len()
        invariant
            j <= pend@.len(),
            queue.wf(),
            queue@.len() >= q0.len(),
            queue@.subrange(0, q0.len() as int) == q0,
            queue@.len() - q0.len() <= j,
            queue.next_id() == n0 + (queue@.len() - q0.len()),
            forall|p: int|
                q0.len() <= p < queue@.len() ==> (#[trigger] queue@[p]).priority == 0
                    && queue@[p].attempt == 0 && queue@[p].id == n0 + (p - q0.len()),
            !queue.ids_exhausted() ==> queue@.subrange(q0.len() as int, queue@.len() as int).map_values(
                |e: QueueEntry| entry_key(e),
            ) == added_keys(present, pend@.subrange(0, j as int)),
            !queue.ids_exhausted() ==> forall|k: PackageKey|
                has_package(queue@, k.0, k.1) <==> (present.contains(k) || added_keys(
                    present,
                    pend@.subrange(0, j as int),
                ).contains(k)),
        decreases pend@.len() - j,
    {
        let ghost before = queue@;
        let ghost was_exhausted = queue.ids_exhausted();
        let ghost prev = added_keys(present, pend@.subrange(0, j as int));
        let ghost k = change_key(pend@[j as int]);
        assert(pend@.subrange(0, j + 1).drop_last() == pend@.subrange(0, j as int));
        let r = queue.enqueue(pend[j].name.clone(), pend[j].version.clone(), 0);
        proof {
            if r is Ok {
                let id = r->Ok_0;
                let e = crate::queue::fresh_entry(id, pend@[j as int].name, pend@[j as int].version, 0);
                assert(queue@ == before.push(e));
                assert forall|p: int| q0.len() <= p < queue@.len() implies (#[trigger] queue@[p]).priority
                    == 0 && queue@[p].attempt == 0 && queue@[p].id == n0 + (p - q0.len()) by {
                    if p < before.len() {
                        assert(queue@[p] == before[p]);
                    }
                }
                assert(queue@.subrange(0, q0.len() as int) == before.subrange(0, q0.len() as int));
                if !queue.ids_exhausted() {
                    assert(!has_package(before, k.0, k.1));
                    assert(queue@.subrange(q0.len() as int, queue@.len() as int) == before.subrange(
                        q0.len() as int,
                        before.len() as int,
                    ).push(e));
                    assert(queue@.subrange(q0.len() as int, queue@.len() as int).map_values(
                        |e: QueueEntry| entry_key(e),
                    ) == prev.push(k));
                    assert(added_keys(present, pend@.subrange(0, j + 1)) == prev.push(k));
                    assert forall|k2: PackageKey|
                        prev.push(k).contains(k2) <==> (prev.contains(k2) || k2 == k) by {
                        if prev.contains(k2) {
                            let w = choose|w: int| 0 <= w < prev.len() && prev[w] == k2;
                            assert(prev.push(k)[w] == k2);
                        }
                        if k2 == k {
                            assert(prev.push(k)[prev.len() as int] == k);
                        }
                    }
                    assert forall|k2: PackageKey|
                        has_package(queue@, k2.0, k2.1) <==> (has_package(before, k2.0, k2.1)
                            || k2 == k) by {
                        if has_package(before, k2.0, k2.1) {
                            let w = choose|w: int|
                                0 <= w < before.len() && before[w].name@ == k2.0
                                    && before[w].version@ == k2.1;
                            assert(queue@[w] == before[w]);
                        }
                        if k2 == k {
                            assert(queue@[before.len() as int] == e);
                        }
                        if has_package(queue@, k2.0, k2.1) {
                            let w = choose|w: int|
                                0 <= w < queue@.len() && queue@[w].name@ == k2.0
                                    && queue@[w].version@ == k2.1;
                            if w < before.len() {
                                assert(queue@[w] == before[w]);
                            }
                        }
                    }
                }
            } else {
                if !queue.ids_exhausted() {
                    assert(has_package(before, k.0, k.1));
                    assert(present.contains(k) || prev.contains(k));
                    assert(added_keys(present, pend@.subrange(0, j + 1)) == prev);
                }
            }
        }
        j = j + 1;
    }
    assert(pend@.subrange(0, j as int) == pend@);
    assert(n0 + pend@.len() < u64::MAX ==> !queue.ids_exhausted());
}

} // verus!
