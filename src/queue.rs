//! The build queue: a retry-bounded priority list of (package, version) jobs.
use vstd::prelude::*;

verus! {

/// Number of failed attempts after which an entry is no longer selected.
pub const MAX_ATTEMPTS: u32 = 5;

/// One job of the queue.
#[derive(Debug)]
pub struct QueueEntry {
    pub id: u64,
    pub name: String,
    pub version: String,
    pub priority: i32,
    pub attempt: u32,
}

impl QueueEntry {
    /// A field-by-field copy.
    pub fn duplicate(&self) -> (r: QueueEntry)
        ensures
            r == *self,
    {
        QueueEntry {
            id: self.id,
            name: self.name.clone(),
            version: self.version.clone(),
            priority: self.priority,
            attempt: self.attempt,
        }
    }
}

/// Why a change to the queue was not made.
#[derive(Clone, Copy, Debug, PartialEq, Eq, Structural)]
pub enum QueueError {
    /// An entry for the same package and version is already queued.
    Duplicate,
    /// Every entry identifier has been handed out.
    IdsExhausted,
    /// No entry has the given identifier.
    UnknownId,
    /// The attempt counter of the entry cannot grow any further.
    AttemptOverflow,
}

/// An entry may still be selected for building.
pub open spec fn is_eligible(e: QueueEntry) -> bool {
    e.attempt < MAX_ATTEMPTS
}

/// `a` is scheduled strictly before `b`: lower priority value first, then
/// fewer attempts, then the earlier identifier.
pub open spec fn goes_before(a: QueueEntry, b: QueueEntry) -> bool {
    a.priority < b.priority || (a.priority == b.priority && (a.attempt < b.attempt || (a.attempt
        == b.attempt && a.id < b.id)))
}

/// `e` is the entry that selection picks from `s`: an eligible entry of `s`
/// that no eligible entry of `s` goes before.
pub open spec fn is_next(s: Seq<QueueEntry>, e: QueueEntry) -> bool {
    &&& s.contains(e)
    &&& is_eligible(e)
    &&& forall|k: int| 0 <= k < s.len() && is_eligible(#[trigger] s[k]) ==> !goes_before(s[k], e)
}

pub open spec fn ids_unique(s: Seq<QueueEntry>) -> bool {
    forall|i: int, j: int| 0 <= i < s.len() && 0 <= j < s.len() && i != j ==> s[i].id != s[j].id
}

pub open spec fn has_id(s: Seq<QueueEntry>, id: u64) -> bool {
    exists|k: int| 0 <= k < s.len() && s[k].id == id
}

pub open spec fn has_package(s: Seq<QueueEntry>, name: Seq<char>, version: Seq<char>) -> bool {
    exists|k: int| 0 <= k < s.len() && s[k].name@ == name && s[k].version@ == version
}

/// Number of eligible entries of `s`.
pub open spec fn eligible_count(s: Seq<QueueEntry>) -> nat
    decreases s.len(),
{
    if s.len() == 0 {
        0
    } else {
        eligible_count(s.drop_last()) + if is_eligible(s.last()) {
            1nat
        } else {
            0nat
        }
    }
}

/// The entry after one more failed attempt.
pub open spec fn after_failure(e: QueueEntry) -> QueueEntry {
    QueueEntry { attempt: (e.attempt + 1) as u32, ..e }
}

/// A fresh entry as enqueued.
pub open spec fn fresh_entry(id: u64, name: String, version: String, priority: i32) -> QueueEntry {
    QueueEntry { id, name, version, priority, attempt: 0 }
}

/// The queue's rows, with the next identifier to hand out.
#[derive(Debug)]
pub struct BuildQueue {
    entries: Vec<QueueEntry>,
    next_id: u64,
}

impl View for BuildQueue {
    type V = Seq<QueueEntry>;

    closed spec fn view(&self) -> Seq<QueueEntry> {
        self.entries@
    }
}

fn goes_before_exec(a: &QueueEntry, b: &QueueEntry) -> (r: bool)
    ensures
        r == goes_before(*a, *b),
{
    a.priority < b.priority || (a.priority == b.priority && (a.attempt < b.attempt || (a.attempt
        == b.attempt && a.id < b.id)))
}

impl BuildQueue {
    /// Every identifier is used once, and all lie below the next one.
    pub closed spec fn wf(&self) -> bool {
        &&& ids_unique(self.entries@)
        &&& forall|k: int| 0 <= k < self.entries@.len() ==> #[trigger] self.entries@[k].id < self.next_id
    }

    /// The identifier the next enqueued entry receives.
    pub closed spec fn next_id(&self) -> nat {
        self.next_id as nat
    }

    /// No identifier is left to hand out.
    pub open spec fn ids_exhausted(&self) -> bool {
        self.next_id() >= u64::MAX
    }

    /// Every identifier in the queue lies below the next one.
    pub proof fn lemma_ids_below_next(&self)
        requires
            self.wf(),
        ensures
            self.next_id() <= u64::MAX,
            forall|k: int| 0 <= k < self@.len() ==> (#[trigger] self@[k]).id < self.next_id(),
    {
    }

    pub proof fn lemma_wf_ids_unique(&self)
        requires
            self.wf(),
        ensures
            ids_unique(self@),
    {
    }

    /// An empty queue.
    pub fn new() -> (r: BuildQueue)
        ensures
            r.wf(),
            r@ == Seq::<QueueEntry>::empty(),
            r.next_id() == 0,
            !r.ids_exhausted(),
    {
        BuildQueue { entries: Vec::new(), next_id: 0 }
    }

    /// Number of entries, eligible or not.
    pub fn len(&self) -> (r: usize)
        ensures
            r == self@.len(),
    {
        self.entries.len()
    }

    /// A copy of the entry at `index`, in insertion order.
    pub fn entry_at(&self, index: usize) -> (r: QueueEntry)
        requires
            index < self@.len(),
        ensures
            r == self@[index as int],
    {
        self.entries[index].duplicate()
    }

    fn position_of(&self, id: u64) -> (r: Option<usize>)
        ensures
            match r {
                Some(i) => i < self@.len() && self@[i as int].id == id,
                None => !has_id(self@, id),
            },
    {
        let mut i: usize = 0;
        while i < self.entries.len()
            invariant
                i <= self.entries@.len(),
                forall|k: int| 0 <= k < i ==> self.entries@[k].id != id,
            decreases self.entries@.len() - i,
        {
            if self.entries[i].id == id {
                return Some(i);
            }
            i = i + 1;
        }
        None
    }

    fn position_of_package(&self, name: &String, version: &String) -> (r: Option<usize>)
        ensures
            match r {
                Some(i) => i < self@.len(),
                None => !has_package(self@, name@, version@),
            },
            r is Some <==> has_package(self@, name@, version@),
    {
        let mut i: usize = 0;
        while i < self.entries.len()
            invariant
                i <= self.entries@.len(),
                forall|k: int|
                    0 <= k < i ==> !(self.entries@[k].name@ == name@ && self.entries@[k].version@
                        == version@),
            decreases self.entries@.len() - i,
        {
            if self.entries[i].name == *name && self.entries[i].version == *version {
                return Some(i);
            }
            i = i + 1;
        }
        None
    }

    /// Adds a job with no failed attempts. A package version that is
    /// already queued is refused and the queue is left as it was.
    pub fn enqueue(&mut self, name: String, version: String, priority: i32) -> (r: Result<
        u64,
        QueueError,
    >)
        requires
            old(self).wf(),
        ensures
            final(self).wf(),
            has_package(old(self)@, name@, version@) ==> r == Err::<u64, QueueError>(
                QueueError::Duplicate,
            ),
            !has_package(old(self)@, name@, version@) && old(self).ids_exhausted() ==> r == Err::<
                u64,
                QueueError,
            >(QueueError::IdsExhausted),
            r is Err ==> final(self)@ == old(self)@ && final(self).ids_exhausted() == old(
                self,
            ).ids_exhausted(),
            old(self).ids_exhausted() ==> final(self).ids_exhausted(),
            !has_package(old(self)@, name@, version@) && !old(self).ids_exhausted() ==> r is Ok,
            r matches Ok(id) ==> !has_id(old(self)@, id) && final(self)@ == old(self)@.push(
                fresh_entry(id, name, version, priority),
            ),
            r matches Ok(id) ==> id == old(self).next_id() && final(self).next_id() == old(
                self,
            ).next_id() + 1,
            r matches Ok(id) ==> forall|k: int|
                0 <= k < old(self)@.len() ==> (#[trigger] old(self)@[k]).id < id,
            r is Err ==> final(self).next_id() == old(self).next_id(),
    {
        if self.position_of_package(&name, &version).is_some() {
            return Err(QueueError::Duplicate);
        }
        if self.next_id == u64::MAX {
            return Err(QueueError::IdsExhausted);
        }
        let id = self.next_id;
        let ghost before = self.entries@;
        self.entries.push(QueueEntry { id, name, version, priority, attempt: 0 });
        self.next_id = self.next_id + 1;
        assert(self.entries@ == before.push(fresh_entry(id, name, version, priority)));
        Ok(id)
    }

    /// Number of entries that selection may still pick.
    pub fn count_eligible(&self) -> (r: usize)
        ensures
            r == eligible_count(self@),
    {
        let mut count: usize = 0;
        let mut i: usize = 0;
        while i < self.entries.len()
            invariant
                i <= self.entries@.len(),
                count == eligible_count(self.entries@.subrange(0, i as int)),
                count <= i,
            decreases self.entries@.len() - i,
        {
            let ghost s = self.entries@;
            assert(s.subrange(0, i + 1).drop_last() == s.subrange(0, i as int));
            if self.entries[i].attempt < MAX_ATTEMPTS {
                count = count + 1;
            }
            i = i + 1;
        }
        assert(self.entries@.subrange(0, i as int) == self.entries@);
        count
    }

    /// The entry to build next: among eligible entries, the first by
    /// priority, then attempts, then identifier; `None` when none is eligible.
    pub fn select_next(&self) -> (r: Option<QueueEntry>)
        ensures
            match r {
                Some(e) => is_next(self@, e),
                None => forall|k: int| 0 <= k < self@.len() ==> !is_eligible(#[trigger] self@[k]),
            },
    {
        let mut best: Option<usize> = None;
        let mut i: usize = 0;
        while i < self.entries.len()
            invariant
                i <= self.entries@.len(),
                match best {
                    Some(b) => b < i && is_eligible(self.entries@[b as int]) && forall|k: int|
                        0 <= k < i && is_eligible(#[trigger] self.entries@[k]) ==> !goes_before(
                            self.entries@[k],
                            self.entries@[b as int],
                        ),
                    None => forall|k: int|
                        0 <= k < i ==> !is_eligible(#[trigger] self.entries@[k]),
                },
            decreases self.entries@.len() - i,
        {
            if self.entries[i].attempt < MAX_ATTEMPTS {
                match best {
                    None => {
                        best = Some(i);
                    },
                    Some(b) => {
                        if goes_before_exec(&self.entries[i], &self.entries[b]) {
                            best = Some(i);
                        }
                    },
                }
            }
            i = i + 1;
        }
        match best {
            None => None,
            Some(b) => {
                let e = self.entries[b].duplicate();
                assert(self@[b as int] == e);
                Some(e)
            },
        }
    }

    /// Deletes the entry with identifier `id` after a successful build.
    /// Returns whether there was one.
    pub fn record_success(&mut self, id: u64) -> (r: bool)
        requires
            old(self).wf(),
        ensures
            final(self).wf(),
            r == has_id(old(self)@, id),
            r ==> exists|k: int|
                0 <= k < old(self)@.len() && old(self)@[k].id == id && final(self)@ == old(
                    self,
                )@.remove(k),
            !r ==> final(self)@ == old(self)@,
            !has_id(final(self)@, id),
            final(self).next_id() == old(self).next_id(),
    {
        match self.position_of(id) {
            None => false,
            Some(i) => {
                let ghost before = self.entries@;
                self.entries.remove(i);
                assert forall|k: int| 0 <= k < self.entries@.len() implies self.entries@[k].id
                    != id by {
                    if k < i {
                        assert(self.entries@[k] == before[k]);
                    } else {
                        assert(self.entries@[k] == before[k + 1]);
                    }
                }
                assert forall|a: int, b: int|
                    0 <= a < self.entries@.len() && 0 <= b < self.entries@.len() && a != b
                        implies self.entries@[a].id != self.entries@[b].id by {
                    let a0 = if a < i { a } else { a + 1 };
                    let b0 = if b < i { b } else { b + 1 };
                    assert(self.entries@[a] == before[a0]);
                    assert(self.entries@[b] == before[b0]);
                }
                assert forall|k: int| 0 <= k < self.entries@.len() implies #[trigger] self.entries@[k].id
                    < self.next_id by {
                    let k0 = if k < i { k } else { k + 1 };
                    assert(self.entries@[k] == before[k0]);
                }
                true
            },
        }
    }

    /// Counts one more failed attempt for the entry with identifier `id`;
    /// the entry stays in the queue.
    pub fn record_failure(&mut self, id: u64) -> (r: Result<(), QueueError>)
        requires
            old(self).wf(),
        ensures
            final(self).wf(),
            !has_id(old(self)@, id) ==> r == Err::<(), QueueError>(QueueError::UnknownId),
            r is Err ==> final(self)@ == old(self)@,
            r == Err::<(), QueueError>(QueueError::AttemptOverflow) <==> exists|k: int|
                0 <= k < old(self)@.len() && old(self)@[k].id == id && old(self)@[k].attempt
                    == u32::MAX,
            r is Ok <==> exists|k: int|
                0 <= k < old(self)@.len() && old(self)@[k].id == id && old(self)@[k].attempt
                    < u32::MAX,
            r is Ok ==> exists|k: int|
                0 <= k < old(self)@.len() && old(self)@[k].id == id && final(self)@ == old(
                    self,
                )@.update(k, after_failure(old(self)@[k])),
            final(self).next_id() == old(self).next_id(),
    {
        match self.position_of(id) {
            None => Err(QueueError::UnknownId),
            Some(i) => {
                proof {
                    assert forall|k: int|
                        0 <= k < self.entries@.len() && self.entries@[k].id == id implies k
                        == i by {}
                }
                if self.entries[i].attempt == u32::MAX {
                    return Err(QueueError::AttemptOverflow);
                }
                let ghost before = self.entries@;
                let mut e = self.entries[i].duplicate();
                e.attempt = e.attempt + 1;
                self.entries.set(i, e);
                assert(self.entries@ == before.update(i as int, after_failure(before[i as int])));
                assert forall|k: int| 0 <= k < self.entries@.len() implies #[trigger] self.entries@[k].id
                    < self.next_id by {
                    assert(self.entries@[k].id == before[k].id);
                }
                Ok(())
            },
        }
    }
}

/// An entry that selection returns has fewer than `MAX_ATTEMPTS` failed
/// attempts, whatever was enqueued before.
pub proof fn lemma_selected_is_eligible(s: Seq<QueueEntry>, e: QueueEntry)
    requires
        is_next(s, e),
    ensures
        e.attempt < MAX_ATTEMPTS,
{
}

/// Selection is a function of the rows: with unique identifiers at most one
/// entry is the next one.
pub proof fn lemma_next_is_unique(s: Seq<QueueEntry>, a: QueueEntry, b: QueueEntry)
    requires
        ids_unique(s),
        is_next(s, a),
        is_next(s, b),
    ensures
        a == b,
{
    let i = choose|i: int| 0 <= i < s.len() && s[i] == a;
    let j = choose|j: int| 0 <= j < s.len() && s[j] == b;
    assert(!goes_before(s[i], b));
    assert(!goes_before(s[j], a));
}

/// Once the entry with identifier `id` is deleted, neither a scan of the
/// rows nor selection meets it again.
pub proof fn lemma_deleted_entry_is_gone(s: Seq<QueueEntry>, id: u64, e: QueueEntry)
    requires
        !has_id(s, id),
    ensures
        forall|k: int| 0 <= k < s.len() ==> (#[trigger] s[k]).id != id,
        is_next(s, e) ==> e.id != id,
{
}

/// A failed attempt adds exactly one to the counter and keeps the
/// identifier, package, version and priority.
pub proof fn lemma_failure_keeps_identity(e: QueueEntry)
    requires
        e.attempt < u32::MAX,
    ensures
        after_failure(e).attempt == e.attempt + 1,
        after_failure(e).id == e.id,
        after_failure(e).name == e.name,
        after_failure(e).version == e.version,
        after_failure(e).priority == e.priority,
{
}

/// Of two eligible entries with the same priority and the same number of
/// attempts, the one with the lower identifier (inserted earlier) is
/// selected first: the other one is not selected while both are queued.
pub proof fn lemma_earlier_entry_first(s: Seq<QueueEntry>, a: QueueEntry, b: QueueEntry)
    requires
        s.contains(a),
        s.contains(b),
        is_eligible(a),
        a.priority == b.priority,
        a.attempt == b.attempt,
        a.id < b.id,
    ensures
        !is_next(s, b),
{
    let i = choose|i: int| 0 <= i < s.len() && s[i] == a;
    assert(goes_before(s[i], b));
}

} // verus!
