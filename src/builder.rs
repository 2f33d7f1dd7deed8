//! The documentation builder's queue side: turning registry changes into
//! jobs, counting them, and the worker's bookkeeping around one build.
use vstd::prelude::*;
use crate::enqueuer::{
    added_keys, enqueue_changes, entry_key, keys_of, pending_changes, pending_spec, Change,
};
use crate::options::DocBuilderOptions;
use crate::queue::{
    after_failure, eligible_count, has_id, is_eligible, is_next, BuildQueue, QueueEntry,
    QueueError,
};

verus! {

/// The builder's options and its build queue.
#[derive(Debug)]
pub struct DocBuilder {
    pub options: DocBuilderOptions,
    pub queue: BuildQueue,
}

impl DocBuilder {
    /// A builder with an empty queue.
    pub fn new(options: DocBuilderOptions) -> (r: DocBuilder)
        ensures
            r.options == options,
            r.queue.wf(),
            r.queue@ == Seq::<QueueEntry>::empty(),
            r.queue.next_id() == 0,
    {
        DocBuilder { options, queue: BuildQueue::new() }
    }

    /// A builder working on an existing queue.
    pub fn with_queue(options: DocBuilderOptions, queue: BuildQueue) -> (r: DocBuilder)
        ensures
            r.options == options,
            r.queue == queue,
    {
        DocBuilder { options, queue }
    }

    pub fn options(&self) -> (r: &DocBuilderOptions)
        ensures
            *r == self.options,
    {
        &self.options
    }

    /// Adds the new package versions of a batch of registry changes to the
    /// queue with priority 0, oldest change first, leaving out yanked ones.
    /// Returns the number of events that were not yanked; versions that
    /// were already queued are skipped without failing the batch.
    pub fn get_new_crates(&mut self, changes: &Vec<Change>) -> (r: usize)
        requires
            old(self).queue.wf(),
        ensures
            r == pending_spec(changes@).len(),
            final(self).options == old(self).options,
            final(self).queue.wf(),
            final(self).queue@.len() >= old(self).queue@.len(),
            final(self).queue@.subrange(0, old(self).queue@.len() as int) == old(self).queue@,
            forall|p: int|
                old(self).queue@.len() <= p < final(self).queue@.len() ==> (#[trigger] final(self).queue@[p]).priority == 0 && final(self).queue@[p].attempt == 0,
            final(self).queue@.len() - old(self).queue@.len() <= pending_spec(changes@).len(),
            final(self).queue.next_id() == old(self).queue.next_id() + (final(self).queue@.len()
                - old(self).queue@.len()),
            forall|p: int|
                old(self).queue@.len() <= p < final(self).queue@.len() ==> (#[trigger] final(self).queue@[p]).id == old(self).queue.next_id() + (p - old(self).queue@.len()),
            old(self).queue.next_id() + pending_spec(changes@).len() < u64::MAX ==> final(self).queue@.subrange(
                old(self).queue@.len() as int,
                final(self).queue@.len() as int,
            ).map_values(|e: QueueEntry| entry_key(e)) == added_keys(
                keys_of(old(self).queue@),
                pending_spec(changes@),
            ),
    {
        let pend = pending_changes(changes);
        enqueue_changes(&mut self.queue, &pend);
        pend.len()
    }

    /// Number of jobs that may still be selected.
    pub fn get_queue_count(&self) -> (r: usize)
        ensures
            r == eligible_count(self.queue@),
    {
        self.queue.count_eligible()
    }

    /// The job a worker builds next, if any.
    pub fn next_queue_job(&self) -> (r: Option<QueueEntry>)
        ensures
            match r {
                Some(e) => is_next(self.queue@, e),
                None => forall|k: int|
                    0 <= k < self.queue@.len() ==> !is_eligible(#[trigger] self.queue@[k]),
            },
    {
        self.queue.select_next()
    }

    /// Records the outcome of building job `id`: a successful build deletes
    /// it, any other outcome counts one more failed attempt.
    pub fn finish_queue_job(&mut self, id: u64, succeeded: bool) -> (r: Result<(), QueueError>)
        requires
            old(self).queue.wf(),
        ensures
            final(self).queue.wf(),
            final(self).options == old(self).options,
            final(self).queue.next_id() == old(self).queue.next_id(),
            !has_id(old(self).queue@, id) ==> r == Err::<(), QueueError>(QueueError::UnknownId),
            r is Err ==> final(self).queue@ == old(self).queue@,
            succeeded ==> (r is Ok <==> has_id(old(self).queue@, id)),
            succeeded && r is Ok ==> exists|k: int|
                0 <= k < old(self).queue@.len() && old(self).queue@[k].id == id && final(self).queue@ == old(self).queue@.remove(k),
            succeeded ==> !has_id(final(self).queue@, id),
            !succeeded ==> (r is Ok <==> exists|k: int|
                0 <= k < old(self).queue@.len() && old(self).queue@[k].id == id && old(self).queue@[k].attempt < u32::MAX),
            !succeeded && r is Ok ==> exists|k: int|
                0 <= k < old(self).queue@.len() && old(self).queue@[k].id == id && final(self).queue@ == old(self).queue@.update(k, after_failure(old(self).queue@[k])),
    {
        if succeeded {
            if self.queue.record_success(id) {
                Ok(())
            } else {
                Err(QueueError::UnknownId)
            }
        } else {
            self.queue.record_failure(id)
        }
    }
}

} // verus!
