use cratesfyi::builder::DocBuilder;
use cratesfyi::enqueuer::{Change, ChangeKind};
use cratesfyi::options::DocBuilderOptions;
use cratesfyi::queue::{BuildQueue, QueueError, MAX_ATTEMPTS};

fn s(x: &str) -> String {
    x.to_string()
}

fn change(name: &str, version: &str, kind: ChangeKind) -> Change {
    Change { name: s(name), version: s(version), kind }
}

#[test]
fn exhausted_entry_is_never_selected() {
    let mut q = BuildQueue::new();
    let id = q.enqueue(s("a"), s("1.0"), 0).unwrap();
    for _ in 0..MAX_ATTEMPTS {
        assert!(q.select_next().is_some());
        q.record_failure(id).unwrap();
    }
    assert!(q.select_next().is_none());
    assert_eq!(q.count_eligible(), 0);
    // kept for inspection
    assert_eq!(q.len(), 1);
    assert_eq!(q.entry_at(0).attempt, 5);
}

#[test]
fn failed_entries_sink_behind_healthy_ones() {
    let mut q = BuildQueue::new();
    let a = q.enqueue(s("a"), s("1.0"), 0).unwrap();
    let b = q.enqueue(s("b"), s("1.0"), 0).unwrap();
    q.record_failure(a).unwrap();
    assert_eq!(q.select_next().unwrap().id, b);
}

#[test]
fn success_removes_entry() {
    let mut q = BuildQueue::new();
    let a = q.enqueue(s("a"), s("1.0"), 0).unwrap();
    let b = q.enqueue(s("b"), s("1.0"), 0).unwrap();
    assert!(q.record_success(a));
    assert_eq!(q.len(), 1);
    assert_eq!(q.entry_at(0).id, b);
    assert_eq!(q.select_next().unwrap().id, b);
    assert!(!q.record_success(a));
    assert!(q.record_success(b));
    assert!(q.select_next().is_none());
}

#[test]
fn failure_increments_attempt_only() {
    let mut q = BuildQueue::new();
    let a = q.enqueue(s("pkg"), s("0.3.1"), 7).unwrap();
    q.record_failure(a).unwrap();
    let e = q.entry_at(0);
    assert_eq!(e.attempt, 1);
    assert_eq!(e.id, a);
    assert_eq!(e.name, "pkg");
    assert_eq!(e.version, "0.3.1");
    assert_eq!(e.priority, 7);
    assert_eq!(q.record_failure(a + 100), Err(QueueError::UnknownId));
}

#[test]
fn earlier_entry_wins_on_ties() {
    let mut q = BuildQueue::new();
    let a = q.enqueue(s("a"), s("1"), 3).unwrap();
    let b = q.enqueue(s("b"), s("1"), 3).unwrap();
    assert!(a < b);
    assert_eq!(q.select_next().unwrap().id, a);
}

#[test]
fn lower_priority_value_first() {
    let mut q = BuildQueue::new();
    q.enqueue(s("a"), s("1"), 5).unwrap();
    let b = q.enqueue(s("b"), s("1"), -1).unwrap();
    assert_eq!(q.select_next().unwrap().id, b);
}

#[test]
fn duplicate_enqueue_is_refused() {
    let mut q = BuildQueue::new();
    q.enqueue(s("a"), s("1"), 0).unwrap();
    assert_eq!(q.enqueue(s("a"), s("1"), 0), Err(QueueError::Duplicate));
    assert_eq!(q.len(), 1);
    assert!(q.enqueue(s("a"), s("2"), 0).is_ok());
}

#[test]
fn empty_queue_has_no_work() {
    let q = BuildQueue::new();
    assert!(q.select_next().is_none());
    assert_eq!(q.count_eligible(), 0);
}

#[test]
fn registry_batch_is_enqueued_oldest_first() {
    let mut b = DocBuilder::new(DocBuilderOptions::from_prefix(s("prefix")));
    let changes = vec![
        change("A", "1.0", ChangeKind::Yanked),
        change("B", "2.0", ChangeKind::Added),
        change("A", "1.0", ChangeKind::Added),
    ];
    let n = b.get_new_crates(&changes);
    assert_eq!(n, 2);
    assert_eq!(b.get_queue_count(), 2);
    let first = b.queue.entry_at(0);
    let second = b.queue.entry_at(1);
    assert_eq!((first.name.as_str(), first.version.as_str()), ("A", "1.0"));
    assert_eq!((second.name.as_str(), second.version.as_str()), ("B", "2.0"));
    assert_eq!(first.priority, 0);
    assert_eq!(second.priority, 0);
    let next = b.next_queue_job().unwrap();
    assert_eq!(next.name, "A");
    b.finish_queue_job(next.id, true).unwrap();
    assert_eq!(b.next_queue_job().unwrap().name, "B");
}

#[test]
fn batch_with_versions_already_queued() {
    let mut b = DocBuilder::new(DocBuilderOptions::from_prefix(s("p")));
    b.queue.enqueue(s("B"), s("2.0"), 0).unwrap();
    let changes = vec![
        change("C", "1.1", ChangeKind::Added),
        change("C", "1.0", ChangeKind::Added),
        change("B", "2.0", ChangeKind::Added),
    ];
    assert_eq!(b.get_new_crates(&changes), 3);
    assert_eq!(b.queue.len(), 3);
    assert_eq!(b.queue.entry_at(1).version, "1.0");
    assert_eq!(b.queue.entry_at(2).version, "1.1");
}

#[test]
fn timed_out_build_counts_a_failed_attempt() {
    let mut b = DocBuilder::new(DocBuilderOptions::from_prefix(s("p")));
    b.queue.enqueue(s("slow"), s("1.0"), 0).unwrap();
    let job = b.next_queue_job().unwrap();
    // the build ran out of time: the pipeline reports no success
    b.finish_queue_job(job.id, false).unwrap();
    let again = b.next_queue_job().unwrap();
    assert_eq!(again.id, job.id);
    assert_eq!(again.attempt, 1);
    assert_eq!(b.get_queue_count(), 1);
}

#[test]
fn ids_follow_insertion_order() {
    let mut q = BuildQueue::new();
    assert_eq!(q.enqueue(s("a"), s("1"), 0), Ok(0));
    assert_eq!(q.enqueue(s("a"), s("1"), 0), Err(QueueError::Duplicate));
    assert_eq!(q.enqueue(s("b"), s("1"), 0), Ok(1));
    q.record_success(0);
    assert_eq!(q.enqueue(s("c"), s("1"), 0), Ok(2));
}
