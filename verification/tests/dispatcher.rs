use png_compress::dispatch::{Dispatcher, WorkerExit, WorkerPanic};
use png_compress::job::{build, CompressTask, RawField, RawRecord};

fn batch(names: &[&str]) -> Vec<CompressTask> {
    let records: Vec<RawRecord> = names
        .iter()
        .map(|name| RawRecord {
            input: RawField::Text(name.to_string()),
            output: RawField::Text(name.to_string()),
        })
        .collect();
    build(&records).unwrap()
}

fn numbered(count: usize) -> Vec<CompressTask> {
    let names: Vec<String> = (0..count).map(|i| format!("{}.png", i)).collect();
    let names: Vec<&str> = names.iter().map(|name| name.as_str()).collect();
    batch(&names)
}

fn inputs(jobs: &[CompressTask]) -> Vec<String> {
    jobs.iter().map(|job| job.input().to_string()).collect()
}

fn finished(count: usize) -> Vec<WorkerExit> {
    vec![WorkerExit::Finished; count]
}

#[test]
fn two_jobs_with_hint_eight() {
    let dispatcher = Dispatcher::new(batch(&["a.png", "b.png"]), Some(8));
    assert_eq!(dispatcher.job_count(), 2);
    assert_eq!(dispatcher.worker_count(), 8);
    assert_eq!(dispatcher.chunk_size(), 1);
    assert_eq!(inputs(dispatcher.assignment(0)), vec!["a.png"]);
    assert_eq!(dispatcher.assignment(0)[0].output(), "a.png");
    assert_eq!(inputs(dispatcher.assignment(1)), vec!["b.png"]);
    assert_eq!(dispatcher.assignment(1)[0].output(), "b.png");
    for worker in 2..8 {
        assert!(dispatcher.assignment(worker).is_empty());
    }
    assert_eq!(dispatcher.join(&finished(8)), Ok(2));
}

#[test]
fn empty_batch_returns_zero() {
    let dispatcher = Dispatcher::new(Vec::new(), Some(8));
    assert_eq!(dispatcher.job_count(), 0);
    assert_eq!(dispatcher.worker_count(), 8);
    assert_eq!(dispatcher.chunk_size(), 0);
    for worker in 0..8 {
        assert!(dispatcher.assignment(worker).is_empty());
    }
    assert_eq!(dispatcher.join(&finished(8)), Ok(0));
}

#[test]
fn empty_batch_with_default_hint() {
    let dispatcher = Dispatcher::new(Vec::new(), None);
    assert_eq!(dispatcher.worker_count(), 8);
    assert_eq!(dispatcher.join(&finished(8)), Ok(0));
}

#[test]
fn small_batch_keeps_the_hint() {
    let dispatcher = Dispatcher::new(numbered(3), Some(8));
    assert_eq!(dispatcher.worker_count(), 8);
    assert_eq!(dispatcher.chunk_size(), 1);
    let idle = (0..8).filter(|&worker| dispatcher.assignment(worker).is_empty()).count();
    assert_eq!(idle, 5);
}

#[test]
fn large_batch_raises_the_worker_count() {
    let dispatcher = Dispatcher::new(numbered(20), Some(8));
    assert_eq!(dispatcher.worker_count(), 20);
    assert_eq!(dispatcher.chunk_size(), 1);
    for worker in 0..20 {
        assert_eq!(inputs(dispatcher.assignment(worker)), vec![format!("{}.png", worker)]);
    }
    assert_eq!(dispatcher.join(&finished(20)), Ok(20));
}

#[test]
fn absent_hint_means_eight() {
    let dispatcher = Dispatcher::new(numbered(3), None);
    assert_eq!(dispatcher.worker_count(), 8);
    let dispatcher = Dispatcher::new(numbered(11), None);
    assert_eq!(dispatcher.worker_count(), 11);
}

#[test]
fn hint_of_one() {
    let dispatcher = Dispatcher::new(numbered(4), Some(1));
    assert_eq!(dispatcher.worker_count(), 4);
    assert_eq!(dispatcher.chunk_size(), 1);
    let dispatcher = Dispatcher::new(Vec::new(), Some(1));
    assert_eq!(dispatcher.worker_count(), 1);
    assert_eq!(dispatcher.chunk_size(), 0);
    assert!(dispatcher.assignment(0).is_empty());
    assert_eq!(dispatcher.join(&finished(1)), Ok(0));
}

#[test]
fn worker_count_is_the_larger_of_hint_and_batch_size() {
    for hint in 1..10usize {
        for jobs in 0..25usize {
            let dispatcher = Dispatcher::new(numbered(jobs), Some(hint));
            assert_eq!(dispatcher.worker_count(), hint.max(jobs));
            assert_eq!(dispatcher.job_count(), jobs);
        }
    }
}

#[test]
fn assignments_put_together_are_the_batch() {
    for hint in 1..10usize {
        for jobs in 0..25usize {
            let dispatcher = Dispatcher::new(numbered(jobs), Some(hint));
            let mut seen: Vec<String> = Vec::new();
            for worker in 0..dispatcher.worker_count() {
                let share = dispatcher.assignment(worker);
                assert!(share.len() <= 1);
                seen.extend(inputs(share));
            }
            assert_eq!(seen, inputs(&numbered(jobs)));
        }
    }
}

#[test]
fn workers_past_the_count_get_nothing() {
    let dispatcher = Dispatcher::new(numbered(5), Some(2));
    assert!(dispatcher.assignment(5).is_empty());
    assert!(dispatcher.assignment(6).is_empty());
    assert!(dispatcher.assignment(usize::MAX).is_empty());
}

#[test]
fn count_does_not_depend_on_what_became_of_the_files() {
    let all_good = Dispatcher::new(batch(&["good.png", "fine.png", "ok.png"]), Some(2));
    let all_bad = Dispatcher::new(batch(&["missing.png", "not-a-png.txt", ""]), Some(2));
    assert_eq!(all_good.join(&finished(3)), Ok(3));
    assert_eq!(all_bad.join(&finished(3)), Ok(3));
}

#[test]
fn dead_worker_fails_the_dispatch() {
    let dispatcher = Dispatcher::new(numbered(3), Some(4));
    let exits = vec![
        WorkerExit::Finished,
        WorkerExit::Panicked,
        WorkerExit::Finished,
        WorkerExit::Panicked,
    ];
    assert_eq!(dispatcher.join(&exits), Err(WorkerPanic { worker: 1 }));
}

#[test]
fn dead_idle_worker_fails_the_dispatch_too() {
    let dispatcher = Dispatcher::new(numbered(1), Some(3));
    let exits = vec![WorkerExit::Finished, WorkerExit::Finished, WorkerExit::Panicked];
    assert_eq!(dispatcher.join(&exits), Err(WorkerPanic { worker: 2 }));
}

#[test]
fn joining_twice_gives_the_same_count() {
    let dispatcher = Dispatcher::new(numbered(6), Some(8));
    assert_eq!(dispatcher.join(&finished(8)), Ok(6));
    assert_eq!(dispatcher.join(&finished(8)), Ok(6));
}
