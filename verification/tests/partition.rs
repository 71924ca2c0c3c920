use pokedex::{plan_workers, WorkerTask};

#[test]
fn plan_lists_one_task_per_worker() {
    let tasks = plan_workers(8);
    assert_eq!(tasks.len(), 8);
    for (i, task) in tasks.iter().enumerate() {
        assert_eq!(task.worker_index, i);
        assert_eq!(task.start_offset, i as u64);
        assert_eq!(task.stride, 8);
    }
}

#[test]
fn plan_for_no_worker_is_empty() {
    assert!(plan_workers(0).is_empty());
}

#[test]
fn task_exists_only_below_the_worker_count() {
    let task = WorkerTask::new(3, 4).unwrap();
    assert_eq!((task.worker_index, task.start_offset, task.stride), (3, 3, 4));
    assert!(WorkerTask::new(4, 4).is_none());
    assert!(WorkerTask::new(0, 0).is_none());
    assert!(WorkerTask::new(0, 1).is_some());
}

#[test]
fn next_counter_moves_one_stride() {
    let task = WorkerTask::new(2, 8).unwrap();
    assert_eq!(task.next_counter(2), Some(10));
    assert_eq!(task.next_counter(10), Some(18));
    assert_eq!(task.next_counter(u64::MAX - 8), Some(u64::MAX));
    assert_eq!(task.next_counter(u64::MAX - 7), None);
    assert_eq!(task.next_counter(u64::MAX), None);
}

fn merged_rounds(worker_count: usize, rounds: usize) -> Vec<u64> {
    let mut seen: Vec<u64> = Vec::new();
    for task in plan_workers(worker_count) {
        let mut counter = task.start_offset;
        for _ in 0..rounds {
            seen.push(counter);
            counter = task.next_counter(counter).unwrap();
        }
    }
    seen.sort();
    seen
}

#[test]
fn workers_cover_every_counter_once() {
    for worker_count in [1usize, 2, 3, 4, 7, 8, 16] {
        for rounds in [1usize, 2, 5, 50] {
            let expected: Vec<u64> = (0..(rounds * worker_count) as u64).collect();
            assert_eq!(merged_rounds(worker_count, rounds), expected);
        }
    }
}

#[test]
fn eight_workers_hundred_rounds() {
    let seen = merged_rounds(8, 100);
    assert_eq!(seen.len(), 800);
    assert_eq!(seen.first(), Some(&0));
    assert_eq!(seen.last(), Some(&799));
    assert!(seen.windows(2).all(|pair| pair[0] + 1 == pair[1]));
}
