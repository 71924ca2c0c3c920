use pokedex::{
    generate_hash, is_shiny, RequestError, SearchOutcome, SearchRequest, StopFlag, WorkerExit,
    WorkerTask, DEFAULT_WORKER_COUNT,
};

fn found(exit: WorkerExit) -> Option<u64> {
    match exit {
        WorkerExit::Found { counter } => Some(counter),
        _ => None,
    }
}

#[test]
fn lone_worker_finds_the_first_winner() {
    let task = WorkerTask::new(0, 1).unwrap();
    let stop = StopFlag::new();
    assert_eq!(found(task.run(1, 0, &stop)), Some(39));
    assert!(generate_hash(39).starts_with("0"));
}

#[test]
fn lone_worker_at_higher_difficulty() {
    let task = WorkerTask::new(0, 1).unwrap();
    assert_eq!(found(task.run(2, 7, &StopFlag::new())), Some(1160));
    assert!(generate_hash(1160).starts_with("77"));
    assert_eq!(found(task.run(3, 9, &StopFlag::new())), Some(2940));
    assert!(generate_hash(2940).starts_with("999"));
}

#[test]
fn each_worker_finds_the_first_winner_of_its_lane() {
    let expected = [0u64, 81, 26, 23];
    for (i, first) in expected.iter().enumerate() {
        let task = WorkerTask::new(i, 4).unwrap();
        assert_eq!(found(task.run(1, 5, &StopFlag::new())), Some(*first));
        assert_eq!(*first % 4, i as u64);
        assert!(generate_hash(*first).starts_with("5"));
    }
}

#[test]
fn worker_of_eight_finds_its_own() {
    let task = WorkerTask::new(3, 8).unwrap();
    assert_eq!(found(task.run(2, 1, &StopFlag::new())), Some(1051));
}

#[test]
fn winner_raises_the_flag() {
    let stop = StopFlag::new();
    assert!(!stop.is_raised());
    let task = WorkerTask::new(1, 4).unwrap();
    assert_eq!(found(task.run(1, 5, &stop)), Some(81));
    assert!(stop.is_raised());
}

#[test]
fn raised_flag_cancels_after_one_round() {
    let stop = StopFlag::new();
    stop.raise();
    let task = WorkerTask::new(1, 4).unwrap();
    match task.run(1, 5, &stop) {
        WorkerExit::Cancelled { next } => assert_eq!(next, 5),
        other => panic!("{:?}", other),
    }
}

#[test]
fn raised_flag_does_not_hide_a_win_in_the_first_round() {
    let stop = StopFlag::new();
    stop.raise();
    let task = WorkerTask::new(0, 4).unwrap();
    assert_eq!(found(task.run(1, 5, &stop)), Some(0));
}

#[test]
fn flag_stays_raised() {
    let stop = StopFlag::new();
    assert!(!stop.is_raised());
    stop.raise();
    for _ in 0..100 {
        assert!(stop.is_raised());
    }
    stop.raise();
    assert!(stop.is_raised());
}

#[test]
fn stop_reading_decides_between_giving_up_and_going_on() {
    match WorkerExit::on_stop_reading(true, 5) {
        Some(WorkerExit::Cancelled { next }) => assert_eq!(next, 5),
        other => panic!("{:?}", other),
    }
    assert!(WorkerExit::on_stop_reading(false, 5).is_none());
}

#[test]
fn report_is_the_found_counter() {
    assert_eq!(WorkerExit::Found { counter: 9 }.report(), Some(9));
    assert_eq!(WorkerExit::Cancelled { next: 9 }.report(), None);
    assert_eq!(WorkerExit::Exhausted.report(), None);
}

#[test]
fn first_report_wins() {
    let outcome = SearchOutcome::NoResult;
    assert_eq!(outcome.winning_counter(), None);
    let outcome = outcome.record(81);
    assert_eq!(outcome, SearchOutcome::Winner { winning_counter: 81 });
    let outcome = outcome.record(23);
    assert_eq!(outcome.winning_counter(), Some(81));
}

#[test]
fn request_with_the_usual_workers() {
    let request = SearchRequest::new("pikachu".to_string(), 1, 5).unwrap();
    assert_eq!(request.target_id, "pikachu");
    assert_eq!(request.worker_count, 8);
    assert_eq!(DEFAULT_WORKER_COUNT, 8);
    assert_eq!(request.difficulty, 1);
    assert_eq!(request.digit, 5);
    assert_eq!(request.tasks().len(), 8);
}

#[test]
fn request_refused() {
    let name = || "pikachu".to_string();
    assert_eq!(SearchRequest::new(name(), 0, 5).unwrap_err(), RequestError::DifficultyOutOfRange);
    assert_eq!(SearchRequest::new(name(), 10, 5).unwrap_err(), RequestError::DifficultyOutOfRange);
    assert_eq!(SearchRequest::new(name(), 1, 0).unwrap_err(), RequestError::DigitOutOfRange);
    assert_eq!(SearchRequest::new(name(), 9, 10).unwrap_err(), RequestError::DigitOutOfRange);
    assert_eq!(SearchRequest::new(name(), 0, 0).unwrap_err(), RequestError::DifficultyOutOfRange);
    assert_eq!(
        SearchRequest::with_workers(name(), 1, 5, 0).unwrap_err(),
        RequestError::NoWorkers
    );
    assert_eq!(
        SearchRequest::with_workers(name(), 1, 0, 0).unwrap_err(),
        RequestError::DigitOutOfRange
    );
    assert!(SearchRequest::with_workers(name(), 9, 9, 1).is_ok());
}

fn search_in_turn(request: &SearchRequest) -> (SearchOutcome, usize) {
    let stop = StopFlag::new();
    let mut outcome = SearchOutcome::NoResult;
    let mut finished = 0;
    for task in request.tasks() {
        if let Some(counter) = task.run(request.difficulty, request.digit, &stop).report() {
            outcome = outcome.record(counter);
        }
        finished += 1;
    }
    (outcome, finished)
}

#[test]
fn search_with_four_workers_for_a_five() {
    let request = SearchRequest::with_workers("pikachu".to_string(), 1, 5, 4).unwrap();
    let (outcome, finished) = search_in_turn(&request);
    assert_eq!(finished, 4);
    let n = outcome.winning_counter().unwrap();
    assert!(generate_hash(n).starts_with("5"));
    assert!(is_shiny(&generate_hash(n), &1, 5));
    assert_eq!(n, 0);
}

#[test]
fn search_run_twice_gives_a_winner_both_times() {
    let request = SearchRequest::with_workers("pikachu".to_string(), 1, 5, 4).unwrap();
    for _ in 0..2 {
        let n = search_in_turn(&request).0.winning_counter().unwrap();
        assert!(generate_hash(n).starts_with("5"));
    }
}

#[test]
fn search_yields_one_winner_and_every_worker_ends() {
    let request = SearchRequest::new("pikachu".to_string(), 1, 3).unwrap();
    let stop = StopFlag::new();
    let mut reports: Vec<u64> = Vec::new();
    let mut ended = 0;
    for task in request.tasks() {
        match task.run(request.difficulty, request.digit, &stop) {
            WorkerExit::Found { counter } => reports.push(counter),
            WorkerExit::Cancelled { .. } => {}
            WorkerExit::Exhausted => panic!("ran out of counters"),
        }
        ended += 1;
        assert!(stop.is_raised());
    }
    assert_eq!(ended, 8);
    assert!(!reports.is_empty());
    let mut outcome = SearchOutcome::NoResult;
    for counter in &reports {
        outcome = outcome.record(*counter);
    }
    assert_eq!(outcome.winning_counter(), Some(reports[0]));
    for counter in reports {
        assert!(generate_hash(counter).starts_with("3"));
    }
}
