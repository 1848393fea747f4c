use termdex::queue::FetchJob;
use termdex::scraper::{pokemon_url, throttle_delay_secs, u64_to_string, Scraper};
use termdex::worker::{WorkerAction, WorkerState};

#[test]
fn test_worker_exits_after_threshold_empty_polls() {
    // Threshold 10, and the queue drains while the worker still finds jobs
    // in its first 5 polls: after the last job the worker makes exactly 10
    // further empty polls — 9 sleeps, then the poll that exits.
    let mut state = WorkerState::new(10);
    for id in 1..=5u64 {
        let action = state.observe(Some(FetchJob {
            url: pokemon_url(id),
            entity_id: id,
        }));
        assert!(matches!(action, WorkerAction::Process(_)));
    }
    let mut empty_polls: usize = 0;
    loop {
        match state.observe(None) {
            WorkerAction::Sleep => {
                empty_polls += 1;
            }
            WorkerAction::Exit => {
                empty_polls += 1;
                break;
            }
            WorkerAction::Process(_) => unreachable!(),
        }
    }
    assert_eq!(empty_polls, 10);
}

#[test]
fn test_job_resets_empty_poll_counter() {
    let mut state = WorkerState::new(3);
    assert!(matches!(state.observe(None), WorkerAction::Sleep));
    assert!(matches!(state.observe(None), WorkerAction::Sleep));
    // A job arrives just in time: the counter starts over.
    let job = FetchJob {
        url: pokemon_url(7),
        entity_id: 7,
    };
    assert!(matches!(state.observe(Some(job)), WorkerAction::Process(_)));
    assert!(matches!(state.observe(None), WorkerAction::Sleep));
    assert!(matches!(state.observe(None), WorkerAction::Sleep));
    assert!(matches!(state.observe(None), WorkerAction::Exit));
}

#[test]
fn test_queue_is_fifo() {
    let mut scraper = Scraper::new();
    scraper.seed(1, 3);
    for expected_id in 1..=3u64 {
        let job = scraper.try_next_job().unwrap();
        assert_eq!(job.entity_id, expected_id);
        assert_eq!(
            job.url,
            format!("https://pokeapi.co/api/v2/pokemon/{}", expected_id)
        );
    }
    assert!(scraper.try_next_job().is_none());
}

#[test]
fn test_seed_covers_range_once() {
    let mut scraper = Scraper::new();
    scraper.seed(1, 151);
    let mut seen = Vec::new();
    while let Some(job) = scraper.try_next_job() {
        seen.push(job.entity_id);
    }
    let expected: Vec<u64> = (1..=151).collect();
    assert_eq!(seen, expected);
}

#[test]
fn test_u64_rendering() {
    assert_eq!(u64_to_string(0), "0");
    assert_eq!(u64_to_string(7), "7");
    assert_eq!(u64_to_string(10), "10");
    assert_eq!(u64_to_string(151), "151");
    assert_eq!(u64_to_string(18446744073709551615), "18446744073709551615");
}

#[test]
fn test_pokemon_url_format() {
    assert_eq!(pokemon_url(1), "https://pokeapi.co/api/v2/pokemon/1");
    assert_eq!(pokemon_url(151), "https://pokeapi.co/api/v2/pokemon/151");
}

#[test]
fn test_throttle_delay_stays_in_range() {
    for _ in 0..200 {
        let delay = throttle_delay_secs();
        assert!((1..=3).contains(&delay));
    }
}
