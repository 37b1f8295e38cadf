use loadgen::config::{Config, Method};
use loadgen::orchestrator::{fold_producers, plan_run, ramp_delay, ProducerFailure};
use loadgen::outcome::RequestOutcome;
use loadgen::producer::{finish_producer, ProducerAction, ProducerSchedule};
use loadgen::report::{summarize_producer, ElapsedDisplay, ProducerTally, TestResult};
use rand::rngs::StdRng;
use rand::SeedableRng;

fn config(producers: u32, requests: u32, max_ramp_up_ms: i32) -> Config {
    Config {
        method: Method::Get,
        url: "http://localhost:8080/".to_string(),
        producer_count: producers,
        expected_status: 200,
        total_requests: requests,
        body: None,
        throttle_ms: 0,
        max_ramp_up_ms,
    }
}

fn ok(ms: u64) -> RequestOutcome {
    RequestOutcome::Completed { status: 200, elapsed_ms: ms }
}

fn status(code: u16, ms: u64) -> RequestOutcome {
    RequestOutcome::Completed { status: code, elapsed_ms: ms }
}

#[test]
fn two_producers_all_succeed() {
    let cfg = config(2, 10, -1);
    let mut rng = StdRng::seed_from_u64(1);
    let plan = plan_run(&cfg, &mut rng);
    assert_eq!(plan.per_producer_requests, 5);
    let first: Vec<RequestOutcome> = (0..5).map(|_| ok(12)).collect();
    let second: Vec<RequestOutcome> = (0..5).map(|_| ok(30)).collect();
    let results = vec![
        Ok(summarize_producer(&first, 200, 100)),
        Ok(summarize_producer(&second, 200, 120)),
    ];
    let run = fold_producers(&results, 2, 150).unwrap();
    assert_eq!(run.total_requests, 10);
    assert_eq!(run.failed_requests, 0);
    assert_eq!(run.fail_ratio_hundredths(), Some(0));
    assert_eq!(run.avg_request_time_ms, 21);
    assert_eq!(run.elapsed_ms, 150);
}

#[test]
fn one_producer_one_server_error() {
    let outcomes = vec![ok(10), ok(20), status(500, 30), ok(40)];
    let r = summarize_producer(&outcomes, 200, 5);
    assert_eq!(r.total_requests, 4);
    assert_eq!(r.failed_requests, 1);
    assert_eq!(r.fail_ratio_hundredths(), Some(2500));
    assert_eq!(r.avg_request_time_ms, 25);
    let run = fold_producers(&vec![Ok(r)], 1, 5).unwrap();
    assert_eq!(run.failed_requests, 1);
    assert_eq!(run.fail_ratio_hundredths(), Some(2500));
}

#[test]
fn failed_producer_is_left_out() {
    let a = summarize_producer(&vec![ok(10), ok(10)], 200, 1);
    let b = summarize_producer(&vec![ok(30), status(404, 30)], 200, 1);
    let results = vec![
        Ok(a),
        Err(ProducerFailure { reason: "client could not be built".to_string() }),
        Ok(b),
    ];
    let run = fold_producers(&results, 3, 9).unwrap();
    assert_eq!(run.total_requests, 4);
    assert_eq!(run.failed_requests, 1);
    // the sum of the two means is divided by all three producers
    assert_eq!(run.avg_request_time_ms, 40 / 3);
}

#[test]
fn no_surviving_producer_gives_no_summary() {
    let results: Vec<Result<TestResult, ProducerFailure>> = vec![
        Err(ProducerFailure { reason: "a".to_string() }),
        Err(ProducerFailure { reason: "b".to_string() }),
    ];
    assert_eq!(fold_producers(&results, 2, 0), None);
    assert_eq!(fold_producers(&Vec::new(), 1, 0), None);
}

#[test]
fn lone_producer_has_no_ramp_up() {
    for max in [-1, 0, 1, 5000] {
        let cfg = config(1, 100, max);
        let mut rng = StdRng::seed_from_u64(99);
        let plan = plan_run(&cfg, &mut rng);
        assert_eq!(plan.delays, vec![0]);
    }
}

#[test]
fn zero_ramp_cap_starts_all_at_once() {
    let cfg = config(4, 100, 0);
    let mut rng = StdRng::seed_from_u64(3);
    let plan = plan_run(&cfg, &mut rng);
    assert_eq!(plan.delays, vec![0, 0, 0, 0]);
}

#[test]
fn ramp_delays_stay_below_cap() {
    let cfg = config(50, 100, 7);
    let mut rng = StdRng::seed_from_u64(11);
    let plan = plan_run(&cfg, &mut rng);
    assert_eq!(plan.delays.len(), 50);
    assert!(plan.delays.iter().all(|d| *d < 7));
    let mut rng = StdRng::seed_from_u64(12);
    for _ in 0..200 {
        assert!(ramp_delay(3, 2, &mut rng) < 2);
    }
}

#[test]
fn default_ramp_cap_is_a_second_per_producer() {
    assert_eq!(config(3, 10, -1).effective_ramp_cap(), 3000);
    assert_eq!(config(3, 10, 250).effective_ramp_cap(), 250);
    assert_eq!(config(3, 10, 0).effective_ramp_cap(), 0);
    let cfg = config(3, 10, -1);
    let mut rng = StdRng::seed_from_u64(5);
    let plan = plan_run(&cfg, &mut rng);
    assert!(plan.delays.iter().all(|d| *d < 3000));
}

#[test]
fn remainder_requests_are_not_sent() {
    let cfg = config(3, 10, 0);
    assert_eq!(cfg.per_producer_requests(), 3);
    let mut rng = StdRng::seed_from_u64(0);
    let plan = plan_run(&cfg, &mut rng);
    let results: Vec<Result<TestResult, ProducerFailure>> = (0..3)
        .map(|_| {
            let outs: Vec<RequestOutcome> =
                (0..plan.per_producer_requests).map(|_| ok(1)).collect();
            Ok(summarize_producer(&outs, 200, 0))
        })
        .collect();
    let run = fold_producers(&results, 3, 0).unwrap();
    assert_eq!(run.total_requests, 9);
    assert_eq!(config(4, 3, 0).per_producer_requests(), 0);
}

#[test]
fn run_mean_is_unweighted_mean_of_producer_means() {
    let light = summarize_producer(&vec![ok(10)], 200, 0);
    let heavy: Vec<RequestOutcome> = (0..9).map(|_| ok(100)).collect();
    let heavy = summarize_producer(&heavy, 200, 0);
    assert_eq!(light.avg_request_time_ms, 10);
    assert_eq!(heavy.avg_request_time_ms, 100);
    let run = fold_producers(&vec![Ok(light), Ok(heavy)], 2, 0).unwrap();
    assert_eq!(run.avg_request_time_ms, 55);
    assert_ne!(run.avg_request_time_ms, 91);
}

#[test]
fn every_request_failing_gives_full_ratio() {
    let outs = vec![status(500, 3), RequestOutcome::TransportFailed, status(302, 1)];
    let r = summarize_producer(&outs, 200, 0);
    assert_eq!(r.failed_requests, 3);
    assert_eq!(r.fail_ratio_hundredths(), Some(10000));
    // transport failures add no latency
    assert_eq!(r.avg_request_time_ms, 4 / 3);
    let run = fold_producers(&vec![Ok(r), Ok(r)], 2, 0).unwrap();
    assert_eq!(run.failed_requests, 6);
    assert_eq!(run.fail_ratio_hundredths(), Some(10000));
}

#[test]
fn empty_producer_has_no_ratio() {
    let r = summarize_producer(&Vec::new(), 200, 7);
    assert_eq!(r.total_requests, 0);
    assert_eq!(r.failed_requests, 0);
    assert_eq!(r.avg_request_time_ms, 0);
    assert_eq!(r.fail_ratio_hundredths(), None);
}

#[test]
fn fail_ratio_rounds_down_to_hundredths() {
    let outs = vec![status(500, 1), ok(1), ok(1)];
    let r = summarize_producer(&outs, 200, 0);
    assert_eq!(r.fail_ratio_hundredths(), Some(3333));
}

#[test]
fn same_seed_and_outcomes_give_same_counts() {
    let cfg = config(3, 30, 400);
    let mut rng_a = StdRng::seed_from_u64(42);
    let mut rng_b = StdRng::seed_from_u64(42);
    let plan_a = plan_run(&cfg, &mut rng_a);
    let plan_b = plan_run(&cfg, &mut rng_b);
    assert_eq!(plan_a.delays, plan_b.delays);
    assert_eq!(plan_a.per_producer_requests, plan_b.per_producer_requests);
    let outs = vec![ok(5), status(503, 7), RequestOutcome::TransportFailed, ok(9)];
    let mut reordered = outs.clone();
    reordered.reverse();
    let a = summarize_producer(&outs, 200, 1);
    let b = summarize_producer(&reordered, 200, 2);
    assert_eq!(a.total_requests, b.total_requests);
    assert_eq!(a.failed_requests, b.failed_requests);
    assert_eq!(a.avg_request_time_ms, b.avg_request_time_ms);
}

#[test]
fn tally_counts_incrementally() {
    let mut t = ProducerTally::new(201);
    t.record(status(201, 4));
    t.record(status(200, 6));
    t.record(RequestOutcome::TransportFailed);
    let r = t.finish(33);
    assert_eq!(r.total_requests, 3);
    assert_eq!(r.failed_requests, 2);
    assert_eq!(r.avg_request_time_ms, 3);
    assert_eq!(r.elapsed_ms, 33);
}

#[test]
fn method_names() {
    assert_eq!(Method::parse("POST"), Method::Post);
    assert_eq!(Method::parse("GET"), Method::Get);
    assert_eq!(Method::parse("post"), Method::Get);
    assert_eq!(Method::parse("PUT"), Method::Get);
    assert_eq!(Method::parse("POSTS"), Method::Get);
    assert_eq!(Method::parse(""), Method::Get);
}

#[test]
fn only_post_carries_the_body() {
    let mut cfg = config(1, 1, 0);
    cfg.body = Some("{\"a\":1}".to_string());
    assert_eq!(cfg.request_payload(), None);
    cfg.method = Method::Post;
    assert_eq!(cfg.request_payload(), Some("{\"a\":1}".to_string()));
    cfg.body = None;
    assert_eq!(cfg.request_payload(), None);
}

#[test]
fn elapsed_display_switches_at_one_second() {
    assert_eq!(ElapsedDisplay::from_millis(0), ElapsedDisplay::Millis(0));
    assert_eq!(ElapsedDisplay::from_millis(999), ElapsedDisplay::Millis(999));
    assert_eq!(
        ElapsedDisplay::from_millis(1000),
        ElapsedDisplay::Seconds { whole: 1, hundredths: 0 }
    );
    assert_eq!(
        ElapsedDisplay::from_millis(1234),
        ElapsedDisplay::Seconds { whole: 1, hundredths: 23 }
    );
    assert_eq!(
        ElapsedDisplay::from_millis(1235),
        ElapsedDisplay::Seconds { whole: 1, hundredths: 24 }
    );
    assert_eq!(
        ElapsedDisplay::from_millis(61996),
        ElapsedDisplay::Seconds { whole: 62, hundredths: 0 }
    );
}

#[test]
fn producer_schedule_throttles_each_dispatch() {
    let mut s = ProducerSchedule::new(2, 40, 15);
    let mut actions = Vec::new();
    while let Some(a) = s.next_action() {
        actions.push(a);
    }
    assert_eq!(
        actions,
        vec![
            ProducerAction::RampUp { delay_ms: 40 },
            ProducerAction::BuildExecutor,
            ProducerAction::Throttle { ms: 15 },
            ProducerAction::Dispatch,
            ProducerAction::Throttle { ms: 15 },
            ProducerAction::Dispatch,
            ProducerAction::AwaitAll,
        ]
    );
    assert_eq!(s.next_action(), None);
}

#[test]
fn producer_schedule_with_no_quota() {
    let mut s = ProducerSchedule::new(0, 0, 3);
    assert_eq!(s.next_action(), Some(ProducerAction::RampUp { delay_ms: 0 }));
    assert_eq!(s.next_action(), Some(ProducerAction::BuildExecutor));
    assert_eq!(s.next_action(), Some(ProducerAction::AwaitAll));
    assert_eq!(s.next_action(), None);
}

#[test]
fn finished_producer_counts_its_quota() {
    let mut s = ProducerSchedule::new(3, 0, 0);
    let mut t = ProducerTally::new(200);
    while let Some(a) = s.next_action() {
        if a == ProducerAction::AwaitAll {
            t.record(ok(4));
            t.record(status(500, 8));
            t.record(RequestOutcome::TransportFailed);
        }
    }
    assert!(s.finished());
    let r = finish_producer(&s, &t, 50).unwrap();
    assert_eq!(r.total_requests, 3);
    assert_eq!(r.failed_requests, 2);
    assert_eq!(r.avg_request_time_ms, 4);
    assert_eq!(r.elapsed_ms, 50);
}

#[test]
fn producer_result_needs_one_outcome_per_dispatch() {
    let mut s = ProducerSchedule::new(2, 0, 0);
    let mut t = ProducerTally::new(200);
    t.record(ok(1));
    assert_eq!(finish_producer(&s, &t, 0), None);
    while s.next_action().is_some() {}
    assert_eq!(finish_producer(&s, &t, 0), None);
    t.record(ok(1));
    assert!(finish_producer(&s, &t, 0).is_some());
    t.record(ok(1));
    assert_eq!(finish_producer(&s, &t, 0), None);
    let fresh = ProducerSchedule::new(0, 0, 0);
    assert!(!fresh.finished());
    assert_eq!(finish_producer(&fresh, &ProducerTally::new(200), 0), None);
}

#[test]
fn ramp_delay_is_fixed_by_the_seed() {
    let mut a = StdRng::seed_from_u64(77);
    let mut b = StdRng::seed_from_u64(77);
    let da = ramp_delay(4, 100_000, &mut a);
    let db = ramp_delay(4, 100_000, &mut b);
    assert_eq!(da, db);
    assert!(da < 100_000);
    assert_eq!(a, b);
    let fresh = StdRng::seed_from_u64(77);
    assert_ne!(a, fresh);
}

#[test]
fn no_draw_leaves_generator_untouched() {
    let mut a = StdRng::seed_from_u64(8);
    assert_eq!(ramp_delay(1, 500, &mut a), 0);
    assert_eq!(ramp_delay(6, 0, &mut a), 0);
    assert_eq!(a, StdRng::seed_from_u64(8));
    let plan = plan_run(&config(1, 10, 900), &mut a);
    assert_eq!(plan.delays, vec![0]);
    assert_eq!(a, StdRng::seed_from_u64(8));
}
