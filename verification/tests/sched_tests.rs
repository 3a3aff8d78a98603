use audio_conv::config::parse_jobs;
use audio_conv::sched::effective_jobs;
use audio_conv::sched::Scheduler;

#[test]
fn two_slots_never_run_more_than_two_of_five() {
    // Five eligible jobs under a limit of two: sample the running count at
    // every step of a full run.
    let mut s = Scheduler::new(5, 2);
    let mut max_running = 0;
    let mut dispatched_ids = Vec::new();
    while !s.complete() {
        while s.can_dispatch() {
            let id = s.dispatch();
            dispatched_ids.push(id);
            let running = s.dispatched - s.finished;
            assert!(running <= 2);
            if running > max_running {
                max_running = running;
            }
        }
        s.settle();
        assert!(s.dispatched - s.finished <= 2);
    }
    assert_eq!(max_running, 2);
    assert_eq!(dispatched_ids, vec![0, 1, 2, 3, 4]);
    assert_eq!(s.finished, 5);
}

#[test]
fn one_failure_does_not_block_the_rest() {
    // Settling (success or failure alike) frees the slot for the next job.
    let mut s = Scheduler::new(3, 1);
    let a = s.dispatch();
    assert!(!s.can_dispatch());
    s.settle(); // job a failed; the slot is free again
    assert!(s.can_dispatch());
    let b = s.dispatch();
    s.settle();
    let c = s.dispatch();
    s.settle();
    assert_eq!((a, b, c), (0, 1, 2));
    assert!(s.complete());
}

#[test]
fn run_completes_only_after_every_job_settles() {
    let mut s = Scheduler::new(2, 2);
    s.dispatch();
    s.dispatch();
    assert!(!s.complete());
    s.settle();
    assert!(!s.complete());
    s.settle();
    assert!(s.complete());
}

#[test]
fn configured_jobs_value_is_used() {
    assert_eq!(effective_jobs(Some(3)), 3);
    assert_eq!(effective_jobs(Some(1)), 1);
    // A zero limit would stall the run; it is raised to one.
    assert_eq!(effective_jobs(Some(0)), 1);
}

#[test]
fn unset_jobs_falls_back_to_host_parallelism() {
    assert!(effective_jobs(None) >= 1);
}

#[test]
fn jobs_argument_parses_as_decimal() {
    assert_eq!(parse_jobs("4"), Some(4));
    assert_eq!(parse_jobs("+12"), Some(12));
    assert_eq!(parse_jobs("007"), Some(7));
    assert_eq!(parse_jobs("0"), Some(0));
}

#[test]
fn bad_jobs_arguments_are_rejected() {
    assert_eq!(parse_jobs(""), None);
    assert_eq!(parse_jobs("+"), None);
    assert_eq!(parse_jobs("1a"), None);
    assert_eq!(parse_jobs("-1"), None);
    assert_eq!(parse_jobs(" 4"), None);
    assert_eq!(parse_jobs("99999999999999999999999999"), None);
}
