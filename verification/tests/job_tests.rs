use audio_conv::job::JobPhase;
use audio_conv::job::JobRun;
use audio_conv::job::RemoveOutcome;
use audio_conv::logfmt::log_entry;

#[test]
fn completed_job_is_atomic() {
    // Temp file gone, destination present, destination no older than source.
    let mut j = JobRun::new(100, false);
    assert!(matches!(j.phase, JobPhase::Pending));
    assert!(!j.temp_exists);
    j.start();
    assert!(matches!(j.phase, JobPhase::Running));
    assert!(j.temp_exists);
    j.complete(250);
    assert!(matches!(j.phase, JobPhase::Completed));
    assert!(!j.temp_exists);
    assert!(j.dest_exists);
    assert_eq!(j.dest_mtime, Some(250));
    assert!(j.dest_mtime.unwrap() >= j.src_mtime);
}

#[test]
fn failed_job_cleans_up() {
    // Temp file removed, destination never created.
    let mut j = JobRun::new(100, false);
    j.start();
    let attach = j.fail(RemoveOutcome::Removed);
    assert!(matches!(j.phase, JobPhase::Failed));
    assert!(!j.temp_exists);
    assert!(!j.dest_exists);
    assert!(!attach);
}

#[test]
fn already_absent_temp_needs_no_secondary_context() {
    let mut j = JobRun::new(100, false);
    j.start();
    let attach = j.fail(RemoveOutcome::AlreadyAbsent);
    assert!(matches!(j.phase, JobPhase::Failed));
    assert!(!j.temp_exists);
    assert!(!attach);
}

#[test]
fn failed_temp_removal_is_attached_without_masking() {
    let mut j = JobRun::new(100, false);
    j.start();
    let attach = j.fail(RemoveOutcome::Failed);
    assert!(matches!(j.phase, JobPhase::Failed));
    assert!(j.temp_exists);
    assert!(attach);
}

#[test]
fn progress_is_monotone_and_clamped() {
    let mut j = JobRun::new(0, false);
    j.start();
    assert_eq!(j.progress(1, 10), 100);
    assert_eq!(j.progress(5, 10), 500);
    // The engine reports a position behind the last one: the ratio holds.
    assert_eq!(j.progress(3, 10), 500);
    // Position beyond the duration clamps to the whole.
    assert_eq!(j.progress(20, 10), 1000);
    assert_eq!(j.progress(10, 10), 1000);
}

#[test]
fn progress_rounds_down() {
    let mut j = JobRun::new(0, false);
    j.start();
    assert_eq!(j.progress(1, 3), 333);
    assert_eq!(j.progress(2, 3), 666);
}

#[test]
fn failure_log_entry_names_the_job() {
    let entry = log_entry("d.flac", "engine reported an error");
    assert_eq!(entry, "Transcoding failed for d.flac: engine reported an error\n");
    assert!(entry.contains("d.flac"));
}
