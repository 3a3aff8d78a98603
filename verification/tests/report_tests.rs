use audio_conv::bus::Msg;
use audio_conv::bus::MsgQueue;
use audio_conv::config::Transcode;
use audio_conv::plan::ConversionArgs;
use audio_conv::report::State;
use audio_conv::report::UnknownTask;

fn args(rel: &[u8]) -> ConversionArgs {
    ConversionArgs { rel_from_path: rel.to_vec(), transcode: Transcode::Copy }
}

#[test]
fn queue_hands_messages_over_in_push_order() {
    let mut q = MsgQueue::new();
    q.push(Msg::Init { task_len: 2, log_path: String::from("run.log") });
    q.push(Msg::TaskStart { id: 0, args: args(b"a.flac") });
    q.push(Msg::TaskProgress { id: 0, ratio: 500 });
    let mut drained = Vec::new();
    q.swap_inner(&mut drained);
    assert_eq!(drained.len(), 3);
    assert!(matches!(drained[0], Msg::Init { task_len: 2, .. }));
    assert!(matches!(drained[1], Msg::TaskStart { id: 0, .. }));
    assert!(matches!(drained[2], Msg::TaskProgress { id: 0, ratio: 500 }));
    // The queue is empty after the drain.
    let mut second = Vec::new();
    q.swap_inner(&mut second);
    assert_eq!(second.len(), 0);
}

#[test]
fn consumer_tracks_a_job_through_its_life() {
    let mut s = State::new();
    assert_eq!(
        s.process_msg(Msg::Init { task_len: 2, log_path: String::from("run.log") }),
        Ok(true)
    );
    assert_eq!(s.task_len, Some(2));
    assert_eq!(s.log_path.as_deref(), Some("run.log"));

    assert_eq!(s.process_msg(Msg::TaskStart { id: 0, args: args(b"a.flac") }), Ok(true));
    assert_eq!(s.running_tasks.len(), 1);
    assert_eq!(s.running_tasks[0].ratio, None);

    assert_eq!(s.process_msg(Msg::TaskProgress { id: 0, ratio: 250 }), Ok(true));
    assert_eq!(s.running_tasks[0].ratio, Some(250));

    assert_eq!(s.process_msg(Msg::TaskEnd { id: 0 }), Ok(true));
    assert_eq!(s.running_tasks.len(), 0);
    assert_eq!(s.ended_tasks, 1);
    assert!(!s.has_errored);
}

#[test]
fn consumer_marks_the_run_errored_on_a_task_error() {
    let mut s = State::new();
    s.process_msg(Msg::TaskStart { id: 3, args: args(b"d.flac") }).unwrap();
    assert_eq!(s.process_msg(Msg::TaskError { id: 3 }), Ok(true));
    assert_eq!(s.running_tasks.len(), 0);
    assert_eq!(s.ended_tasks, 1);
    assert!(s.has_errored);
}

#[test]
fn exit_tells_the_consumer_to_stop() {
    let mut s = State::new();
    assert_eq!(s.process_msg(Msg::Exit), Ok(false));
}

#[test]
fn messages_for_unknown_jobs_are_faults() {
    let mut s = State::new();
    assert_eq!(s.process_msg(Msg::TaskEnd { id: 7 }), Err(UnknownTask { id: 7 }));
    assert_eq!(s.process_msg(Msg::TaskProgress { id: 7, ratio: 10 }), Err(UnknownTask { id: 7 }));
    assert_eq!(s.process_msg(Msg::TaskError { id: 7 }), Err(UnknownTask { id: 7 }));
    assert_eq!(s.ended_tasks, 0);
    assert!(!s.has_errored);
}

#[test]
fn consumer_keeps_jobs_apart_by_id() {
    let mut s = State::new();
    s.process_msg(Msg::TaskStart { id: 0, args: args(b"a.flac") }).unwrap();
    s.process_msg(Msg::TaskStart { id: 1, args: args(b"b.flac") }).unwrap();
    s.process_msg(Msg::TaskProgress { id: 1, ratio: 700 }).unwrap();
    assert_eq!(s.running_tasks.len(), 2);
    let a = s.running_tasks.iter().find(|t| t.id == 0).unwrap();
    let b = s.running_tasks.iter().find(|t| t.id == 1).unwrap();
    assert_eq!(a.ratio, None);
    assert_eq!(b.ratio, Some(700));
    s.process_msg(Msg::TaskEnd { id: 0 }).unwrap();
    assert_eq!(s.running_tasks.len(), 1);
    assert_eq!(s.running_tasks[0].id, 1);
}
