use interlude_process_api::decimal::{push_unsigned, signed_text};
use interlude_process_api::session::{Call, Event, Session, Stage, Step, OUTPUT_PATH, OWNER_RWX};

fn texts_written(steps: &[Step]) -> Vec<String> {
    let mut out = Vec::new();
    for s in steps {
        if let Call::Write { text, .. } = &s.call {
            out.push(text.clone());
        }
    }
    out
}

fn drive(pid: u32, events: &[Event]) -> (Session, Vec<Step>) {
    let (mut s, first) = Session::start(pid);
    let mut steps = vec![first];
    for e in events {
        let st = s.step(*e);
        steps.push(st);
    }
    (s, steps)
}

fn child_events(fd: i32) -> Vec<Event> {
    vec![Event::Opened(fd), Event::Forked(0), Event::Wrote(66), Event::Wrote(30), Event::Closed(0)]
}

fn parent_events(fd: i32, child: i32) -> Vec<Event> {
    vec![
        Event::Opened(fd),
        Event::Forked(child),
        Event::Wrote(70),
        Event::Reaped(child),
        Event::Wrote(32),
        Event::Closed(0),
    ]
}

fn abort_text(step: &Step) -> Option<String> {
    match &step.call {
        Call::Abort(why) => Some(why.clone()),
        _ => None,
    }
}

#[test]
fn decimal_texts() {
    assert_eq!(signed_text(0), "0");
    assert_eq!(signed_text(7), "7");
    assert_eq!(signed_text(113), "113");
    assert_eq!(signed_text(-12), "-12");
    assert_eq!(signed_text(1000), "1000");
    assert_eq!(signed_text(i128::MAX), "170141183460469231731687303715884105727");
    assert_eq!(signed_text(i128::MIN), "-170141183460469231731687303715884105728");
}

#[test]
fn push_unsigned_appends() {
    let mut s = String::from("n=");
    push_unsigned(&mut s, 90210);
    assert_eq!(s, "n=90210");
    let mut t = String::new();
    push_unsigned(&mut t, u128::MAX);
    assert_eq!(t, "340282366920938463463374607431768211455");
}

#[test]
fn start_opens_truncating() {
    let (s, step) = Session::start(42);
    assert_eq!(s.stage, Stage::AwaitOpen);
    assert_eq!(s.counter, 100);
    assert!(step.say.is_empty());
    match step.call {
        Call::Open(req) => {
            assert_eq!(req.path, "./test_ostep_ffi.txt");
            assert_eq!(req.path, OUTPUT_PATH);
            assert!(req.create);
            assert!(req.write_only);
            assert!(req.truncate);
            assert_eq!(req.mode, 0o700);
            assert_eq!(OWNER_RWX, 448);
        }
        other => panic!("expected an open, got {:?}", other),
    }
}

#[test]
fn second_start_truncates_again() {
    for _ in 0..2 {
        let (_, step) = Session::start(5);
        match step.call {
            Call::Open(req) => assert!(req.truncate && req.create),
            other => panic!("expected an open, got {:?}", other),
        }
    }
}

#[test]
fn pre_fork_announcements() {
    let (mut s, _) = Session::start(42);
    let step = s.step(Event::Opened(3));
    assert_eq!(
        step.say,
        vec![
            "Parent pid: 42".to_string(),
            "File descriptor pre-fork: 3".to_string(),
            "Still the parent".to_string(),
        ]
    );
    assert!(matches!(step.call, Call::Fork));
    assert_eq!(s.counter, 110);
    assert_eq!(s.fd, 3);
}

#[test]
fn child_run_writes_common_then_own_line() {
    let (s, steps) = drive(42, &child_events(3));
    assert_eq!(
        texts_written(&steps),
        vec![
            "Common instructions. Child (0) and Parent (42) are both writing.\n".to_string(),
            "It's the child (0). X is: 113\n".to_string(),
        ]
    );
    assert_eq!(steps[2].say[1], "File descriptor post fork is: 3");
    assert_eq!(steps[3].say, vec!["It's the child (0). X is: 113".to_string()]);
    assert!(matches!(steps[4].call, Call::Close(3)));
    assert!(matches!(steps[5].call, Call::Exit));
    assert_eq!(s.stage, Stage::Done);
    assert_eq!(s.counter, 113);
}

#[test]
fn parent_run_waits_then_writes_own_line() {
    let (s, steps) = drive(42, &parent_events(3, 77));
    assert_eq!(
        texts_written(&steps),
        vec![
            "Common instructions. Child (77) and Parent (42) are both writing.\n".to_string(),
            "It's the parent (77). X is: 112\n".to_string(),
        ]
    );
    assert!(matches!(steps[3].call, Call::Wait));
    assert!(steps[3].say.is_empty());
    assert!(matches!(steps[4].call, Call::Write { fd: 3, .. }));
    assert!(matches!(steps[6].call, Call::Exit));
    assert_eq!(s.stage, Stage::Done);
    assert_eq!(s.counter, 112);
}

#[test]
fn file_is_not_empty_after_both_runs() {
    let (_, c) = drive(9, &child_events(4));
    let (_, p) = drive(9, &parent_events(4, 10));
    let mut file = String::new();
    for t in texts_written(&c).iter().chain(texts_written(&p).iter()) {
        file.push_str(t);
    }
    assert!(!file.is_empty());
    assert_eq!(file.lines().count(), 4);
}

#[test]
fn one_closing_line_each() {
    let (_, c) = drive(9, &child_events(4));
    let (_, p) = drive(9, &parent_events(4, 10));
    let cw = texts_written(&c);
    let pw = texts_written(&p);
    let file = vec![cw[0].clone(), pw[0].clone(), cw[1].clone(), pw[1].clone()];
    let children = file.iter().filter(|l| l.starts_with("It's the child (")).count();
    let parents = file.iter().filter(|l| l.starts_with("It's the parent (")).count();
    assert_eq!(children, 1);
    assert_eq!(parents, 1);
}

#[test]
fn counters_diverge_after_fork() {
    let (c, _) = drive(9, &child_events(4));
    let (p, _) = drive(9, &parent_events(4, 10));
    assert_eq!(c.counter, 113);
    assert_eq!(p.counter, 112);
    assert_eq!(c.counter, p.counter + 1);
}

#[test]
fn parent_line_comes_after_wait() {
    let (_, p) = drive(9, &parent_events(4, 10));
    let wait_at = p.iter().position(|s| matches!(s.call, Call::Wait)).unwrap();
    let line_at = p
        .iter()
        .position(|s| matches!(&s.call, Call::Write { text, .. } if text.starts_with("It's the parent (")))
        .unwrap();
    assert!(wait_at < line_at);
    let (_, c) = drive(9, &child_events(4));
    let own_at = c
        .iter()
        .position(|s| matches!(&s.call, Call::Write { text, .. } if text.starts_with("It's the child (")))
        .unwrap();
    let exit_at = c.iter().position(|s| matches!(s.call, Call::Exit)).unwrap();
    assert!(own_at < exit_at);
}

#[test]
fn open_failure_aborts_without_writing() {
    let (s, steps) = drive(9, &[Event::Opened(-1), Event::Forked(0), Event::Wrote(5), Event::Closed(0)]);
    assert_eq!(abort_text(&steps[1]).unwrap(), "It wasn't possible to open the file.");
    assert!(texts_written(&steps).is_empty());
    assert_eq!(s.stage, Stage::Failed);
}

#[test]
fn fork_failure_aborts() {
    let (s, steps) = drive(9, &[Event::Opened(3), Event::Forked(-1)]);
    assert_eq!(abort_text(&steps[2]).unwrap(), "It wasn't possible to spawn a child!");
    assert_eq!(s.stage, Stage::Failed);
}

#[test]
fn write_failure_aborts() {
    let (s, steps) = drive(9, &[Event::Opened(3), Event::Forked(0), Event::Wrote(-1)]);
    assert_eq!(abort_text(&steps[3]).unwrap(), "Error writing 3. Error: -1");
    assert_eq!(s.stage, Stage::Failed);
    let (_, steps) = drive(
        9,
        &[Event::Opened(5), Event::Forked(0), Event::Wrote(10), Event::Wrote(-9)],
    );
    assert_eq!(abort_text(&steps[4]).unwrap(), "Error writing 5. Error: -9");
}

#[test]
fn wait_failure_aborts() {
    let (s, steps) = drive(9, &[Event::Opened(3), Event::Forked(8), Event::Wrote(1), Event::Reaped(-1)]);
    assert_eq!(abort_text(&steps[4]).unwrap(), "Failed to wait for a child.");
    assert_eq!(s.stage, Stage::Failed);
}

#[test]
fn close_failure_aborts() {
    let (s, steps) = drive(
        9,
        &[Event::Opened(3), Event::Forked(0), Event::Wrote(1), Event::Wrote(1), Event::Closed(-1)],
    );
    assert_eq!(abort_text(&steps[5]).unwrap(), "Failed to close file-descriptor: 3");
    assert_eq!(s.stage, Stage::Failed);
}

#[test]
fn unexpected_event_aborts() {
    let (s, steps) = drive(9, &[Event::Forked(0)]);
    assert_eq!(abort_text(&steps[1]).unwrap(), "Unexpected event.");
    assert_eq!(s.stage, Stage::Failed);
    let (s, steps) = drive(9, &child_events(3).into_iter().chain([Event::Closed(0)]).collect::<Vec<_>>());
    assert_eq!(abort_text(&steps[6]).unwrap(), "Unexpected event.");
    assert_eq!(s.stage, Stage::Failed);
}
