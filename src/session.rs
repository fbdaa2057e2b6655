//! The walkthrough as a state machine: a result of a system call goes in, the
//! next call (with what to print before it) comes out.
use vstd::prelude::*;
use crate::messages::{
    child_line, child_text, close_failed_line, close_failed_text, common_line, common_text,
    fd_after_line, fd_after_text, fd_before_line, fd_before_text, fork_failed_text,
    open_failed_text, parent_line, parent_text, pid_line, pid_text, record, still_parent_line,
    still_parent_text, to_record, unexpected_text, wait_failed_text, write_failed_line,
    write_failed_text,
};

verus! {

/// The counter's value when the walkthrough starts.
pub const COUNTER_START: i32 = 100;

/// What the parent adds to the counter before it forks.
pub const PRE_FORK_STEP: i32 = 10;

/// What the child adds to its copy of the counter.
pub const CHILD_STEP: i32 = 3;

/// What the parent adds to its copy of the counter once the child is reaped.
pub const PARENT_STEP: i32 = 2;

/// Read, write and execute permission for the owner, as an `st_mode` value.
pub const OWNER_RWX: u32 = 0o700;

/// The file that both processes write to.
pub const OUTPUT_PATH: &'static str = "./test_ostep_ffi.txt";

/// The call whose result the session waits for, or how it ended.
#[derive(Clone, Copy, Debug, PartialEq, Eq, Structural)]
pub enum Stage {
    AwaitOpen,
    AwaitFork,
    AwaitCommonWrite,
    AwaitReap,
    AwaitFinalWrite,
    AwaitClose,
    Done,
    Failed,
}

/// The result of a system call, as the call returned it.
#[derive(Clone, Copy, Debug, PartialEq, Eq, Structural)]
pub enum Event {
    /// `open`: the new descriptor, or a negative value on failure.
    Opened(i32),
    /// `fork`: `0` in the child, the child's id in the parent, negative on failure.
    Forked(i32),
    /// `write`: the number of bytes written, or a negative value on failure.
    Wrote(isize),
    /// `wait`: the id of the reaped child, or a negative value on failure.
    Reaped(i32),
    /// `close`: `0`, or a negative value on failure.
    Closed(i32),
}

/// How to open the output file.
#[derive(Debug)]
pub struct OpenRequest {
    pub path: String,
    pub create: bool,
    pub write_only: bool,
    pub truncate: bool,
    pub mode: u32,
}

/// The next thing to do.
#[derive(Debug)]
pub enum Call {
    Open(OpenRequest),
    Fork,
    /// Write all of `text` to `fd`.
    Write { fd: i32, text: String },
    /// Block until a child terminates.
    Wait,
    Close(i32),
    /// Terminate normally.
    Exit,
    /// Terminate with a failure status, after printing the diagnostic.
    Abort(String),
}

/// What a [`Call`] is, over plain values.
pub enum CallView {
    Open { path: Seq<char>, create: bool, write_only: bool, truncate: bool, mode: u32 },
    Fork,
    Write { fd: i32, text: Seq<char> },
    Wait,
    Close(i32),
    Exit,
    Abort(Seq<char>),
}

impl View for Call {
    type V = CallView;

    open spec fn view(&self) -> CallView {
        match self {
            Call::Open(o) => CallView::Open {
                path: o.path@,
                create: o.create,
                write_only: o.write_only,
                truncate: o.truncate,
                mode: o.mode,
            },
            Call::Fork => CallView::Fork,
            Call::Write { fd, text } => CallView::Write { fd: *fd, text: text@ },
            Call::Wait => CallView::Wait,
            Call::Close(fd) => CallView::Close(*fd),
            Call::Exit => CallView::Exit,
            Call::Abort(why) => CallView::Abort(why@),
        }
    }
}

/// Lines to print on standard output, in order, then a call to make.
#[derive(Debug)]
pub struct Step {
    pub say: Vec<String>,
    pub call: Call,
}

/// What a [`Step`] is, over plain values.
pub struct StepView {
    pub say: Seq<Seq<char>>,
    pub call: CallView,
}

impl View for Step {
    type V = StepView;

    open spec fn view(&self) -> StepView {
        StepView { say: self.say@.map_values(|l: String| l@), call: self.call@ }
    }
}

/// The state of one process: what the process that forked is called, the
/// descriptor, what the fork returned here, and this process's counter.
#[derive(Clone, Copy, Debug, PartialEq, Eq, Structural)]
pub struct Session {
    pub stage: Stage,
    pub parent_pid: u32,
    pub fd: i32,
    pub fork_result: i32,
    pub counter: i32,
}

/// The call that opens the output file: created if missing, write-only,
/// truncated, readable, writable and executable by the owner.
pub open spec fn open_call() -> CallView {
    CallView::Open {
        path: OUTPUT_PATH@,
        create: true,
        write_only: true,
        truncate: true,
        mode: OWNER_RWX,
    }
}

/// The session of a process with id `parent_pid` before anything is done.
pub open spec fn initial(parent_pid: u32) -> Session {
    Session {
        stage: Stage::AwaitOpen,
        parent_pid,
        fd: -1i32,
        fork_result: -1i32,
        counter: COUNTER_START,
    }
}

/// A step that prints nothing and makes `call`.
pub open spec fn quiet(call: CallView) -> StepView {
    StepView { say: seq![], call }
}

/// The session stops on a fatal error, with `why` as the diagnostic.
pub open spec fn fail(s: Session, why: Seq<char>) -> (Session, StepView) {
    (Session { stage: Stage::Failed, ..s }, quiet(CallView::Abort(why)))
}

/// What follows `event` in session `s`: the new session and the next step.
pub open spec fn next(s: Session, event: Event) -> (Session, StepView) {
    match (s.stage, event) {
        (Stage::AwaitOpen, Event::Opened(fd)) => {
            if fd < 0 {
                fail(s, open_failed_text())
            } else {
                (
                    Session {
                        stage: Stage::AwaitFork,
                        fd,
                        counter: (s.counter + PRE_FORK_STEP) as i32,
                        ..s
                    },
                    StepView {
                        say: seq![
                            pid_text(s.parent_pid as int),
                            fd_before_text(fd as int),
                            still_parent_text(),
                        ],
                        call: CallView::Fork,
                    },
                )
            }
        },
        (Stage::AwaitFork, Event::Forked(r)) => {
            if r < 0 {
                fail(s, fork_failed_text())
            } else {
                let common = common_text(r as int, s.parent_pid as int);
                (
                    Session { stage: Stage::AwaitCommonWrite, fork_result: r, ..s },
                    StepView {
                        say: seq![common, fd_after_text(s.fd as int)],
                        call: CallView::Write { fd: s.fd, text: record(common) },
                    },
                )
            }
        },
        (Stage::AwaitCommonWrite, Event::Wrote(n)) => {
            if n < 0 {
                fail(s, write_failed_text(s.fd as int, n as int))
            } else if s.fork_result == 0 {
                let x = (s.counter + CHILD_STEP) as i32;
                let line = child_text(s.fork_result as int, x as int);
                (
                    Session { stage: Stage::AwaitFinalWrite, counter: x, ..s },
                    StepView { say: seq![line], call: CallView::Write { fd: s.fd, text: record(line) } },
                )
            } else {
                (Session { stage: Stage::AwaitReap, ..s }, quiet(CallView::Wait))
            }
        },
        (Stage::AwaitReap, Event::Reaped(w)) => {
            if w < 0 {
                fail(s, wait_failed_text())
            } else {
                let x = (s.counter + PARENT_STEP) as i32;
                let line = parent_text(s.fork_result as int, x as int);
                (
                    Session { stage: Stage::AwaitFinalWrite, counter: x, ..s },
                    StepView { say: seq![line], call: CallView::Write { fd: s.fd, text: record(line) } },
                )
            }
        },
        (Stage::AwaitFinalWrite, Event::Wrote(n)) => {
            if n < 0 {
                fail(s, write_failed_text(s.fd as int, n as int))
            } else {
                (Session { stage: Stage::AwaitClose, ..s }, quiet(CallView::Close(s.fd)))
            }
        },
        (Stage::AwaitClose, Event::Closed(c)) => {
            if c < 0 {
                fail(s, close_failed_text(s.fd as int))
            } else {
                (Session { stage: Stage::Done, ..s }, quiet(CallView::Exit))
            }
        },
        _ => fail(s, unexpected_text()),
    }
}

impl Session {
    /// The counter stays within what the walkthrough adds to it, and holds
    /// exactly its starting value before the open and its pre-fork value
    /// until a process takes its own step.
    pub open spec fn wf(self) -> bool {
        &&& COUNTER_START <= self.counter <= COUNTER_START + PRE_FORK_STEP + CHILD_STEP
        &&& self.stage == Stage::AwaitOpen ==> self.counter == COUNTER_START
        &&& (self.stage == Stage::AwaitFork || self.stage == Stage::AwaitCommonWrite
            || self.stage == Stage::AwaitReap) ==> self.counter == COUNTER_START + PRE_FORK_STEP
    }

    /// Starts the walkthrough in the process with id `parent_pid`: the first
    /// step opens the output file.
    pub fn start(parent_pid: u32) -> (r: (Session, Step))
        ensures
            r.0 == initial(parent_pid),
            r.0.wf(),
            r.1@ == quiet(open_call()),
    {
        let s = Session {
            stage: Stage::AwaitOpen,
            parent_pid,
            fd: -1,
            fork_result: -1,
            counter: COUNTER_START,
        };
        let req = OpenRequest {
            path: String::from_str(OUTPUT_PATH),
            create: true,
            write_only: true,
            truncate: true,
            mode: OWNER_RWX,
        };
        let step = Step { say: Vec::new(), call: Call::Open(req) };
        assert(step@.say =~= seq![]);
        (s, step)
    }

    fn fail(&mut self, why: String) -> (r: Step)
        requires
            old(self).wf(),
        ensures
            (*final(self), r@) == fail(*old(self), why@),
            final(self).wf(),
    {
        self.stage = Stage::Failed;
        let r = Step { say: Vec::new(), call: Call::Abort(why) };
        assert(r@.say =~= seq![]);
        r
    }

    fn quiet(call: Call) -> (r: Step)
        ensures
            r@ == quiet(call@),
    {
        let r = Step { say: Vec::new(), call };
        assert(r@.say =~= seq![]);
        r
    }

    /// Takes the result of the pending call and gives the next step.
    pub fn step(&mut self, event: Event) -> (r: Step)
        requires
            old(self).wf(),
        ensures
            (*final(self), r@) == next(*old(self), event),
            final(self).wf(),
    {
        match (self.stage, event) {
            (Stage::AwaitOpen, Event::Opened(fd)) => {
                if fd < 0 {
                    return self.fail(String::from_str("It wasn't possible to open the file."));
                }
                self.fd = fd;
                self.counter = self.counter + PRE_FORK_STEP;
                self.stage = Stage::AwaitFork;
                let say = vec![pid_line(self.parent_pid), fd_before_line(fd), still_parent_line()];
                let r = Step { say, call: Call::Fork };
                assert(r@.say =~= seq![
                    pid_text(self.parent_pid as int),
                    fd_before_text(fd as int),
                    still_parent_text(),
                ]);
                r
            },
            (Stage::AwaitFork, Event::Forked(c)) => {
                if c < 0 {
                    return self.fail(String::from_str("It wasn't possible to spawn a child!"));
                }
                self.fork_result = c;
                self.stage = Stage::AwaitCommonWrite;
                let common = common_line(c, self.parent_pid);
                let text = to_record(&common);
                let say = vec![common, fd_after_line(self.fd)];
                let r = Step { say, call: Call::Write { fd: self.fd, text } };
                assert(r@.say =~= seq![
                    common_text(c as int, self.parent_pid as int),
                    fd_after_text(self.fd as int),
                ]);
                r
            },
            (Stage::AwaitCommonWrite, Event::Wrote(n)) => {
                if n < 0 {
                    let why = write_failed_line(self.fd, n);
                    return self.fail(why);
                }
                if self.fork_result == 0 {
                    self.counter = self.counter + CHILD_STEP;
                    self.stage = Stage::AwaitFinalWrite;
                    let line = child_line(self.fork_result, self.counter);
                    let text = to_record(&line);
                    let r = Step { say: vec![line], call: Call::Write { fd: self.fd, text } };
                    assert(r@.say =~= seq![child_text(self.fork_result as int, self.counter as int)]);
                    r
                } else {
                    self.stage = Stage::AwaitReap;
                    Self::quiet(Call::Wait)
                }
            },
            (Stage::AwaitReap, Event::Reaped(w)) => {
                if w < 0 {
                    return self.fail(String::from_str("Failed to wait for a child."));
                }
                self.counter = self.counter + PARENT_STEP;
                self.stage = Stage::AwaitFinalWrite;
                let line = parent_line(self.fork_result, self.counter);
                let text = to_record(&line);
                let r = Step { say: vec![line], call: Call::Write { fd: self.fd, text } };
                assert(r@.say =~= seq![parent_text(self.fork_result as int, self.counter as int)]);
                r
            },
            (Stage::AwaitFinalWrite, Event::Wrote(n)) => {
                if n < 0 {
                    let why = write_failed_line(self.fd, n);
                    return self.fail(why);
                }
                self.stage = Stage::AwaitClose;
                Self::quiet(Call::Close(self.fd))
            },
            (Stage::AwaitClose, Event::Closed(c)) => {
                if c < 0 {
                    let why = close_failed_line(self.fd);
                    return self.fail(why);
                }
                self.stage = Stage::Done;
                Self::quiet(Call::Exit)
            },
            _ => self.fail(String::from_str("Unexpected event.")),
        }
    }
}

} // verus!
