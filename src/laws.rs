//! What whole runs of the walkthrough do, proved over [`next`].
use vstd::prelude::*;
use crate::messages::{child_text, common_text, open_failed_text, parent_text, record};
use crate::session::{
    initial, next, open_call, CallView, Event, Session, Stage, CHILD_STEP, COUNTER_START,
    PARENT_STEP, PRE_FORK_STEP,
};

verus! {

/// The session after `events`, taken one after the other from `s`.
pub open spec fn run(s: Session, events: Seq<Event>) -> Session
    decreases events.len(),
{
    if events.len() == 0 {
        s
    } else {
        run(next(s, events[0]).0, events.drop_first())
    }
}

/// The calls that `events`, taken one after the other from `s`, lead to.
pub open spec fn trace(s: Session, events: Seq<Event>) -> Seq<CallView>
    decreases events.len(),
{
    if events.len() == 0 {
        seq![]
    } else {
        seq![next(s, events[0]).1.call] + trace(next(s, events[0]).0, events.drop_first())
    }
}

/// Every call that a process with id `parent_pid` makes when its calls
/// return `events`: the opening call, then one call per result.
pub open spec fn calls(parent_pid: u32, events: Seq<Event>) -> Seq<CallView> {
    seq![open_call()] + trace(initial(parent_pid), events)
}

/// The texts that `calls` write, in order.
pub open spec fn written(calls: Seq<CallView>) -> Seq<Seq<char>>
    decreases calls.len(),
{
    if calls.len() == 0 {
        seq![]
    } else {
        let rest = written(calls.drop_first());
        match calls[0] {
            CallView::Write { text, .. } => seq![text] + rest,
            _ => rest,
        }
    }
}

/// Whether `t` begins with `prefix`.
pub open spec fn starts_with(t: Seq<char>, prefix: Seq<char>) -> bool {
    prefix.len() <= t.len() && t.subrange(0, prefix.len() as int) == prefix
}

/// How many of `lines` begin with `prefix`.
pub open spec fn count_starting(lines: Seq<Seq<char>>, prefix: Seq<char>) -> nat
    decreases lines.len(),
{
    if lines.len() == 0 {
        0
    } else {
        (if starts_with(lines[0], prefix) {
            1nat
        } else {
            0nat
        }) + count_starting(lines.drop_first(), prefix)
    }
}

/// How the child's closing line begins.
pub open spec fn child_mark() -> Seq<char> {
    "It's the child ("@
}

/// How the parent's closing line begins.
pub open spec fn parent_mark() -> Seq<char> {
    "It's the parent ("@
}

/// A child's results: the file opened on `fd`, the fork returning `0`, two
/// writes and the close succeeding.
pub open spec fn child_events(fd: i32, n1: isize, n2: isize, c: i32) -> Seq<Event> {
    seq![Event::Opened(fd), Event::Forked(0), Event::Wrote(n1), Event::Wrote(n2), Event::Closed(c)]
}

/// A parent's results: the file opened on `fd`, the fork returning the
/// child's id `child`, a write, the wait, a write and the close succeeding.
pub open spec fn parent_events(
    fd: i32,
    child: i32,
    n1: isize,
    w: i32,
    n2: isize,
    c: i32,
) -> Seq<Event> {
    seq![
        Event::Opened(fd),
        Event::Forked(child),
        Event::Wrote(n1),
        Event::Reaped(w),
        Event::Wrote(n2),
        Event::Closed(c),
    ]
}

proof fn lemma_unfold(s: Session, e: Event, rest: Seq<Event>)
    ensures
        run(s, seq![e] + rest) == run(next(s, e).0, rest),
        trace(s, seq![e] + rest) == seq![next(s, e).1.call] + trace(next(s, e).0, rest),
{
    let es = seq![e] + rest;
    assert(es[0] == e);
    assert(es.drop_first() =~= rest);
}

proof fn lemma_written_unfold(c: CallView, rest: Seq<CallView>)
    ensures
        written(seq![c] + rest) == match c {
            CallView::Write { text, .. } => seq![text] + written(rest),
            _ => written(rest),
        },
{
    let cs = seq![c] + rest;
    assert(cs[0] == c);
    assert(cs.drop_first() =~= rest);
}

/// A child whose calls all succeed makes exactly these calls: it opens the
/// file, forks, writes the common line, writes its own line with its counter
/// at the start value plus its pre-fork and child steps, closes and exits.
pub proof fn lemma_child_run(parent_pid: u32, fd: i32, n1: isize, n2: isize, c: i32)
    requires
        fd >= 0,
        n1 >= 0,
        n2 >= 0,
        c >= 0,
    ensures
        calls(parent_pid, child_events(fd, n1, n2, c)) == seq![
            open_call(),
            CallView::Fork,
            CallView::Write { fd, text: record(common_text(0, parent_pid as int)) },
            CallView::Write {
                fd,
                text: record(child_text(0, COUNTER_START + PRE_FORK_STEP + CHILD_STEP)),
            },
            CallView::Close(fd),
            CallView::Exit,
        ],
        run(initial(parent_pid), child_events(fd, n1, n2, c)).stage == Stage::Done,
        run(initial(parent_pid), child_events(fd, n1, n2, c)).counter == 113,
{
    let s0 = initial(parent_pid);
    let s1 = next(s0, Event::Opened(fd)).0;
    let s2 = next(s1, Event::Forked(0)).0;
    let s3 = next(s2, Event::Wrote(n1)).0;
    let s4 = next(s3, Event::Wrote(n2)).0;
    let s5 = next(s4, Event::Closed(c)).0;
    let e5: Seq<Event> = seq![];
    let e4 = seq![Event::Closed(c)] + e5;
    let e3 = seq![Event::Wrote(n2)] + e4;
    let e2 = seq![Event::Wrote(n1)] + e3;
    let e1 = seq![Event::Forked(0)] + e2;
    let e0 = seq![Event::Opened(fd)] + e1;
    assert(e0 =~= child_events(fd, n1, n2, c));
    lemma_unfold(s4, Event::Closed(c), e5);
    lemma_unfold(s3, Event::Wrote(n2), e4);
    lemma_unfold(s2, Event::Wrote(n1), e3);
    lemma_unfold(s1, Event::Forked(0), e2);
    lemma_unfold(s0, Event::Opened(fd), e1);
    assert(calls(parent_pid, child_events(fd, n1, n2, c)) =~= seq![
        open_call(),
        CallView::Fork,
        CallView::Write { fd, text: record(common_text(0, parent_pid as int)) },
        CallView::Write {
            fd,
            text: record(child_text(0, COUNTER_START + PRE_FORK_STEP + CHILD_STEP)),
        },
        CallView::Close(fd),
        CallView::Exit,
    ]);
}

/// A parent whose calls all succeed makes exactly these calls: it opens the
/// file, forks, writes the common line, waits for the child, and only then
/// writes its own line with its counter at the start value plus its pre-fork
/// and parent steps, closes and exits.
pub proof fn lemma_parent_run(
    parent_pid: u32,
    fd: i32,
    child: i32,
    n1: isize,
    w: i32,
    n2: isize,
    c: i32,
)
    requires
        fd >= 0,
        child > 0,
        n1 >= 0,
        w >= 0,
        n2 >= 0,
        c >= 0,
    ensures
        calls(parent_pid, parent_events(fd, child, n1, w, n2, c)) == seq![
            open_call(),
            CallView::Fork,
            CallView::Write { fd, text: record(common_text(child as int, parent_pid as int)) },
            CallView::Wait,
            CallView::Write {
                fd,
                text: record(
                    parent_text(child as int, COUNTER_START + PRE_FORK_STEP + PARENT_STEP),
                ),
            },
            CallView::Close(fd),
            CallView::Exit,
        ],
        run(initial(parent_pid), parent_events(fd, child, n1, w, n2, c)).stage == Stage::Done,
        run(initial(parent_pid), parent_events(fd, child, n1, w, n2, c)).counter == 112,
{
    let s0 = initial(parent_pid);
    let s1 = next(s0, Event::Opened(fd)).0;
    let s2 = next(s1, Event::Forked(child)).0;
    let s3 = next(s2, Event::Wrote(n1)).0;
    let s4 = next(s3, Event::Reaped(w)).0;
    let s5 = next(s4, Event::Wrote(n2)).0;
    let e6: Seq<Event> = seq![];
    let e5 = seq![Event::Closed(c)] + e6;
    let e4 = seq![Event::Wrote(n2)] + e5;
    let e3 = seq![Event::Reaped(w)] + e4;
    let e2 = seq![Event::Wrote(n1)] + e3;
    let e1 = seq![Event::Forked(child)] + e2;
    let e0 = seq![Event::Opened(fd)] + e1;
    assert(e0 =~= parent_events(fd, child, n1, w, n2, c));
    lemma_unfold(s5, Event::Closed(c), e6);
    lemma_unfold(s4, Event::Wrote(n2), e5);
    lemma_unfold(s3, Event::Reaped(w), e4);
    lemma_unfold(s2, Event::Wrote(n1), e3);
    lemma_unfold(s1, Event::Forked(child), e2);
    lemma_unfold(s0, Event::Opened(fd), e1);
    assert(calls(parent_pid, parent_events(fd, child, n1, w, n2, c)) =~= seq![
        open_call(),
        CallView::Fork,
        CallView::Write { fd, text: record(common_text(child as int, parent_pid as int)) },
        CallView::Wait,
        CallView::Write {
            fd,
            text: record(parent_text(child as int, COUNTER_START + PRE_FORK_STEP + PARENT_STEP)),
        },
        CallView::Close(fd),
        CallView::Exit,
    ]);
}

proof fn lemma_child_written(parent_pid: u32, fd: i32, n1: isize, n2: isize, c: i32)
    requires
        fd >= 0,
        n1 >= 0,
        n2 >= 0,
        c >= 0,
    ensures
        written(calls(parent_pid, child_events(fd, n1, n2, c))) == seq![
            record(common_text(0, parent_pid as int)),
            record(child_text(0, 113)),
        ],
{
    lemma_child_run(parent_pid, fd, n1, n2, c);
    let common = CallView::Write { fd, text: record(common_text(0, parent_pid as int)) };
    let own = CallView::Write { fd, text: record(child_text(0, 113)) };
    let c5: Seq<CallView> = seq![];
    let c4 = seq![CallView::Exit] + c5;
    let c3 = seq![CallView::Close(fd)] + c4;
    let c2 = seq![own] + c3;
    let c1 = seq![common] + c2;
    let c0 = seq![CallView::Fork] + c1;
    let all = seq![open_call()] + c0;
    assert(all =~= calls(parent_pid, child_events(fd, n1, n2, c)));
    lemma_written_unfold(CallView::Exit, c5);
    lemma_written_unfold(CallView::Close(fd), c4);
    lemma_written_unfold(own, c3);
    lemma_written_unfold(common, c2);
    lemma_written_unfold(CallView::Fork, c1);
    lemma_written_unfold(open_call(), c0);
    assert(written(all) =~= seq![
        record(common_text(0, parent_pid as int)),
        record(child_text(0, 113)),
    ]);
}

proof fn lemma_parent_written(
    parent_pid: u32,
    fd: i32,
    child: i32,
    n1: isize,
    w: i32,
    n2: isize,
    c: i32,
)
    requires
        fd >= 0,
        child > 0,
        n1 >= 0,
        w >= 0,
        n2 >= 0,
        c >= 0,
    ensures
        written(calls(parent_pid, parent_events(fd, child, n1, w, n2, c))) == seq![
            record(common_text(child as int, parent_pid as int)),
            record(parent_text(child as int, 112)),
        ],
{
    lemma_parent_run(parent_pid, fd, child, n1, w, n2, c);
    let common = CallView::Write {
        fd,
        text: record(common_text(child as int, parent_pid as int)),
    };
    let own = CallView::Write { fd, text: record(parent_text(child as int, 112)) };
    let c6: Seq<CallView> = seq![];
    let c5 = seq![CallView::Exit] + c6;
    let c4 = seq![CallView::Close(fd)] + c5;
    let c3 = seq![own] + c4;
    let c2 = seq![CallView::Wait] + c3;
    let c1 = seq![common] + c2;
    let c0 = seq![CallView::Fork] + c1;
    let all = seq![open_call()] + c0;
    assert(all =~= calls(parent_pid, parent_events(fd, child, n1, w, n2, c)));
    lemma_written_unfold(CallView::Exit, c6);
    lemma_written_unfold(CallView::Close(fd), c5);
    lemma_written_unfold(own, c4);
    lemma_written_unfold(CallView::Wait, c3);
    lemma_written_unfold(common, c2);
    lemma_written_unfold(CallView::Fork, c1);
    lemma_written_unfold(open_call(), c0);
    assert(written(all) =~= seq![
        record(common_text(child as int, parent_pid as int)),
        record(parent_text(child as int, 112)),
    ]);
}

proof fn lemma_common_unmarked(fork_result: int, parent_pid: int)
    ensures
        !starts_with(record(common_text(fork_result, parent_pid)), child_mark()),
        !starts_with(record(common_text(fork_result, parent_pid)), parent_mark()),
{
    reveal_strlit("Common instructions. Child (");
    reveal_strlit("It's the child (");
    reveal_strlit("It's the parent (");
    let t = record(common_text(fork_result, parent_pid));
    assert(t[0] == 'C');
    if starts_with(t, child_mark()) {
        assert(t.subrange(0, child_mark().len() as int)[0] == child_mark()[0]);
    }
    if starts_with(t, parent_mark()) {
        assert(t.subrange(0, parent_mark().len() as int)[0] == parent_mark()[0]);
    }
}

proof fn lemma_child_marked(fork_result: int, counter: int)
    ensures
        starts_with(record(child_text(fork_result, counter)), child_mark()),
        !starts_with(record(child_text(fork_result, counter)), parent_mark()),
{
    reveal_strlit("It's the child (");
    reveal_strlit("It's the parent (");
    let t = record(child_text(fork_result, counter));
    assert(t.subrange(0, child_mark().len() as int) =~= child_mark());
    assert(t[9] == 'c');
    if starts_with(t, parent_mark()) {
        assert(t.subrange(0, parent_mark().len() as int)[9] == parent_mark()[9]);
    }
}

proof fn lemma_parent_marked(fork_result: int, counter: int)
    ensures
        starts_with(record(parent_text(fork_result, counter)), parent_mark()),
        !starts_with(record(parent_text(fork_result, counter)), child_mark()),
{
    reveal_strlit("It's the child (");
    reveal_strlit("It's the parent (");
    let t = record(parent_text(fork_result, counter));
    assert(t.subrange(0, parent_mark().len() as int) =~= parent_mark());
    assert(t[9] == 'p');
    if starts_with(t, child_mark()) {
        assert(t.subrange(0, child_mark().len() as int)[9] == child_mark()[9]);
    }
}

/// The shared file after a child and a parent that both succeed: the two
/// common lines in either order, then the child's line, then the parent's.
pub open spec fn shared_file(
    child_written: Seq<Seq<char>>,
    parent_written: Seq<Seq<char>>,
    child_common_first: bool,
) -> Seq<Seq<char>> {
    if child_common_first {
        seq![child_written[0], parent_written[0], child_written[1], parent_written[1]]
    } else {
        seq![parent_written[0], child_written[0], child_written[1], parent_written[1]]
    }
}

/// After a child and a parent whose calls all succeed, the shared file is
/// not empty: it holds four lines, none of them empty.
pub proof fn lemma_file_not_empty(
    parent_pid: u32,
    fd: i32,
    child: i32,
    n1: isize,
    n2: isize,
    c: i32,
    m1: isize,
    w: i32,
    m2: isize,
    d: i32,
    child_common_first: bool,
)
    requires
        fd >= 0,
        child > 0,
        n1 >= 0,
        n2 >= 0,
        c >= 0,
        m1 >= 0,
        w >= 0,
        m2 >= 0,
        d >= 0,
    ensures
        ({
            let file = shared_file(
                written(calls(parent_pid, child_events(fd, n1, n2, c))),
                written(calls(parent_pid, parent_events(fd, child, m1, w, m2, d))),
                child_common_first,
            );
            &&& file.len() == 4
            &&& forall|i: int| 0 <= i < file.len() ==> #[trigger] file[i].len() > 0
        }),
{
    lemma_child_written(parent_pid, fd, n1, n2, c);
    lemma_parent_written(parent_pid, fd, child, m1, w, m2, d);
    reveal_strlit("\n");
    let file = shared_file(
        written(calls(parent_pid, child_events(fd, n1, n2, c))),
        written(calls(parent_pid, parent_events(fd, child, m1, w, m2, d))),
        child_common_first,
    );
    assert(file[0].len() > 0 && file[1].len() > 0 && file[2].len() > 0 && file[3].len() > 0);
}

/// The shared file of a successful child and parent holds exactly one line
/// that begins as the child's closing line does and exactly one that begins
/// as the parent's does, whichever common line came first.
pub proof fn lemma_one_closing_line_each(
    parent_pid: u32,
    fd: i32,
    child: i32,
    n1: isize,
    n2: isize,
    c: i32,
    m1: isize,
    w: i32,
    m2: isize,
    d: i32,
    child_common_first: bool,
)
    requires
        fd >= 0,
        child > 0,
        n1 >= 0,
        n2 >= 0,
        c >= 0,
        m1 >= 0,
        w >= 0,
        m2 >= 0,
        d >= 0,
    ensures
        ({
            let file = shared_file(
                written(calls(parent_pid, child_events(fd, n1, n2, c))),
                written(calls(parent_pid, parent_events(fd, child, m1, w, m2, d))),
                child_common_first,
            );
            &&& count_starting(file, child_mark()) == 1
            &&& count_starting(file, parent_mark()) == 1
        }),
{
    lemma_child_written(parent_pid, fd, n1, n2, c);
    lemma_parent_written(parent_pid, fd, child, m1, w, m2, d);
    let file = shared_file(
        written(calls(parent_pid, child_events(fd, n1, n2, c))),
        written(calls(parent_pid, parent_events(fd, child, m1, w, m2, d))),
        child_common_first,
    );
    lemma_common_unmarked(0, parent_pid as int);
    lemma_common_unmarked(child as int, parent_pid as int);
    lemma_child_marked(0, 113);
    lemma_parent_marked(child as int, 112);
    reveal_with_fuel(count_starting, 5);
    assert(file.drop_first().drop_first().drop_first().drop_first() =~= seq![]);
    assert(file.drop_first().drop_first().drop_first() =~= seq![file[3]]);
    assert(file.drop_first().drop_first() =~= seq![file[2], file[3]]);
    assert(file.drop_first() =~= seq![file[1], file[2], file[3]]);
}

/// After successful runs the child's copy of the counter holds the start
/// value plus its pre-fork and child steps, the parent's copy the start value
/// plus its pre-fork and parent steps, and the closing lines carry those
/// values.
pub proof fn lemma_counters_diverge(
    parent_pid: u32,
    fd: i32,
    child: i32,
    n1: isize,
    n2: isize,
    c: i32,
    m1: isize,
    w: i32,
    m2: isize,
    d: i32,
)
    requires
        fd >= 0,
        child > 0,
        n1 >= 0,
        n2 >= 0,
        c >= 0,
        m1 >= 0,
        w >= 0,
        m2 >= 0,
        d >= 0,
    ensures
        ({
            let x_child = run(initial(parent_pid), child_events(fd, n1, n2, c)).counter;
            let x_parent = run(initial(parent_pid), parent_events(fd, child, m1, w, m2, d)).counter;
            &&& x_child == 113
            &&& x_parent == 112
            &&& x_child == x_parent + 1
            &&& written(calls(parent_pid, child_events(fd, n1, n2, c)))[1] == record(
                child_text(0, x_child as int),
            )
            &&& written(calls(parent_pid, parent_events(fd, child, m1, w, m2, d)))[1]
                == record(parent_text(child as int, x_parent as int))
        }),
{
    lemma_child_run(parent_pid, fd, n1, n2, c);
    lemma_parent_run(parent_pid, fd, child, m1, w, m2, d);
    lemma_child_written(parent_pid, fd, n1, n2, c);
    lemma_parent_written(parent_pid, fd, child, m1, w, m2, d);
}

/// In a successful run, the child writes its closing line before it exits,
/// and the parent writes its closing line only after a wait for the child:
/// every write of a parent's closing line has a wait before it.
pub proof fn lemma_closing_lines_ordered(
    parent_pid: u32,
    fd: i32,
    child: i32,
    n1: isize,
    n2: isize,
    c: i32,
    m1: isize,
    w: i32,
    m2: isize,
    d: i32,
)
    requires
        fd >= 0,
        child > 0,
        n1 >= 0,
        n2 >= 0,
        c >= 0,
        m1 >= 0,
        w >= 0,
        m2 >= 0,
        d >= 0,
    ensures
        ({
            let cc = calls(parent_pid, child_events(fd, n1, n2, c));
            forall|j: int|
                0 <= j < cc.len() && (#[trigger] cc[j] matches CallView::Write { text, .. }
                    && starts_with(text, child_mark())) ==> exists|k: int|
                    j < k < cc.len() && cc[k] == CallView::Exit
        }),
        ({
            let pc = calls(parent_pid, parent_events(fd, child, m1, w, m2, d));
            forall|j: int|
                0 <= j < pc.len() && (#[trigger] pc[j] matches CallView::Write { text, .. }
                    && starts_with(text, parent_mark())) ==> exists|i: int|
                    0 <= i < j && pc[i] == CallView::Wait
        }),
{
    lemma_child_run(parent_pid, fd, n1, n2, c);
    lemma_parent_run(parent_pid, fd, child, m1, w, m2, d);
    lemma_common_unmarked(0, parent_pid as int);
    lemma_common_unmarked(child as int, parent_pid as int);
    let cc = calls(parent_pid, child_events(fd, n1, n2, c));
    let pc = calls(parent_pid, parent_events(fd, child, m1, w, m2, d));
    assert(cc[5] == CallView::Exit);
    assert(pc[3] == CallView::Wait);
}

proof fn lemma_failed_stays(s: Session, events: Seq<Event>)
    requires
        s.stage == Stage::Failed,
    ensures
        run(s, events).stage == Stage::Failed,
        written(trace(s, events)) == Seq::<Seq<char>>::empty(),
    decreases events.len(),
{
    if events.len() > 0 {
        let t = next(s, events[0]);
        lemma_failed_stays(t.0, events.drop_first());
        lemma_written_unfold(t.1.call, trace(t.0, events.drop_first()));
    }
}

/// When the file cannot be opened, the process aborts with the open
/// diagnostic right away, writes nothing whatever results follow, and ends
/// in the failed stage.
pub proof fn lemma_open_failure_writes_nothing(parent_pid: u32, fd: i32, rest: Seq<Event>)
    requires
        fd < 0,
    ensures
        calls(parent_pid, seq![Event::Opened(fd)] + rest)[1] == CallView::Abort(
            open_failed_text(),
        ),
        written(calls(parent_pid, seq![Event::Opened(fd)] + rest)) == Seq::<Seq<char>>::empty(),
        run(initial(parent_pid), seq![Event::Opened(fd)] + rest).stage == Stage::Failed,
{
    let s0 = initial(parent_pid);
    let t = next(s0, Event::Opened(fd));
    lemma_unfold(s0, Event::Opened(fd), rest);
    lemma_failed_stays(t.0, rest);
    lemma_written_unfold(t.1.call, trace(t.0, rest));
    lemma_written_unfold(open_call(), trace(s0, seq![Event::Opened(fd)] + rest));
}

} // verus!
