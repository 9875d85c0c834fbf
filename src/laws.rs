use vstd::prelude::*;
use crate::error::AppError;
use crate::pipeline::{
    Act, ErrorKind, Event, Job, is_activity, PollReply, ScanReport, Stage, TaskReport, TaskStatus, next,
    status_of,
};
use crate::text::is_success_code;

verus! {

/// The job and the acts that follow a sequence of events, one step at a time.
pub open spec fn drive(job: Job, evs: Seq<Event>) -> (Job, Seq<Act>)
    decreases evs.len(),
{
    if evs.len() == 0 {
        (job, Seq::empty())
    } else {
        let first = next(job, evs[0]);
        let rest = drive(first.0, evs.drop_first());
        (rest.0, seq![first.1] + rest.1)
    }
}

/// The events that carry a sequence of query answers.
pub open spec fn polled(replies: Seq<PollReply>) -> Seq<Event> {
    replies.map_values(|r: PollReply| Event::Polled(r))
}

/// An answer that leaves the task still in progress: no answer at all, a
/// failure status, no task listed, or a non-terminal task status.
pub open spec fn keeps_waiting(r: PollReply) -> bool {
    match r {
        PollReply::Unreachable(_) => true,
        PollReply::Answered(code, report) => !is_success_code(code) || match report {
            TaskReport::Tasks(None) => true,
            TaskReport::Tasks(Some(s)) => status_of(s@) == TaskStatus::Running,
            TaskReport::Malformed(_) => false,
        },
    }
}

/// An answer that reports the task in the given status.
pub open spec fn reports(r: PollReply, st: TaskStatus) -> bool {
    match r {
        PollReply::Answered(code, TaskReport::Tasks(Some(s))) => is_success_code(code) && status_of(
            s@,
        ) == st,
        _ => false,
    }
}

/// Whether an act is a failure of the given kind.
pub open spec fn fails_with(a: Act, k: ErrorKind) -> bool {
    match a {
        Act::Fail(kind, _) => kind == k,
        _ => false,
    }
}

/// A finished job stays finished and does nothing more, whatever is reported to it.
pub proof fn finished_job_stays_idle(job: Job, evs: Seq<Event>)
    requires
        job.stage == Stage::Finished,
    ensures
        drive(job, evs).0 == job,
        drive(job, evs).1.len() == evs.len(),
        forall|i: int| 0 <= i < evs.len() ==> drive(job, evs).1[i] == Act::Idle,
    decreases evs.len(),
{
    if evs.len() > 0 {
        finished_job_stays_idle(job, evs.drop_first());
        let r = drive(job, evs);
        assert forall|i: int| 0 <= i < evs.len() implies r.1[i] == Act::Idle by {
            if i > 0 {
                assert(r.1[i] == drive(job, evs.drop_first()).1[i - 1]);
            }
        }
    }
}

/// After a first event that finishes the job, no later act reaches the
/// workspace, the scanner or the engine.
pub proof fn nothing_after_finishing(job: Job, ev: Event, rest: Seq<Event>)
    requires
        next(job, ev).0.stage == Stage::Finished,
    ensures
        drive(job, seq![ev] + rest).1.len() == rest.len() + 1,
        drive(job, seq![ev] + rest).1[0] == next(job, ev).1,
        forall|i: int| 1 <= i <= rest.len() ==> drive(job, seq![ev] + rest).1[i] == Act::Idle,
        drive(job, seq![ev] + rest).0.stage == Stage::Finished,
{
    let evs = seq![ev] + rest;
    assert(evs[0] == ev);
    assert(evs.drop_first() =~= rest);
    finished_job_stays_idle(next(job, ev).0, rest);
    let r = drive(job, evs);
    assert forall|i: int| 1 <= i <= rest.len() implies r.1[i] == Act::Idle by {
        assert(r.1[i] == drive(next(job, ev).0, rest).1[i - 1]);
    }
}

/// A request without an upload field fails as a missing field before any
/// work on the workspace, the scanner or the engine.
pub proof fn missing_upload_fails_before_any_work(job: Job, rest: Seq<Event>)
    requires
        job.stage == Stage::Receiving,
    ensures
        fails_with(drive(job, seq![Event::Received(false)] + rest).1[0], ErrorKind::MissingField),
        forall|i: int|
            0 <= i < rest.len() + 1 ==> !is_activity(
                #[trigger] drive(job, seq![Event::Received(false)] + rest).1[i],
            ),
{
    nothing_after_finishing(job, Event::Received(false), rest);
}

/// A scanner that fails to launch or exits with failure ends the job with a
/// scanner error; the engine is never polled or asked for findings.
pub proof fn failed_scan_never_polls(job: Job, report: ScanReport, rest: Seq<Event>)
    requires
        job.stage == Stage::Scanning,
        match report {
            ScanReport::Exited(ok, _, _) => !ok,
            ScanReport::NotLaunched(_) => true,
        },
    ensures
        fails_with(drive(job, seq![Event::Scanned(report)] + rest).1[0], ErrorKind::Scanner),
        forall|i: int|
            0 <= i < rest.len() + 1 ==> !is_activity(
                #[trigger] drive(job, seq![Event::Scanned(report)] + rest).1[i],
            ),
{
    nothing_after_finishing(job, Event::Scanned(report), rest);
}

/// Polling from `n` answered queries: answers that keep the task waiting,
/// then one that reports success, lead to one more query per waiting answer
/// and then to the issue search.
proof fn polls_until_success(job: Job, n: u32, replies: Seq<PollReply>)
    requires
        job.stage == (Stage::Polling { attempts: n }),
        replies.len() >= 1,
        n as int + replies.len() <= job.max_attempts as int,
        forall|j: int| 0 <= j < replies.len() - 1 ==> keeps_waiting(#[trigger] replies[j]),
        reports(replies[replies.len() - 1], TaskStatus::Success),
    ensures
        drive(job, polled(replies)).0 == (Job { stage: Stage::Fetching, ..job }),
        drive(job, polled(replies)).1.len() == replies.len(),
        forall|j: int| 0 <= j < replies.len() - 1 ==> drive(job, polled(replies)).1[j] == Act::Poll,
        drive(job, polled(replies)).1[replies.len() - 1] == Act::FetchIssues,
    decreases replies.len(),
{
    let evs = polled(replies);
    assert(evs[0] == Event::Polled(replies[0]));
    assert(evs.drop_first() =~= polled(replies.drop_first()));
    if replies.len() > 1 {
        assert(keeps_waiting(replies[0]));
        let j1 = next(job, evs[0]).0;
        assert(j1 == (Job { stage: Stage::Polling { attempts: (n + 1) as u32 }, ..job }));
        assert(next(job, evs[0]).1 == Act::Poll);
        polls_until_success(j1, (n + 1) as u32, replies.drop_first());
        let r = drive(job, evs);
        let t = drive(j1, evs.drop_first());
        assert forall|j: int| 0 <= j < replies.len() - 1 implies r.1[j] == Act::Poll by {
            if j > 0 {
                assert(r.1[j] == t.1[j - 1]);
            }
        }
        assert(r.1[replies.len() - 1] == t.1[replies.len() - 2]);
    } else {
        let last = replies[0];
        assert(reports(last, TaskStatus::Success));
        assert(next(job, evs[0]) == (Job { stage: Stage::Fetching, ..job }, Act::FetchIssues));
        assert(evs.drop_first().len() == 0);
        assert(drive(next(job, evs[0]).0, evs.drop_first()).1.len() == 0);
    }
}

/// A scan that succeeds starts the polling; when the task is reported
/// successful at answer `k` within the budget, exactly `k` queries are made
/// and the issue search follows once.
pub proof fn success_stops_polling_and_fetches_once(
    job: Job,
    status: String,
    stderr: String,
    replies: Seq<PollReply>,
)
    requires
        job.stage == Stage::Scanning,
        1 <= replies.len() <= job.max_attempts,
        forall|j: int| 0 <= j < replies.len() - 1 ==> keeps_waiting(#[trigger] replies[j]),
        reports(replies[replies.len() - 1], TaskStatus::Success),
    ensures
        ({
            let r = drive(job, seq![Event::Scanned(ScanReport::Exited(true, status, stderr))] + polled(replies));
            &&& r.0.stage == Stage::Fetching
            &&& r.1.len() == replies.len() + 1
            &&& forall|j: int| 0 <= j < replies.len() ==> r.1[j] == Act::Poll
            &&& r.1[replies.len() as int] == Act::FetchIssues
        }),
{
    let ev = Event::Scanned(ScanReport::Exited(true, status, stderr));
    let evs = seq![ev] + polled(replies);
    assert(evs[0] == ev);
    assert(evs.drop_first() =~= polled(replies));
    let j1 = next(job, ev).0;
    assert(j1 == (Job { stage: Stage::Polling { attempts: 0 }, ..job }));
    polls_until_success(j1, 0, replies);
    let r = drive(job, evs);
    let t = drive(j1, polled(replies));
    assert forall|j: int| 0 <= j < replies.len() implies r.1[j] == Act::Poll by {
        if j > 0 {
            assert(r.1[j] == t.1[j - 1]);
        }
    }
    assert(r.1[replies.len() as int] == t.1[replies.len() - 1]);
}

/// A task reported failed or canceled stops the polling at once with an
/// engine error; the issue search is never made.
pub proof fn terminal_failure_stops_polling(job: Job, n: u32, reply: PollReply, rest: Seq<Event>)
    requires
        job.stage == (Stage::Polling { attempts: n }),
        reports(reply, TaskStatus::Failed) || reports(reply, TaskStatus::Canceled),
    ensures
        fails_with(drive(job, seq![Event::Polled(reply)] + rest).1[0], ErrorKind::Api),
        drive(job, seq![Event::Polled(reply)] + rest).0.stage == Stage::Finished,
        forall|i: int|
            0 <= i < rest.len() + 1 ==> !is_activity(
                #[trigger] drive(job, seq![Event::Polled(reply)] + rest).1[i],
            ),
{
    nothing_after_finishing(job, Event::Polled(reply), rest);
}

/// Polling from `n` answered queries: when every answer keeps the task
/// waiting and the budget runs out with the last one, one more query follows
/// each answer but the last, which ends the job with a timeout.
proof fn polls_until_timeout(job: Job, n: u32, replies: Seq<PollReply>)
    requires
        job.stage == (Stage::Polling { attempts: n }),
        replies.len() >= 1,
        n as int + replies.len() == job.max_attempts as int,
        forall|j: int| 0 <= j < replies.len() ==> keeps_waiting(#[trigger] replies[j]),
    ensures
        drive(job, polled(replies)).0.stage == Stage::Finished,
        drive(job, polled(replies)).1.len() == replies.len(),
        forall|j: int| 0 <= j < replies.len() - 1 ==> drive(job, polled(replies)).1[j] == Act::Poll,
        drive(job, polled(replies)).1[replies.len() - 1] == Act::Fail(
            ErrorKind::Api,
            "Task polling timeout - analysis took too long"@,
        ),
    decreases replies.len(),
{
    let evs = polled(replies);
    assert(evs[0] == Event::Polled(replies[0]));
    assert(evs.drop_first() =~= polled(replies.drop_first()));
    assert(keeps_waiting(replies[0]));
    let j1 = next(job, evs[0]).0;
    if replies.len() > 1 {
        assert(j1 == (Job { stage: Stage::Polling { attempts: (n + 1) as u32 }, ..job }));
        polls_until_timeout(j1, (n + 1) as u32, replies.drop_first());
        let r = drive(job, evs);
        let t = drive(j1, evs.drop_first());
        assert forall|j: int| 0 <= j < replies.len() - 1 implies r.1[j] == Act::Poll by {
            if j > 0 {
                assert(r.1[j] == t.1[j - 1]);
            }
        }
        assert(r.1[replies.len() - 1] == t.1[replies.len() - 2]);
    } else {
        assert(evs.drop_first().len() == 0);
    }
}

/// When no answer within the budget reports a terminal status, the job
/// fails with an engine timeout after exactly the budgeted number of queries.
pub proof fn exhausted_budget_times_out(
    job: Job,
    status: String,
    stderr: String,
    replies: Seq<PollReply>,
)
    requires
        job.stage == Stage::Scanning,
        replies.len() == job.max_attempts,
        forall|j: int| 0 <= j < replies.len() ==> keeps_waiting(#[trigger] replies[j]),
    ensures
        ({
            let r = drive(job, seq![Event::Scanned(ScanReport::Exited(true, status, stderr))] + polled(replies));
            &&& r.0.stage == Stage::Finished
            &&& r.1.len() == replies.len() + 1
            &&& forall|j: int| 0 <= j < replies.len() ==> r.1[j] == Act::Poll
            &&& r.1[replies.len() as int] == Act::Fail(
                ErrorKind::Api,
                "Task polling timeout - analysis took too long"@,
            )
        }),
{
    let ev = Event::Scanned(ScanReport::Exited(true, status, stderr));
    let evs = seq![ev] + polled(replies);
    assert(evs[0] == ev);
    assert(evs.drop_first() =~= polled(replies));
    let j1 = next(job, ev).0;
    if replies.len() == 0 {
        assert(polled(replies).len() == 0);
    } else {
        polls_until_timeout(j1, 0, replies);
        let r = drive(job, evs);
        let t = drive(j1, polled(replies));
        assert forall|j: int| 0 <= j < replies.len() implies r.1[j] == Act::Poll by {
            if j > 0 {
                assert(r.1[j] == t.1[j - 1]);
            }
        }
        assert(r.1[replies.len() as int] == t.1[replies.len() - 1]);
    }
}

} // verus!
