use vstd::prelude::*;
use vstd::string::*;
use crate::error::AppError;
use crate::issues::{AnalysisResult, Issue};
use crate::text::{is_success_code, is_success_status, prefixed, same_text};

verus! {

/// The state of the engine's processing task, as the poller reads it.
#[derive(Debug, Clone, Copy, PartialEq, Eq, Structural)]
pub enum TaskStatus {
    Success,
    Failed,
    Canceled,
    /// Any other status, or no task reported yet.
    Running,
}

/// How a status text reported by the engine is read.
pub open spec fn status_of(s: Seq<char>) -> TaskStatus {
    if s == "SUCCESS"@ {
        TaskStatus::Success
    } else if s == "FAILED"@ {
        TaskStatus::Failed
    } else if s == "CANCELED"@ {
        TaskStatus::Canceled
    } else {
        TaskStatus::Running
    }
}

/// Reads the status text of the engine's task.
pub fn classify_status(s: &str) -> (r: TaskStatus)
    ensures
        r == status_of(s@),
{
    if same_text(s, "SUCCESS") {
        TaskStatus::Success
    } else if same_text(s, "FAILED") {
        TaskStatus::Failed
    } else if same_text(s, "CANCELED") {
        TaskStatus::Canceled
    } else {
        TaskStatus::Running
    }
}

/// Whether a multipart field carries the archive: it is named `file` or `zip`.
pub fn is_upload_field(name: &str) -> (r: bool)
    ensures
        r == (name@ == "file"@ || name@ == "zip"@),
{
    same_text(name, "file") || same_text(name, "zip")
}

/// What the body of a successful task-activity answer held.
#[derive(Debug, Clone)]
pub enum TaskReport {
    /// The status of the first task listed, if any task was listed.
    Tasks(Option<String>),
    /// The body could not be read; the text says why.
    Malformed(String),
}

/// The result of one task-activity query.
#[derive(Debug, Clone)]
pub enum PollReply {
    /// The request could not be sent or no answer came.
    Unreachable(String),
    /// An answer came with this HTTP status; its body is only read on success.
    Answered(u16, TaskReport),
}

/// The result of running the scanning tool.
#[derive(Debug, Clone)]
pub enum ScanReport {
    /// The process could not be launched; the text says why.
    NotLaunched(String),
    /// The process ran: whether it succeeded, its exit status as text, and
    /// what it wrote to its error stream.
    Exited(bool, String, String),
}

/// The result of the issue search.
#[derive(Debug)]
pub enum FetchReply {
    /// The request could not be sent or no answer came.
    Unreachable(String),
    /// An answer came with a non-success status: the code, the status as
    /// text, and the body.
    Rejected(u16, String, String),
    /// A success answer, with its findings or the reason they could not be read.
    Delivered(Result<Vec<Issue>, String>),
}

/// What the outside world reports back to the pipeline.
#[derive(Debug)]
pub enum Event {
    /// The upload's fields were read; whether one named as an archive was found.
    Received(bool),
    /// The archive was unpacked into the workspace.
    Extracted,
    Scanned(ScanReport),
    Polled(PollReply),
    Fetched(FetchReply),
    /// A local step failed outside the pipeline's own decisions.
    Failed(AppError),
}

/// What the pipeline asks the outside world to do next.
#[derive(Debug)]
pub enum Command {
    Extract,
    RunScanner,
    /// Wait one interval, then query the task activity.
    Poll,
    FetchIssues,
    /// Answer the caller; the job is over.
    Reply(Result<AnalysisResult, AppError>),
    /// Nothing is left to do.
    Idle,
}

/// The stage a job has reached.
#[derive(Debug, Clone, Copy, PartialEq, Eq, Structural)]
pub enum Stage {
    Receiving,
    Extracting,
    Scanning,
    /// Waiting for the engine; `attempts` queries were answered so far.
    Polling { attempts: u32 },
    Fetching,
    Finished,
}

/// One analysis job: its stage and its polling budget.
#[derive(Debug, Clone, Copy, PartialEq, Eq, Structural)]
pub struct Job {
    pub stage: Stage,
    pub max_attempts: u32,
}

/// The kind of a failure, without its text.
#[derive(Debug, Clone, Copy, PartialEq, Eq, Structural)]
pub enum ErrorKind {
    Archive,
    Scanner,
    Api,
    MissingField,
    Internal,
}

impl AppError {
    pub open spec fn kind(&self) -> ErrorKind {
        match self {
            AppError::ZipError(_) => ErrorKind::Archive,
            AppError::ScannerError(_) => ErrorKind::Scanner,
            AppError::ApiError(_) => ErrorKind::Api,
            AppError::MissingField(_) => ErrorKind::MissingField,
            AppError::InternalError(_) => ErrorKind::Internal,
        }
    }
}

/// A command as the pipeline's rules speak of it: a failure by its kind and text.
pub enum Act {
    Extract,
    RunScanner,
    Poll,
    FetchIssues,
    Deliver(Vec<Issue>, usize),
    Fail(ErrorKind, Seq<char>),
    Idle,
}

impl Command {
    pub open spec fn act(&self) -> Act {
        match self {
            Command::Extract => Act::Extract,
            Command::RunScanner => Act::RunScanner,
            Command::Poll => Act::Poll,
            Command::FetchIssues => Act::FetchIssues,
            Command::Reply(Ok(r)) => Act::Deliver(r.vulnerabilities, r.total_count),
            Command::Reply(Err(e)) => Act::Fail(e.kind(), e.detail()),
            Command::Idle => Act::Idle,
        }
    }
}

/// Whether an act reaches outside the service: the workspace, the scanner
/// or the engine.
pub open spec fn is_activity(a: Act) -> bool {
    match a {
        Act::Extract | Act::RunScanner | Act::Poll | Act::FetchIssues => true,
        _ => false,
    }
}

/// The job after one more answered query that did not end the polling.
pub open spec fn after_waiting(job: Job, attempts: u32) -> (Job, Act) {
    if attempts as int + 1 >= job.max_attempts as int {
        (
            Job { stage: Stage::Finished, ..job },
            Act::Fail(ErrorKind::Api, "Task polling timeout - analysis took too long"@),
        )
    } else {
        (Job { stage: Stage::Polling { attempts: (attempts + 1) as u32 }, ..job }, Act::Poll)
    }
}

/// The job and the act that follow a query answer while polling.
pub open spec fn after_poll(job: Job, attempts: u32, reply: PollReply) -> (Job, Act) {
    match reply {
        PollReply::Answered(code, report) if is_success_code(code) => match report {
            TaskReport::Malformed(why) => (
                Job { stage: Stage::Finished, ..job },
                Act::Fail(ErrorKind::Api, "Failed to parse CE response: "@ + why@),
            ),
            TaskReport::Tasks(Some(s)) if status_of(s@) == TaskStatus::Success => (
                Job { stage: Stage::Fetching, ..job },
                Act::FetchIssues,
            ),
            TaskReport::Tasks(Some(s)) if status_of(s@) == TaskStatus::Failed => (
                Job { stage: Stage::Finished, ..job },
                Act::Fail(ErrorKind::Api, "SonarQube analysis task failed"@),
            ),
            TaskReport::Tasks(Some(s)) if status_of(s@) == TaskStatus::Canceled => (
                Job { stage: Stage::Finished, ..job },
                Act::Fail(ErrorKind::Api, "SonarQube analysis task was canceled"@),
            ),
            _ => after_waiting(job, attempts),
        },
        _ => after_waiting(job, attempts),
    }
}

/// The rules of the pipeline: the job and the act that follow an event.
pub open spec fn next(job: Job, ev: Event) -> (Job, Act) {
    let done = Job { stage: Stage::Finished, ..job };
    match (job.stage, ev) {
        (Stage::Finished, _) => (job, Act::Idle),
        (_, Event::Failed(e)) => (done, Act::Fail(e.kind(), e.detail())),
        (Stage::Receiving, Event::Received(found)) => if found {
            (Job { stage: Stage::Extracting, ..job }, Act::Extract)
        } else {
            (done, Act::Fail(ErrorKind::MissingField, "No zip file found in multipart request"@))
        },
        (Stage::Extracting, Event::Extracted) => (
            Job { stage: Stage::Scanning, ..job },
            Act::RunScanner,
        ),
        (Stage::Scanning, Event::Scanned(ScanReport::NotLaunched(why))) => (
            done,
            Act::Fail(ErrorKind::Scanner, "Failed to execute sonar-scanner: "@ + why@),
        ),
        (Stage::Scanning, Event::Scanned(ScanReport::Exited(ok, status, stderr))) => if ok {
            if job.max_attempts == 0 {
                (done, Act::Fail(ErrorKind::Api, "Task polling timeout - analysis took too long"@))
            } else {
                (Job { stage: Stage::Polling { attempts: 0 }, ..job }, Act::Poll)
            }
        } else {
            (
                done,
                Act::Fail(
                    ErrorKind::Scanner,
                    "Scanner exited with status: "@ + status@ + ". Stderr: "@ + stderr@,
                ),
            )
        },
        (Stage::Polling { attempts }, Event::Polled(reply)) => after_poll(job, attempts, reply),
        (Stage::Fetching, Event::Fetched(FetchReply::Unreachable(why))) => (
            done,
            Act::Fail(ErrorKind::Api, "Failed to fetch issues: "@ + why@),
        ),
        (Stage::Fetching, Event::Fetched(FetchReply::Rejected(_, status, body))) => (
            done,
            Act::Fail(
                ErrorKind::Api,
                "Failed to fetch issues. Status: "@ + status@ + ", Body: "@ + body@,
            ),
        ),
        (Stage::Fetching, Event::Fetched(FetchReply::Delivered(Err(why)))) => (
            done,
            Act::Fail(ErrorKind::Api, "Failed to parse issues response: "@ + why@),
        ),
        (Stage::Fetching, Event::Fetched(FetchReply::Delivered(Ok(issues)))) => (
            done,
            Act::Deliver(issues, issues.len() as usize),
        ),
        _ => (
            done,
            Act::Fail(ErrorKind::Internal, "Unexpected event for the job's stage"@),
        ),
    }
}

/// The failure that ends polling without a terminal task status.
fn poll_timeout() -> (e: AppError)
    ensures
        e.kind() == ErrorKind::Api,
        e.detail() == "Task polling timeout - analysis took too long"@,
{
    AppError::ApiError(String::from_str("Task polling timeout - analysis took too long"))
}

impl Job {
    /// A job that waits for its upload, with the given polling budget.
    pub fn new(max_attempts: u32) -> (r: Job)
        ensures
            r.stage == Stage::Receiving,
            r.max_attempts == max_attempts,
    {
        Job { stage: Stage::Receiving, max_attempts }
    }

    /// Whether the job has answered its caller.
    pub fn is_finished(&self) -> (r: bool)
        ensures
            r == (self.stage == Stage::Finished),
    {
        self.stage == Stage::Finished
    }

    fn waited(&mut self, attempts: u32) -> (c: Command)
        requires
            old(self).stage != Stage::Finished,
        ensures
            (*final(self), c.act()) == after_waiting(*old(self), attempts),
    {
        if attempts as u64 + 1 >= self.max_attempts as u64 {
            self.stage = Stage::Finished;
            Command::Reply(Err(poll_timeout()))
        } else {
            self.stage = Stage::Polling { attempts: attempts + 1 };
            Command::Poll
        }
    }

    fn polled(&mut self, attempts: u32, reply: PollReply) -> (c: Command)
        requires
            old(self).stage != Stage::Finished,
        ensures
            (*final(self), c.act()) == after_poll(*old(self), attempts, reply),
    {
        match reply {
            PollReply::Answered(code, report) => {
                if !is_success_status(code) {
                    return self.waited(attempts);
                }
                match report {
                    TaskReport::Malformed(why) => {
                        self.stage = Stage::Finished;
                        Command::Reply(
                            Err(AppError::ApiError(prefixed("Failed to parse CE response: ", why.as_str()))),
                        )
                    },
                    TaskReport::Tasks(None) => self.waited(attempts),
                    TaskReport::Tasks(Some(s)) => {
                        match classify_status(s.as_str()) {
                            TaskStatus::Success => {
                                self.stage = Stage::Fetching;
                                Command::FetchIssues
                            },
                            TaskStatus::Failed => {
                                self.stage = Stage::Finished;
                                Command::Reply(
                                    Err(AppError::ApiError(String::from_str("SonarQube analysis task failed"))),
                                )
                            },
                            TaskStatus::Canceled => {
                                self.stage = Stage::Finished;
                                Command::Reply(
                                    Err(AppError::ApiError(String::from_str("SonarQube analysis task was canceled"))),
                                )
                            },
                            TaskStatus::Running => self.waited(attempts),
                        }
                    },
                }
            },
            PollReply::Unreachable(_) => self.waited(attempts),
        }
    }

    /// Applies the pipeline's rules to one event: moves the job to its next
    /// stage and says what to do next.
    pub fn step(&mut self, ev: Event) -> (c: Command)
        ensures
            (*final(self), c.act()) == next(*old(self), ev),
    {
        if self.stage == Stage::Finished {
            return Command::Idle;
        }
        match ev {
            Event::Failed(e) => {
                self.stage = Stage::Finished;
                return Command::Reply(Err(e));
            },
            _ => {},
        }
        match (self.stage, ev) {
            (Stage::Receiving, Event::Received(found)) => {
                if found {
                    self.stage = Stage::Extracting;
                    Command::Extract
                } else {
                    self.stage = Stage::Finished;
                    Command::Reply(
                        Err(AppError::MissingField(String::from_str("No zip file found in multipart request"))),
                    )
                }
            },
            (Stage::Extracting, Event::Extracted) => {
                self.stage = Stage::Scanning;
                Command::RunScanner
            },
            (Stage::Scanning, Event::Scanned(ScanReport::NotLaunched(why))) => {
                self.stage = Stage::Finished;
                Command::Reply(
                    Err(AppError::ScannerError(prefixed("Failed to execute sonar-scanner: ", why.as_str()))),
                )
            },
            (Stage::Scanning, Event::Scanned(ScanReport::Exited(ok, status, stderr))) => {
                if ok {
                    if self.max_attempts == 0 {
                        self.stage = Stage::Finished;
                        Command::Reply(Err(poll_timeout()))
                    } else {
                        self.stage = Stage::Polling { attempts: 0 };
                        Command::Poll
                    }
                } else {
                    self.stage = Stage::Finished;
                    let m = prefixed("Scanner exited with status: ", status.as_str());
                    let m = m.concat(". Stderr: ");
                    let m = m.concat(stderr.as_str());
                    Command::Reply(Err(AppError::ScannerError(m)))
                }
            },
            (Stage::Polling { attempts }, Event::Polled(reply)) => self.polled(attempts, reply),
            (Stage::Fetching, Event::Fetched(FetchReply::Unreachable(why))) => {
                self.stage = Stage::Finished;
                Command::Reply(Err(AppError::ApiError(prefixed("Failed to fetch issues: ", why.as_str()))))
            },
            (Stage::Fetching, Event::Fetched(FetchReply::Rejected(_, status, body))) => {
                self.stage = Stage::Finished;
                let m = prefixed("Failed to fetch issues. Status: ", status.as_str());
                let m = m.concat(", Body: ");
                let m = m.concat(body.as_str());
                Command::Reply(Err(AppError::ApiError(m)))
            },
            (Stage::Fetching, Event::Fetched(FetchReply::Delivered(Err(why)))) => {
                self.stage = Stage::Finished;
                Command::Reply(
                    Err(AppError::ApiError(prefixed("Failed to parse issues response: ", why.as_str()))),
                )
            },
            (Stage::Fetching, Event::Fetched(FetchReply::Delivered(Ok(issues)))) => {
                self.stage = Stage::Finished;
                Command::Reply(Ok(AnalysisResult::from_issues(issues)))
            },
            _ => {
                self.stage = Stage::Finished;
                Command::Reply(
                    Err(AppError::InternalError(String::from_str("Unexpected event for the job's stage"))),
                )
            },
        }
    }
}

} // verus!
