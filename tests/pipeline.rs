use sonar_backend::archive::{unzip_file, ExtractStep};
use sonar_backend::error::AppError;
use sonar_backend::issues::Issue;
use std::io::{Cursor, Write};
use zip::write::SimpleFileOptions;
use zip::ZipWriter;
use sonar_backend::pipeline::{
    classify_status, is_upload_field, Command, Event, FetchReply, Job, PollReply, ScanReport,
    Stage, TaskReport, TaskStatus,
};

fn issue(key: &str) -> Issue {
    Issue {
        key: key.to_string(),
        rule: "rust:S1".to_string(),
        severity: "MAJOR".to_string(),
        component: "job_x:src/main.rs".to_string(),
        line: Some(3),
        message: "check this".to_string(),
        issue_type: "VULNERABILITY".to_string(),
    }
}

fn answered(status: &str) -> Event {
    Event::Polled(PollReply::Answered(200, TaskReport::Tasks(Some(status.to_string()))))
}

fn scanned_ok() -> Event {
    Event::Scanned(ScanReport::Exited(true, "exit status: 0".to_string(), String::new()))
}

fn job_at_polling(budget: u32) -> Job {
    let mut job = Job::new(budget);
    assert!(matches!(job.step(Event::Received(true)), Command::Extract));
    assert!(matches!(job.step(Event::Extracted), Command::RunScanner));
    assert!(matches!(job.step(scanned_ok()), Command::Poll));
    job
}

fn failure(c: Command) -> AppError {
    match c {
        Command::Reply(Err(e)) => e,
        other => panic!("expected a failure, got {:?}", other),
    }
}

#[test]
fn full_pipeline_returns_two_issues() {
    let mut w = ZipWriter::new(Cursor::new(Vec::new()));
    w.start_file("main.py", SimpleFileOptions::default()).unwrap();
    w.write_all(b"print('hi')\n").unwrap();
    let upload = w.finish().unwrap().into_inner();
    let steps = unzip_file(upload).unwrap();
    assert_eq!(steps.len(), 1);
    assert!(matches!(&steps[0], ExtractStep::File(p, d, _) if p == "main.py" && d == b"print('hi')\n"));

    let mut job = job_at_polling(60);
    assert!(matches!(job.step(answered("SUCCESS")), Command::FetchIssues));
    let c = job.step(Event::Fetched(FetchReply::Delivered(Ok(vec![issue("a"), issue("b")]))));
    match c {
        Command::Reply(Ok(r)) => {
            assert_eq!(r.total_count, 2);
            assert_eq!(r.vulnerabilities.len(), 2);
            assert_eq!(r.vulnerabilities[0].key, "a");
            assert_eq!(r.vulnerabilities[1].key, "b");
        }
        other => panic!("unexpected {:?}", other),
    }
    assert!(job.is_finished());
}

#[test]
fn empty_findings_are_a_success() {
    let mut job = job_at_polling(5);
    job.step(answered("SUCCESS"));
    match job.step(Event::Fetched(FetchReply::Delivered(Ok(vec![])))) {
        Command::Reply(Ok(r)) => assert_eq!(r.total_count, 0),
        other => panic!("unexpected {:?}", other),
    }
}

#[test]
fn missing_upload_field_fails_first() {
    let mut job = Job::new(60);
    let e = failure(job.step(Event::Received(false)));
    assert!(matches!(e, AppError::MissingField(_)));
    assert_eq!(e.status_code(), 400);
    assert!(e.message().contains("Missing Field"));
    assert_eq!(e.message(), "Missing Field: No zip file found in multipart request");
    assert!(matches!(job.step(Event::Extracted), Command::Idle));
    assert!(matches!(job.step(scanned_ok()), Command::Idle));
}

#[test]
fn scanner_exit_status_one_is_fatal() {
    let mut job = Job::new(60);
    job.step(Event::Received(true));
    job.step(Event::Extracted);
    let e = failure(job.step(Event::Scanned(ScanReport::Exited(
        false,
        "exit status: 1".to_string(),
        "boom".to_string(),
    ))));
    assert_eq!(e.status_code(), 500);
    assert_eq!(
        e.message(),
        "Scanner Error: Scanner exited with status: exit status: 1. Stderr: boom"
    );
    assert!(matches!(job.step(answered("SUCCESS")), Command::Idle));
    assert!(matches!(
        job.step(Event::Fetched(FetchReply::Delivered(Ok(vec![])))),
        Command::Idle
    ));
}

#[test]
fn scanner_that_cannot_launch_is_fatal() {
    let mut job = Job::new(60);
    job.step(Event::Received(true));
    job.step(Event::Extracted);
    let e = failure(job.step(Event::Scanned(ScanReport::NotLaunched("not found".to_string()))));
    assert_eq!(e.message(), "Scanner Error: Failed to execute sonar-scanner: not found");
}

#[test]
fn success_on_third_attempt_fetches_once() {
    let mut job = job_at_polling(5);
    assert!(matches!(job.step(answered("PENDING")), Command::Poll));
    assert!(matches!(job.step(answered("IN_PROGRESS")), Command::Poll));
    assert_eq!(job.stage, Stage::Polling { attempts: 2 });
    assert!(matches!(job.step(answered("SUCCESS")), Command::FetchIssues));
    assert_eq!(job.stage, Stage::Fetching);
}

#[test]
fn failed_attempts_are_counted_not_fatal() {
    let mut job = job_at_polling(4);
    assert!(matches!(
        job.step(Event::Polled(PollReply::Unreachable("refused".to_string()))),
        Command::Poll
    ));
    assert!(matches!(
        job.step(Event::Polled(PollReply::Answered(503, TaskReport::Tasks(None)))),
        Command::Poll
    ));
    assert!(matches!(
        job.step(Event::Polled(PollReply::Answered(200, TaskReport::Tasks(None)))),
        Command::Poll
    ));
    assert!(matches!(job.step(answered("SUCCESS")), Command::FetchIssues));
}

#[test]
fn failed_task_stops_polling() {
    let mut job = job_at_polling(60);
    let e = failure(job.step(answered("FAILED")));
    assert_eq!(e.status_code(), 502);
    assert_eq!(e.message(), "SonarQube API Error: SonarQube analysis task failed");
    assert!(matches!(job.step(answered("SUCCESS")), Command::Idle));
}

#[test]
fn canceled_task_stops_polling() {
    let mut job = job_at_polling(60);
    let e = failure(job.step(answered("CANCELED")));
    assert_eq!(e.message(), "SonarQube API Error: SonarQube analysis task was canceled");
}

#[test]
fn budget_exhaustion_times_out_after_exactly_budget_attempts() {
    let mut job = job_at_polling(3);
    assert!(matches!(job.step(answered("PENDING")), Command::Poll));
    assert!(matches!(job.step(answered("PENDING")), Command::Poll));
    let e = failure(job.step(answered("PENDING")));
    assert!(matches!(e, AppError::ApiError(_)));
    assert_eq!(
        e.message(),
        "SonarQube API Error: Task polling timeout - analysis took too long"
    );
}

#[test]
fn zero_budget_times_out_without_polling() {
    let mut job = Job::new(0);
    job.step(Event::Received(true));
    job.step(Event::Extracted);
    let e = failure(job.step(scanned_ok()));
    assert!(matches!(e, AppError::ApiError(_)));
}

#[test]
fn malformed_activity_body_is_fatal() {
    let mut job = job_at_polling(60);
    let e = failure(job.step(Event::Polled(PollReply::Answered(
        200,
        TaskReport::Malformed("eof".to_string()),
    ))));
    assert_eq!(e.message(), "SonarQube API Error: Failed to parse CE response: eof");
}

#[test]
fn fetch_failures_are_engine_errors() {
    let mut job = job_at_polling(60);
    job.step(answered("SUCCESS"));
    let e = failure(job.step(Event::Fetched(FetchReply::Rejected(
        401,
        "401 Unauthorized".to_string(),
        "nope".to_string(),
    ))));
    assert_eq!(
        e.message(),
        "SonarQube API Error: Failed to fetch issues. Status: 401 Unauthorized, Body: nope"
    );

    let mut job = job_at_polling(60);
    job.step(answered("SUCCESS"));
    let e = failure(job.step(Event::Fetched(FetchReply::Unreachable("reset".to_string()))));
    assert_eq!(e.message(), "SonarQube API Error: Failed to fetch issues: reset");

    let mut job = job_at_polling(60);
    job.step(answered("SUCCESS"));
    let e = failure(job.step(Event::Fetched(FetchReply::Delivered(Err("bad".to_string())))));
    assert_eq!(e.message(), "SonarQube API Error: Failed to parse issues response: bad");
}

#[test]
fn local_failure_aborts_any_stage() {
    let mut job = Job::new(60);
    job.step(Event::Received(true));
    let e = failure(job.step(Event::Failed(AppError::InternalError("disk".to_string()))));
    assert_eq!(e.status_code(), 500);
    assert_eq!(e.message(), "Internal Error: disk");
    assert!(job.is_finished());
}

#[test]
fn out_of_order_event_is_an_internal_error() {
    let mut job = Job::new(60);
    let e = failure(job.step(Event::Extracted));
    assert!(matches!(e, AppError::InternalError(_)));
}

#[test]
fn status_texts_are_classified() {
    assert_eq!(classify_status("SUCCESS"), TaskStatus::Success);
    assert_eq!(classify_status("FAILED"), TaskStatus::Failed);
    assert_eq!(classify_status("CANCELED"), TaskStatus::Canceled);
    assert_eq!(classify_status("PENDING"), TaskStatus::Running);
    assert_eq!(classify_status("success"), TaskStatus::Running);
    assert_eq!(classify_status(""), TaskStatus::Running);
}

#[test]
fn upload_fields_are_recognised() {
    assert!(is_upload_field("file"));
    assert!(is_upload_field("zip"));
    assert!(!is_upload_field("files"));
    assert!(!is_upload_field(""));
}

#[test]
fn error_statuses_and_labels() {
    assert_eq!(AppError::ZipError("x".to_string()).status_code(), 400);
    assert_eq!(AppError::ZipError("x".to_string()).message(), "Zip Error: x");
    assert_eq!(AppError::ScannerError("x".to_string()).status_code(), 500);
    assert_eq!(AppError::ApiError("x".to_string()).status_code(), 502);
    assert_eq!(AppError::MissingField("x".to_string()).status_code(), 400);
    assert_eq!(AppError::InternalError("x".to_string()).status_code(), 500);
}
