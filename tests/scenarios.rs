use rustycoding::outcome::{CompileOutcome, FileRead, Mode, Response, RunOutcome};
use rustycoding::pipeline::{Action, Event, Pipeline, Submission};
use rustycoding::types::{Question, StatusCodes};

fn submission(
    language: &str,
    source: &str,
    timeout: i32,
    input: Option<&str>,
    expected: Option<&str>,
    mode: Mode,
) -> Submission {
    Submission {
        id: "req-1".to_string(),
        language: language.to_string(),
        source_code: source.to_string(),
        timeout,
        input: input.map(|s| s.to_string()),
        expected_output: expected.map(|s| s.to_string()),
        mode,
    }
}

/// Feeds `events` one by one and returns every action asked for, checking on the way that
/// cleanup is asked for at most once and before any answer.
fn drive(sub: &Submission, events: Vec<Event>) -> (Vec<Action>, Response) {
    let (mut p, first) = Pipeline::start(sub, "fixed");
    let mut actions = vec![first];
    for ev in events {
        let (next, a) = p.step(ev);
        p = next;
        actions.push(a);
    }
    let cleanups = actions.iter().filter(|a| matches!(a, Action::Cleanup { .. })).count();
    assert!(cleanups <= 1);
    match actions.pop() {
        Some(Action::Respond(r)) => {
            if actions.iter().any(|a| matches!(a, Action::Provision { .. })) {
                assert_eq!(cleanups, 1);
                assert!(matches!(actions.last(), Some(Action::Cleanup { .. })));
            }
            (actions, r)
        }
        _ => panic!("the last action is not an answer"),
    }
}

fn exited(success: bool, stdout: Option<&str>, stderr: &str) -> Event {
    Event::Ran(RunOutcome::Exited {
        success,
        stdout: stdout.map(|s| s.to_string()),
        stderr: Some(stderr.to_string()),
    })
}

#[test]
fn python_sample_run_reports_output() {
    let sub = submission("python", "print(\"hi\")", 5, None, None, Mode::RunSample);
    let (actions, r) = drive(
        &sub,
        vec![Event::Provisioned(true), exited(true, Some("hi\n"), ""), Event::CleanedUp(true)],
    );
    match &actions[0] {
        Action::Provision { folder, files } => {
            assert_eq!(folder, "python-fixed");
            assert_eq!(files.len(), 1);
            assert_eq!(files[0].0, "python-fixed/main.py");
            assert_eq!(files[0].1, "print(\"hi\")");
        }
        _ => panic!("expected provisioning"),
    }
    match &actions[1] {
        Action::Run { command, stdin, stdout, stderr, time_limit } => {
            assert_eq!(command.program, "python3");
            assert_eq!(command.args, vec!["python-fixed/main.py"]);
            assert!(stdin.is_none() && stdout.is_none() && stderr.is_none());
            assert_eq!(*time_limit, 5);
        }
        _ => panic!("expected a run"),
    }
    match &actions[2] {
        Action::Cleanup { folder } => assert_eq!(folder, "python-fixed"),
        _ => panic!("expected cleanup"),
    }
    assert_eq!(r.status, StatusCodes::Accepted);
    assert_eq!(r.status.code(), 201);
    assert_eq!(r.debug_output.as_deref(), Some("hi\n"));
    assert_eq!(r.error, None);
}

#[test]
fn java_without_public_class_is_refused_before_any_work() {
    let sub = submission(
        "java",
        "class Main { public static void main(String[] a) {} }",
        5,
        Some("1"),
        Some("1"),
        Mode::Submit,
    );
    let (actions, r) = drive(&sub, vec![]);
    assert!(actions.is_empty());
    assert_eq!(r.status.code(), 403);
    let no_data = submission("java", "class Main {}", 5, None, None, Mode::Submit);
    let (_, r2) = drive(&no_data, vec![]);
    assert_eq!(r2.status.code(), 403);
}

#[test]
fn c_syntax_error_reports_compiler_output() {
    let sub = submission("c", "int main( {", 5, Some(""), Some(""), Mode::Submit);
    let stderr = "c-fixed/main.c:1:11: error: expected declaration specifiers";
    let (actions, r) = drive(
        &sub,
        vec![
            Event::Provisioned(true),
            Event::Compiled(CompileOutcome::Finished { success: false, stderr: Some(stderr.to_string()) }),
            Event::CleanedUp(true),
        ],
    );
    match &actions[1] {
        Action::Compile(c) => {
            assert_eq!(c.program, "gcc");
            assert_eq!(c.args, vec!["c-fixed/main.c", "-o", "c-fixed/Program"]);
        }
        _ => panic!("expected a build"),
    }
    assert!(!actions.iter().any(|a| matches!(a, Action::Run { .. })));
    assert_eq!(r.status.code(), 401);
    assert!(r.error.unwrap().contains("expected declaration specifiers"));
}

fn python_submit(expected: &str, actual_output: &str) -> (Vec<Action>, Response) {
    let sub = submission(
        "python",
        "a, b = map(int, input().split())\nprint(a + b)",
        5,
        Some("3 4"),
        Some(expected),
        Mode::Submit,
    );
    drive(
        &sub,
        vec![
            Event::Provisioned(true),
            exited(true, None, ""),
            Event::Read {
                actual: FileRead::Text(actual_output.to_string()),
                expected: FileRead::Text(expected.to_string()),
            },
            Event::CleanedUp(true),
        ],
    )
}

#[test]
fn python_submission_with_right_answer_is_accepted() {
    let (actions, r) = python_submit("7", "7\n");
    match &actions[0] {
        Action::Provision { files, .. } => {
            assert_eq!(files.len(), 3);
            assert_eq!(files[1].0, "python-fixed/input.txt");
            assert_eq!(files[1].1, "3 4");
            assert_eq!(files[2].0, "python-fixed/expected.txt");
            assert_eq!(files[2].1, "7");
        }
        _ => panic!("expected provisioning"),
    }
    match &actions[1] {
        Action::Run { stdin, stdout, stderr, .. } => {
            assert_eq!(stdin.as_deref(), Some("python-fixed/input.txt"));
            assert_eq!(stdout.as_deref(), Some("python-fixed/actualoutput.txt"));
            assert_eq!(stderr.as_deref(), Some("python-fixed/stderr.txt"));
        }
        _ => panic!("expected a run"),
    }
    match &actions[2] {
        Action::Compare { actual, expected } => {
            assert_eq!(actual, "python-fixed/actualoutput.txt");
            assert_eq!(expected, "python-fixed/expected.txt");
        }
        _ => panic!("expected a comparison"),
    }
    assert_eq!(r.status.code(), 201);
    assert_eq!(r.debug_output, None);
}

#[test]
fn python_submission_with_wrong_answer() {
    let (_, r) = python_submit("8", "7\n");
    assert_eq!(r.status.code(), 400);
    assert_eq!(r.error.as_deref(), Some("Wrong Answer"));
}

#[test]
fn c_infinite_loop_times_out() {
    let sub = submission("c", "int main(){for(;;);}", 2, Some(""), Some(""), Mode::Submit);
    let (actions, r) = drive(
        &sub,
        vec![
            Event::Provisioned(true),
            Event::Compiled(CompileOutcome::Finished { success: true, stderr: Some(String::new()) }),
            Event::Ran(RunOutcome::TimedOut),
            Event::CleanedUp(true),
        ],
    );
    match &actions[2] {
        Action::Run { command, time_limit, .. } => {
            assert_eq!(command.program, "c-fixed/Program");
            assert_eq!(*time_limit, 2);
        }
        _ => panic!("expected a run"),
    }
    assert_eq!(r.status.code(), 408);
    assert_eq!(r.error.as_deref(), Some("Time Limit Exceeded"));
}

#[test]
fn timeout_survives_failed_cleanup() {
    let sub = submission("python", "while True: pass", 1, None, None, Mode::RunSample);
    let (_, r) = drive(
        &sub,
        vec![Event::Provisioned(true), Event::Ran(RunOutcome::TimedOut), Event::CleanedUp(false)],
    );
    assert_eq!(r.status, StatusCodes::TimeLimitExceeded);
}

#[test]
fn runtime_error_skips_comparison() {
    let sub = submission("python", "raise SystemExit(3)", 5, Some(""), Some("x"), Mode::Submit);
    let (actions, r) = drive(
        &sub,
        vec![Event::Provisioned(true), exited(false, None, "Traceback: boom"), Event::CleanedUp(true)],
    );
    assert!(!actions.iter().any(|a| matches!(a, Action::Compare { .. })));
    assert_eq!(r.status.code(), 402);
    assert_eq!(r.error.as_deref(), Some("Traceback: boom"));
}

#[test]
fn failed_cleanup_turns_success_into_internal_error() {
    let sub = submission("python", "print(1)", 5, None, None, Mode::RunSample);
    let (_, r) = drive(
        &sub,
        vec![Event::Provisioned(true), exited(true, Some("1\n"), ""), Event::CleanedUp(false)],
    );
    assert_eq!(r.status.code(), 500);
}

#[test]
fn failed_cleanup_keeps_compile_error() {
    let sub = submission("cpp", "int main( {", 5, None, None, Mode::RunSample);
    let (_, r) = drive(
        &sub,
        vec![
            Event::Provisioned(true),
            Event::Compiled(CompileOutcome::Finished { success: false, stderr: Some("bad".to_string()) }),
            Event::CleanedUp(false),
        ],
    );
    assert_eq!(r.status.code(), 401);
    assert_eq!(r.error.as_deref(), Some("bad"));
}

#[test]
fn failed_provisioning_still_cleans_up() {
    let sub = submission("python", "print(1)", 5, None, None, Mode::RunSample);
    let (actions, r) = drive(&sub, vec![Event::Provisioned(false), Event::CleanedUp(true)]);
    assert!(matches!(actions[1], Action::Cleanup { .. }));
    assert_eq!(r.status.code(), 500);
}

#[test]
fn unexpected_report_winds_down() {
    let sub = submission("python", "print(1)", 5, None, None, Mode::RunSample);
    let (actions, r) = drive(
        &sub,
        vec![Event::CleanedUp(true), Event::CleanedUp(true)],
    );
    assert!(matches!(actions[1], Action::Cleanup { .. }));
    assert_eq!(r.status.code(), 500);
}

#[test]
fn finished_pipeline_repeats_its_answer() {
    let sub = submission("python", "print(1)", 5, None, None, Mode::RunSample);
    let (p, _) = Pipeline::start(&sub, "x");
    let (p, _) = p.step(Event::Provisioned(true));
    let (p, _) = p.step(exited(true, Some("1\n"), ""));
    let (p, _) = p.step(Event::CleanedUp(true));
    let (p, a) = p.step(Event::CleanedUp(true));
    assert!(matches!(a, Action::Respond(ref r) if r.status == StatusCodes::Accepted));
    let (_, b) = p.step(Event::Provisioned(true));
    assert!(matches!(b, Action::Respond(ref r) if r.debug_output.as_deref() == Some("1\n")));
}

#[test]
fn compile_only_reports_build_status() {
    let sub = submission("c", "int main(){return 0;}", 1, None, None, Mode::CompileOnly);
    let (actions, r) = drive(
        &sub,
        vec![
            Event::Provisioned(true),
            Event::Compiled(CompileOutcome::Finished { success: true, stderr: Some(String::new()) }),
            Event::CleanedUp(true),
        ],
    );
    assert!(!actions.iter().any(|a| matches!(a, Action::Run { .. })));
    assert_eq!(r.status.code(), 200);
    assert_eq!(r.error, None);
    let py = submission("python", "print(1)", 1, None, None, Mode::CompileOnly);
    assert_eq!(drive(&py, vec![]).1.status.code(), 403);
}

#[test]
fn build_failures_of_the_toolchain() {
    let sub = submission("rust", "fn main(){}", 1, None, None, Mode::RunSample);
    let (_, spawn) = drive(
        &sub,
        vec![Event::Provisioned(true), Event::Compiled(CompileOutcome::SpawnFailed), Event::CleanedUp(true)],
    );
    assert_eq!(spawn.status.code(), 500);
    let (_, garbled) = drive(
        &sub,
        vec![
            Event::Provisioned(true),
            Event::Compiled(CompileOutcome::Finished { success: false, stderr: None }),
            Event::CleanedUp(true),
        ],
    );
    assert_eq!(garbled.status.code(), 500);
    let (_, missing) = drive(
        &sub,
        vec![Event::Provisioned(true), Event::Compiled(CompileOutcome::SourceMissing), Event::CleanedUp(true)],
    );
    assert_eq!(missing.status.code(), 404);
}

#[test]
fn requests_that_cannot_be_handled() {
    let unknown = submission("cobol", "x", 1, None, None, Mode::RunSample);
    assert_eq!(drive(&unknown, vec![]).1.status.code(), 403);
    let no_input = submission("python", "x", 1, None, Some("1"), Mode::Submit);
    assert_eq!(drive(&no_input, vec![]).1.status.code(), 404);
    let no_custom_input = submission("python", "x", 1, None, None, Mode::RunCustomInput);
    assert_eq!(drive(&no_custom_input, vec![]).1.status.code(), 404);
    let zero_time = submission("python", "x", 0, None, None, Mode::RunSample);
    assert_eq!(drive(&zero_time, vec![]).1.status.code(), 403);
    let kotlin = submission("kotlin", "fun main() {}", 1, None, None, Mode::RunSample);
    assert_eq!(drive(&kotlin, vec![]).1.status.code(), 403);
}

#[test]
fn custom_input_run_feeds_input() {
    let sub = submission("ruby", "puts gets", 3, Some("abc"), None, Mode::RunCustomInput);
    let (actions, r) = drive(
        &sub,
        vec![Event::Provisioned(true), exited(true, Some("abc\n"), ""), Event::CleanedUp(true)],
    );
    match &actions[1] {
        Action::Run { command, stdin, stdout, .. } => {
            assert_eq!(command.program, "ruby");
            assert_eq!(stdin.as_deref(), Some("ruby-fixed/input.txt"));
            assert!(stdout.is_none());
        }
        _ => panic!("expected a run"),
    }
    assert_eq!(r.debug_output.as_deref(), Some("abc\n"));
}

#[test]
fn java_runs_its_class_from_the_workspace() {
    let sub = submission("java", "public class Main { }", 2, None, None, Mode::RunSample);
    let (actions, _) = drive(
        &sub,
        vec![
            Event::Provisioned(true),
            Event::Compiled(CompileOutcome::Finished { success: true, stderr: Some(String::new()) }),
            exited(true, Some(""), ""),
            Event::CleanedUp(true),
        ],
    );
    match &actions[1] {
        Action::Compile(c) => assert_eq!(c.args, vec!["java-fixed/Main.java"]),
        _ => panic!("expected a build"),
    }
    match &actions[2] {
        Action::Run { command, .. } => {
            assert_eq!(command.program, "java");
            assert_eq!(command.args, vec!["-cp", "java-fixed", "Main"]);
        }
        _ => panic!("expected a run"),
    }
}

#[test]
fn fresh_pipelines_get_distinct_workspaces() {
    let sub = submission("c", "int main(){}", 1, None, None, Mode::RunSample);
    let mut folders = std::collections::HashSet::new();
    for _ in 0..10000 {
        match Pipeline::new(&sub).1 {
            Action::Provision { folder, .. } => {
                assert!(folder.starts_with("c-"));
                assert_eq!(folder.len(), 38);
                let suffix = &folder[2..];
                assert!(suffix.chars().all(|c| c == '-' || c.is_ascii_digit() || ('a'..='f').contains(&c)));
                assert_eq!(suffix.chars().filter(|c| *c == '-').count(), 4);
                assert!(folders.insert(folder));
            }
            _ => panic!("expected provisioning"),
        }
    }
}

#[test]
fn question_runs_as_sample() {
    let q = Question {
        id: "q1".to_string(),
        language: "python".to_string(),
        source_code: "print(2)".to_string(),
        timeout: 3,
        sample_testcases: vec![("1".to_string(), "2".to_string())],
    };
    let sub = Submission::from_question(&q);
    assert_eq!(sub.mode, Mode::RunSample);
    assert_eq!(sub.id, "q1");
    assert_eq!(sub.timeout, 3);
    let r = Response::failure(StatusCodes::RuntimeError);
    let body = r.error_response("q1").unwrap();
    assert_eq!(body.id, "q1");
    assert_eq!(body.error, "Runtime Error");
    assert!(Response::plain(StatusCodes::Success).error_response("q1").is_none());
}
