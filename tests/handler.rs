use orgu::checkout::CheckoutError;
use orgu::dispatch::{
    Action, CommandSpec, Config, Dispatch, DispatchError, Event, ExecutionOutcome,
    GithubAppConfig, Handler,
};
use orgu::duration::JobDuration;
use orgu::events::{CheckRequest, GithubRepository, User};
use orgu::report::{CommandOutput, Conclusion, UpdateRequest};

fn build_checkrequest() -> CheckRequest {
    CheckRequest {
        event_name: "pull_request".to_owned(),
        action: "synchronize".to_owned(),
        head_sha: "testsha".to_owned(),
        pull_request_number: Some(55),
        pull_request_head_ref: Some("test-branch".to_owned()),
        repository: GithubRepository {
            full_name: "owner/repo".to_owned(),
            name: "repo".to_owned(),
            owner: User {
                login: "owner".to_owned(),
            },
            ..Default::default()
        },
        ..Default::default()
    }
}

fn config(job_name: &str, command: &[&str]) -> Config {
    Config {
        job_name: job_name.to_owned(),
        command: command.iter().map(|s| s.to_string()).collect(),
        wrap_stdout: false,
        job_timeout: JobDuration::from_secs(10 * 60),
    }
}

fn app_config(installation_id: i64) -> GithubAppConfig {
    GithubAppConfig {
        app_id: 1,
        installation_id,
        private_key: "test-private-key".to_owned(),
    }
}

fn env_output(spec: &CommandSpec) -> Vec<u8> {
    let mut out = String::new();
    for e in &spec.env {
        out.push_str(&format!("{}={}\n", e.key, e.value));
    }
    out.push_str("PATH=/usr/bin:/bin\n");
    out.into_bytes()
}

// Drives a dispatch that gets through the checkout, then answers the command
// with `outcome`; returns the completion request and the final result.
fn run_to_update(
    handler: &Handler,
    req: CheckRequest,
    outcome: impl FnOnce(&CommandSpec) -> ExecutionOutcome,
) -> (UpdateRequest, Result<(), DispatchError>) {
    let (mut d, a) = Dispatch::start(handler, req);
    assert!(matches!(a, Action::CreateCheckRun { .. }));
    let a = d.step(Event::Created(Ok(0)));
    assert!(matches!(a, Action::FetchToken));
    let a = d.step(Event::TokenFetched(Ok("test_token".to_owned())));
    assert!(matches!(a, Action::Checkout(_)));
    let a = d.step(Event::CheckedOut(Ok(())));
    let spec = match a {
        Action::RunCommand(spec) => spec,
        other => panic!("expected a command run, got {:?}", other),
    };
    let a = d.step(Event::Executed(Ok(outcome(&spec))));
    let update = match a {
        Action::UpdateCheckRun { request, .. } => request,
        other => panic!("expected an update, got {:?}", other),
    };
    let result = match d.step(Event::Updated(Ok(()))) {
        Action::Finish(r) => r,
        other => panic!("expected the end, got {:?}", other),
    };
    (update, result)
}

#[test]
fn ok() {
    let handler = Handler::new(config("test_job", &["env"]), app_config(0));
    let mut req = build_checkrequest();
    req.repository
        .custom_properties
        .push(("team".to_owned(), "t-platform".to_owned()));
    req.repository
        .custom_properties
        .push(("domain".to_owned(), "d-platform".to_owned()));
    let (input, res) = run_to_update(&handler, req, |spec| {
        ExecutionOutcome::CommandCompleted(CommandOutput {
            success: true,
            status: "exit status: 0".to_owned(),
            stdout: env_output(spec),
            stderr: Vec::new(),
        })
    });
    assert!(input.output.summary.starts_with("Command succeeded"));
    let text = &input.output.text;
    assert!(text.contains("GITHUB_TOKEN=test_token"));
    assert!(text.contains("REVIEWDOG_GITHUB_API_TOKEN=test_token"));
    assert!(text.contains("REVIEWDOG_SKIP_DOGHOUSE=true"));
    assert!(text.contains("JOB_NAME=test_job"));
    assert!(text.contains("CI_COMMIT=testsha"));
    assert!(text.contains("CI_REPO_OWNER=owner"));
    assert!(text.contains("CI_REPO_NAME=repo"));
    assert!(text.contains("CI_PULL_REQUEST=55"));
    assert!(text.contains("CI_HEAD=testsha"));
    assert!(text.contains("CI_HEAD_REF=test-branch"));
    assert!(text.contains("PATH="));
    assert!(text.contains("CUSTOM_PROP_TEAM=t-platform"));
    assert!(text.contains("CUSTOM_PROP_DOMAIN=d-platform"));
    assert_eq!(input.conclusion, Conclusion::Success);
    res.unwrap();
}

#[test]
fn command_failed() {
    let handler = Handler::new(config("", &["false"]), app_config(0));
    let (input, res) = run_to_update(&handler, CheckRequest::default(), |_| {
        ExecutionOutcome::CommandCompleted(CommandOutput {
            success: false,
            status: "exit status: 1".to_owned(),
            stdout: Vec::new(),
            stderr: Vec::new(),
        })
    });
    assert!(input
        .output
        .summary
        .starts_with("Command failed with exit status: 1: `false`"));
    assert_eq!(input.conclusion, Conclusion::Failure);
    res.unwrap();
}

#[test]
fn empty_command() {
    let handler = Handler::new(config("", &[]), app_config(0));
    let (mut d, a) = Dispatch::start(&handler, CheckRequest::default());
    assert!(matches!(a, Action::CreateCheckRun { .. }));
    d.step(Event::Created(Ok(0)));
    d.step(Event::TokenFetched(Ok("test_token".to_owned())));
    let a = d.step(Event::CheckedOut(Ok(())));
    match a {
        Action::UpdateCheckRun { request, .. } => {
            assert_eq!(request.conclusion, Conclusion::Failure);
            assert!(request
                .output
                .text
                .contains("empty COMMAND arg given. See --help."));
        }
        other => panic!("expected a corrective update, got {:?}", other),
    }
    let res = match d.step(Event::Updated(Ok(()))) {
        Action::Finish(r) => r,
        other => panic!("expected the end, got {:?}", other),
    };
    assert!(res.is_err());
    assert_eq!(
        res.unwrap_err().message(),
        "empty COMMAND arg given. See --help."
    );
}

#[test]
fn checkout_timedout() {
    let handler = Handler::new(config("", &["echo", "hello"]), app_config(0));
    let (mut d, a) = Dispatch::start(&handler, CheckRequest::default());
    assert!(matches!(a, Action::CreateCheckRun { .. }));
    d.step(Event::Created(Ok(0)));
    d.step(Event::TokenFetched(Ok("test_token".to_owned())));
    let a = d.step(Event::CheckedOut(Err(CheckoutError::Timeout(
        JobDuration::from_secs(10),
    ))));
    match a {
        Action::UpdateCheckRun { request, .. } => {
            assert_eq!(request.conclusion, Conclusion::TimedOut);
            assert_eq!(request.output.title, "Checkout repository timed out");
            assert!(request.output.summary.contains("(10s)"));
        }
        other => panic!("expected an update, got {:?}", other),
    }
    let res = match d.step(Event::Updated(Ok(()))) {
        Action::Finish(r) => r,
        other => panic!("expected the end, got {:?}", other),
    };
    // Checkout timeout is considered as success with reporting failure via Checks API.
    res.unwrap();
}

// An event from another installation that is no re-run request is skipped.
#[test]
fn different_installation_id() {
    let handler = Handler::new(config("test_job", &["env"]), app_config(123));
    let (d, a) = Dispatch::start(&handler, build_checkrequest());
    assert!(d.is_done());
    match a {
        Action::Finish(r) => r.unwrap(),
        other => panic!("expected no call, got {:?}", other),
    }
}

// A re-run request is handled whatever installation it reports.
#[test]
fn different_installation_id_with_check_suite_rerequested() {
    let handler = Handler::new(config("test_job", &["env"]), app_config(123));
    let mut req = build_checkrequest();
    req.installation_id = 456;
    req.event_name = "check_suite".to_owned();
    req.action = "rerequested".to_owned();
    let (d, a) = Dispatch::start(&handler, req);
    assert!(!d.is_done());
    match a {
        Action::CreateCheckRun { owner, repo, request } => {
            assert_eq!(owner, "owner");
            assert_eq!(repo, "repo");
            assert_eq!(request.name, "run-test_job");
        }
        other => panic!("expected a check run, got {:?}", other),
    }
}

#[test]
fn echo_hello_is_reported_under_stdout() {
    let handler = Handler::new(config("job", &["echo", "hello"]), app_config(0));
    let (input, res) = run_to_update(&handler, CheckRequest::default(), |spec| {
        assert_eq!(spec.program, "echo");
        assert_eq!(spec.args, vec!["hello".to_owned()]);
        ExecutionOutcome::CommandCompleted(CommandOutput {
            success: true,
            status: "exit status: 0".to_owned(),
            stdout: b"hello\n".to_vec(),
            stderr: Vec::new(),
        })
    });
    assert_eq!(input.conclusion, Conclusion::Success);
    let text = &input.output.text;
    let stdout_at = text.find("## stdout\n").unwrap();
    let stderr_at = text.find("## stderr\n").unwrap();
    let hello_at = text.find("hello").unwrap();
    assert!(stdout_at < hello_at && hello_at < stderr_at);
    assert!(text.starts_with("## env\n```\n"));
    assert!(text.contains("GITHUB_TOKEN: **********"));
    assert!(!text.contains("GITHUB_TOKEN: test_token"));
    res.unwrap();
}

#[test]
fn command_timeout_is_reported_as_timed_out() {
    let handler = Handler::new(config("job", &["sleep", "100"]), app_config(0));
    let (input, res) = run_to_update(&handler, CheckRequest::default(), |_| {
        ExecutionOutcome::CommandTimedOut
    });
    assert_eq!(input.conclusion, Conclusion::TimedOut);
    assert_eq!(input.output.title, "Running job timed out");
    assert!(input
        .output
        .summary
        .starts_with("Job execution has timed out on the runner (10m): `sleep 100`"));
    res.unwrap();
}

#[test]
fn failed_token_fetch_completes_the_run_and_fails() {
    let handler = Handler::new(config("job", &["true"]), app_config(0));
    let mut req = CheckRequest::default();
    req.delivery_id = "d-1".to_owned();
    req.request_id = "r-1".to_owned();
    let (mut d, _) = Dispatch::start(&handler, req);
    d.step(Event::Created(Ok(7)));
    let a = d.step(Event::TokenFetched(Err("token service down".to_owned())));
    match a {
        Action::UpdateCheckRun {
            check_run_id,
            request,
            ..
        } => {
            assert_eq!(check_run_id, 7);
            assert_eq!(request.conclusion, Conclusion::Failure);
            assert_eq!(request.output.title, "Runner failed to handle event");
            assert_eq!(
                request.output.summary,
                "Event handling failed, contact operation team.\n\nDelivery ID (not unique for re-delivery): `d-1`\nRequest ID (unique for re-delivery): `r-1`"
            );
            assert_eq!(
                request.output.text,
                "Error:\n\n```\ntoken service down\n```"
            );
        }
        other => panic!("expected a corrective update, got {:?}", other),
    }
    match d.step(Event::Updated(Ok(()))) {
        Action::Finish(Err(e)) => assert_eq!(e.message(), "token service down"),
        other => panic!("expected the error, got {:?}", other),
    }
}

#[test]
fn failed_checkout_and_failed_create() {
    let handler = Handler::new(config("job", &["true"]), app_config(0));
    let (mut d, _) = Dispatch::start(&handler, CheckRequest::default());
    d.step(Event::Created(Ok(1)));
    d.step(Event::TokenFetched(Ok("t".to_owned())));
    let a = d.step(Event::CheckedOut(Err(CheckoutError::Failed(
        "network down".to_owned(),
    ))));
    assert!(matches!(a, Action::UpdateCheckRun { .. }));
    match d.step(Event::Updated(Ok(()))) {
        Action::Finish(Err(e)) => assert_eq!(e.message(), "network down"),
        other => panic!("expected the error, got {:?}", other),
    }

    let (mut d, _) = Dispatch::start(&handler, CheckRequest::default());
    match d.step(Event::Created(Err("forbidden".to_owned()))) {
        Action::Finish(Err(e)) => assert_eq!(e.message(), "forbidden"),
        other => panic!("expected the error, got {:?}", other),
    }
    assert!(d.is_done());
}

#[test]
fn failed_report_gets_a_corrective_update() {
    let handler = Handler::new(config("job", &["true"]), app_config(0));
    let (mut d, _) = Dispatch::start(&handler, CheckRequest::default());
    d.step(Event::Created(Ok(1)));
    d.step(Event::TokenFetched(Ok("t".to_owned())));
    d.step(Event::CheckedOut(Ok(())));
    d.step(Event::Executed(Ok(ExecutionOutcome::CommandTimedOut)));
    let a = d.step(Event::Updated(Err("service unavailable".to_owned())));
    match a {
        Action::UpdateCheckRun { request, .. } => {
            assert_eq!(request.conclusion, Conclusion::Failure)
        }
        other => panic!("expected a corrective update, got {:?}", other),
    }
    match d.step(Event::Updated(Ok(()))) {
        Action::Finish(Err(e)) => assert_eq!(e.message(), "service unavailable"),
        other => panic!("expected the error, got {:?}", other),
    }
}

#[test]
fn command_that_cannot_start_is_an_error() {
    let handler = Handler::new(config("job", &["nosuch", "-x"]), app_config(0));
    let (mut d, _) = Dispatch::start(&handler, CheckRequest::default());
    d.step(Event::Created(Ok(1)));
    d.step(Event::TokenFetched(Ok("t".to_owned())));
    d.step(Event::CheckedOut(Ok(())));
    d.step(Event::Executed(Err("No such file or directory".to_owned())));
    match d.step(Event::Updated(Ok(()))) {
        Action::Finish(Err(e)) => assert_eq!(
            e.message(),
            "failed to run command: nosuch -x: No such file or directory"
        ),
        other => panic!("expected the error, got {:?}", other),
    }
}

#[test]
fn create_request_names_the_command() {
    let handler = Handler::new(config("lint", &["make", "lint"]), app_config(0));
    let mut req = build_checkrequest();
    req.delivery_id = "d".to_owned();
    req.request_id = "r".to_owned();
    let (_, a) = Dispatch::start(&handler, req);
    match a {
        Action::CreateCheckRun { request, .. } => {
            assert_eq!(request.name, "run-lint");
            assert_eq!(request.head_sha, "testsha");
            assert_eq!(request.output.title, "Runner is running job");
            assert_eq!(
                request.output.summary,
                "Running command:\n```\nmake lint\n```\n\nDelivery ID (not unique for re-delivery): `d`\nRequest ID (unique for re-delivery): `r`"
            );
        }
        other => panic!("expected a check run, got {:?}", other),
    }
}

#[test]
fn expected_events_follow_the_stage() {
    let handler = Handler::new(config("job", &["true"]), app_config(0));
    let (mut d, _) = Dispatch::start(&handler, CheckRequest::default());
    assert!(d.is_expected(&Event::Created(Ok(1))));
    assert!(!d.is_expected(&Event::Updated(Ok(()))));
    d.step(Event::Created(Ok(1)));
    assert!(d.is_expected(&Event::TokenFetched(Ok("t".to_owned()))));
    assert!(!d.is_expected(&Event::Created(Ok(1))));
}

#[test]
fn failed_corrective_update_keeps_the_original_error() {
    let handler = Handler::new(config("job", &["true"]), app_config(0));
    let (mut d, _) = Dispatch::start(&handler, CheckRequest::default());
    d.step(Event::Created(Ok(3)));
    d.step(Event::TokenFetched(Err("token service down".to_owned())));
    match d.step(Event::Updated(Err("api down".to_owned()))) {
        Action::Finish(Err(e)) => assert_eq!(
            e.message(),
            "token service down\n\nthe check run could not be completed either: api down"
        ),
        other => panic!("expected the error, got {:?}", other),
    }
    assert!(d.is_done());
}

#[test]
fn every_completion_goes_to_the_opened_check_run() {
    let handler = Handler::new(config("job", &[]), app_config(0));
    let (mut d, _) = Dispatch::start(&handler, CheckRequest::default());
    d.step(Event::Created(Ok(42)));
    d.step(Event::TokenFetched(Ok("t".to_owned())));
    match d.step(Event::CheckedOut(Ok(()))) {
        Action::UpdateCheckRun { check_run_id, .. } => assert_eq!(check_run_id, 42),
        other => panic!("expected an update, got {:?}", other),
    }

    let handler = Handler::new(config("job", &["true"]), app_config(0));
    let (mut d, _) = Dispatch::start(&handler, CheckRequest::default());
    d.step(Event::Created(Ok(43)));
    d.step(Event::TokenFetched(Ok("t".to_owned())));
    d.step(Event::CheckedOut(Ok(())));
    match d.step(Event::Executed(Ok(ExecutionOutcome::CommandTimedOut))) {
        Action::UpdateCheckRun { check_run_id, .. } => assert_eq!(check_run_id, 43),
        other => panic!("expected an update, got {:?}", other),
    }
}
