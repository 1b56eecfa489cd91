use orgu::events::{GithubRepository, User};
use orgu::github_events::{
    CheckRun, CheckRunEvent, CheckSuite, CheckSuiteEvent, CheckSuitePullRequest, GithubEvent,
    Installation, PullRequest, PullRequestEvent, Reference, WebhookCommonFields,
};

#[test]
fn pull_request_before_zero_value() {
    let pr = PullRequestEvent {
        before: Some("0000000000000000000000000000000000000000".to_owned()),
        pull_request: PullRequest {
            base: Reference {
                sha: "base_sha".to_owned(),
                ..Default::default()
            },
            ..Default::default()
        },
        ..Default::default()
    };
    assert_eq!(pr.before(), Some("base_sha".to_owned()));
}

#[test]
fn pull_request_before_null_value() {
    let pr = PullRequestEvent {
        before: None,
        pull_request: PullRequest {
            base: Reference {
                sha: "base_sha".to_owned(),
                ..Default::default()
            },
            ..Default::default()
        },
        ..Default::default()
    };
    assert_eq!(pr.before(), Some("base_sha".to_owned()));
}

#[test]
fn pull_request_before_ok() {
    let pr = PullRequestEvent {
        before: Some("before_sha".to_owned()),
        ..Default::default()
    };
    assert_eq!(pr.before(), Some("before_sha".to_owned()));
}

fn common(action: &str) -> WebhookCommonFields {
    WebhookCommonFields {
        action: action.to_owned(),
        repository: GithubRepository {
            full_name: "octo/app".to_owned(),
            name: "app".to_owned(),
            private: true,
            owner: User {
                login: "octo".to_owned(),
            },
            custom_properties: vec![("team".to_owned(), "core".to_owned())],
        },
        sender: User {
            login: "ferris".to_owned(),
        },
        installation: Installation { id: 42 },
    }
}

fn suite_with_pr(before: Option<&str>) -> CheckSuite {
    CheckSuite {
        head_sha: "head".to_owned(),
        before: before.map(|s| s.to_owned()),
        after: Some("after".to_owned()),
        pull_requests: vec![CheckSuitePullRequest {
            id: 1,
            number: 9,
            head: Reference {
                ref_: "feature".to_owned(),
                sha: "head".to_owned(),
            },
            base: Reference {
                ref_: "main".to_owned(),
                sha: "base".to_owned(),
            },
        }],
        ..Default::default()
    }
}

#[test]
fn check_suite_request_takes_first_pull_request() {
    let ev = CheckSuiteEvent {
        common: common("rerequested"),
        check_suite: suite_with_pr(Some("0000000000000000000000000000000000000000")),
    };
    let r = ev.build_check_request("req".to_owned(), "del".to_owned());
    assert_eq!(r.request_id, "req");
    assert_eq!(r.delivery_id, "del");
    assert_eq!(r.installation_id, 42);
    assert_eq!(r.event_name, "check_suite");
    assert_eq!(r.action, "rerequested");
    assert_eq!(r.head_sha, "head");
    assert_eq!(r.base_sha, Some("base".to_owned()));
    assert_eq!(r.base_ref, Some("main".to_owned()));
    assert_eq!(r.before, Some("base".to_owned()));
    assert_eq!(r.after, Some("after".to_owned()));
    assert_eq!(r.pull_request_number, Some(9));
    assert_eq!(r.pull_request_head_ref, Some("feature".to_owned()));
    assert_eq!(r.sender.login, "ferris");
    assert_eq!(r.repository.custom_properties.len(), 1);
    assert_eq!(ev.head_sha(), "head");
}

#[test]
fn check_run_request_without_pull_request() {
    let ev = CheckRunEvent {
        common: common("rerequested"),
        check_run: CheckRun {
            check_suite: CheckSuite {
                head_sha: "h".to_owned(),
                before: Some("b".to_owned()),
                ..Default::default()
            },
        },
    };
    let r = ev.build_check_request("req".to_owned(), "del".to_owned());
    assert_eq!(r.event_name, "check_run");
    assert_eq!(r.before, Some("b".to_owned()));
    assert_eq!(r.base_sha, None);
    assert_eq!(r.pull_request_number, None);
    assert_eq!(ev.before(), Some("b".to_owned()));

    let empty = CheckRunEvent::default();
    assert_eq!(empty.before(), None);
}

#[test]
fn pull_request_request_fills_before_and_after() {
    let ev = PullRequestEvent {
        common: common("opened"),
        number: 3,
        before: None,
        after: None,
        pull_request: PullRequest {
            head: Reference {
                ref_: "topic".to_owned(),
                sha: "h".to_owned(),
            },
            base: Reference {
                ref_: "main".to_owned(),
                sha: "b".to_owned(),
            },
            ..Default::default()
        },
    };
    let r = ev.build_check_request("req".to_owned(), "del".to_owned());
    assert_eq!(r.event_name, "pull_request");
    assert_eq!(r.before, Some("b".to_owned()));
    assert_eq!(r.after, Some("h".to_owned()));
    assert_eq!(r.pull_request_number, Some(3));
    assert_eq!(r.pull_request_head_ref, Some("topic".to_owned()));
    assert_eq!(ev.after(), Some("h".to_owned()));
}
