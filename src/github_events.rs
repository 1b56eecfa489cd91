//! Webhook payloads of the events the front accepts, and their normalization
//! into a `CheckRequest`.
use vstd::prelude::*;

use crate::events::{duplicate_opt, opt_is, same_opt, CheckRequest, GithubRepository, User};
use crate::text::str_eq;

verus! {

/// The SHA that webhooks send in place of a missing one.
pub const ZERO_SHA_VALUE: &'static str = "0000000000000000000000000000000000000000";

/// The part of the payload every supported event has.
#[derive(Debug, Clone, Default)]
pub struct WebhookCommonFields {
    pub action: String,
    pub repository: GithubRepository,
    pub sender: User,
    pub installation: Installation,
}

/// A `check_suite` event.
#[derive(Debug, Clone, Default)]
pub struct CheckSuiteEvent {
    pub common: WebhookCommonFields,
    pub check_suite: CheckSuite,
}

/// A `check_run` event.
#[derive(Debug, Clone, Default)]
pub struct CheckRunEvent {
    pub common: WebhookCommonFields,
    pub check_run: CheckRun,
}

/// A `pull_request` event.
#[derive(Debug, Clone, Default)]
pub struct PullRequestEvent {
    pub common: WebhookCommonFields,
    /// The pull request number.
    pub number: u64,
    pub before: Option<String>,
    pub after: Option<String>,
    pub pull_request: PullRequest,
}

#[derive(Debug, Clone, Default)]
pub struct CheckSuite {
    pub id: i64,
    pub head_sha: String,
    pub before: Option<String>,
    pub after: Option<String>,
    pub pull_requests: Vec<CheckSuitePullRequest>,
    pub created_at: String,
    pub updated_at: String,
}

#[derive(Debug, Clone, Default)]
pub struct CheckSuitePullRequest {
    pub id: u64,
    pub number: u64,
    pub head: Reference,
    pub base: Reference,
}

#[derive(Debug, Clone, Default)]
pub struct CheckRun {
    pub check_suite: CheckSuite,
}

#[derive(Debug, Clone, Default)]
pub struct PullRequest {
    pub id: i64,
    pub head: Reference,
    pub base: Reference,
    pub draft: bool,
    pub title: String,
    pub user: User,
    pub url: String,
    pub html_url: String,
    pub created_at: String,
    pub updated_at: String,
}

#[derive(Debug, Clone, Default)]
pub struct Reference {
    pub ref_: String,
    pub sha: String,
}

#[derive(Debug, Clone, Default)]
pub struct Installation {
    pub id: i64,
}

/// An optional SHA with the zero SHA read as absent.
pub open spec fn present_sha(o: Option<String>) -> Option<Seq<char>> {
    match o {
        Some(s) => if s@ == ZERO_SHA_VALUE@ {
            None
        } else {
            Some(s@)
        },
        None => None,
    }
}

/// The `before` SHA of a check suite: its own unless missing, else the base
/// SHA of its first pull request.
pub open spec fn suite_before(suite: CheckSuite) -> Option<Seq<char>> {
    match present_sha(suite.before) {
        Some(s) => Some(s),
        None => if suite.pull_requests@.len() > 0 {
            Some(suite.pull_requests@[0].base.sha@)
        } else {
            None
        },
    }
}

/// The field of the first pull request of a suite, if any.
pub open spec fn first_pr_field(
    suite: CheckSuite,
    f: spec_fn(CheckSuitePullRequest) -> Seq<char>,
) -> Option<Seq<char>> {
    if suite.pull_requests@.len() > 0 {
        Some(f(suite.pull_requests@[0]))
    } else {
        None
    }
}

/// Whether `r` is the request normalized from a suite-based event.
pub open spec fn suite_request(
    r: CheckRequest,
    common: WebhookCommonFields,
    suite: CheckSuite,
    event_name: Seq<char>,
    req_id: Seq<char>,
    delivery_id: Seq<char>,
) -> bool {
    &&& r.request_id@ == req_id
    &&& r.delivery_id@ == delivery_id
    &&& r.installation_id == common.installation.id
    &&& r.event_name@ == event_name
    &&& r.action@ == common.action@
    &&& r.repository.same(&common.repository)
    &&& r.head_sha@ == suite.head_sha@
    &&& opt_is(r.base_sha, first_pr_field(suite, |p: CheckSuitePullRequest| p.base.sha@))
    &&& opt_is(r.base_ref, first_pr_field(suite, |p: CheckSuitePullRequest| p.base.ref_@))
    &&& opt_is(r.before, suite_before(suite))
    &&& same_opt(r.after, suite.after)
    &&& r.pull_request_number == (if suite.pull_requests@.len() > 0 {
        Some(suite.pull_requests@[0].number)
    } else {
        None::<u64>
    })
    &&& opt_is(
        r.pull_request_head_ref,
        first_pr_field(suite, |p: CheckSuitePullRequest| p.head.ref_@),
    )
    &&& r.sender.login@ == common.sender.login@
}

/// An event that can be normalized into a `CheckRequest`.
pub trait GithubEvent {
    /// Whether `r` is this event's request under the given ids.
    spec fn is_request(&self, r: CheckRequest, req_id: Seq<char>, delivery_id: Seq<char>) -> bool;

    /// The SHA of the commit the event is about.
    spec fn head_sha_view(&self) -> Seq<char>;

    fn build_check_request(&self, req_id: String, delivery_id: String) -> (r: CheckRequest)
        ensures
            self.is_request(r, req_id@, delivery_id@),
    ;

    fn head_sha(&self) -> (r: &str)
        ensures
            r@ == self.head_sha_view(),
    ;
}

/// The SHA unless it is the zero SHA.
fn filter_zero(o: &Option<String>) -> (r: Option<String>)
    ensures
        opt_is(r, present_sha(*o)),
{
    match o {
        Some(s) => if str_eq(s.as_str(), ZERO_SHA_VALUE) {
            None
        } else {
            Some(s.clone())
        },
        None => None,
    }
}

fn before_of_suite(suite: &CheckSuite) -> (r: Option<String>)
    ensures
        opt_is(r, suite_before(*suite)),
{
    match filter_zero(&suite.before) {
        Some(s) => Some(s),
        None => if suite.pull_requests.len() > 0 {
            Some(suite.pull_requests[0].base.sha.clone())
        } else {
            None
        },
    }
}

fn request_of_suite(
    common: &WebhookCommonFields,
    suite: &CheckSuite,
    event_name: &str,
    req_id: String,
    delivery_id: String,
) -> (r: CheckRequest)
    ensures
        suite_request(r, *common, *suite, event_name@, req_id@, delivery_id@),
{
    let has_pr = suite.pull_requests.len() > 0;
    let (base_sha, base_ref, number, head_ref) = if has_pr {
        let pr = &suite.pull_requests[0];
        (Some(pr.base.sha.clone()), Some(pr.base.ref_.clone()), Some(pr.number), Some(
            pr.head.ref_.clone(),
        ))
    } else {
        (None, None, None, None)
    };
    CheckRequest {
        request_id: req_id,
        delivery_id,
        installation_id: common.installation.id,
        event_name: event_name.to_owned(),
        action: common.action.clone(),
        repository: common.repository.duplicate(),
        head_sha: suite.head_sha.clone(),
        base_sha,
        base_ref,
        before: before_of_suite(suite),
        after: duplicate_opt(&suite.after),
        pull_request_number: number,
        pull_request_head_ref: head_ref,
        sender: common.sender.duplicate(),
    }
}

impl CheckSuiteEvent {
    /// The suite's `before` SHA, or the base SHA of its first pull request
    /// where the suite's is missing or zero.
    pub fn before(&self) -> (r: Option<String>)
        ensures
            opt_is(r, suite_before(self.check_suite)),
    {
        before_of_suite(&self.check_suite)
    }
}

impl GithubEvent for CheckSuiteEvent {
    open spec fn is_request(
        &self,
        r: CheckRequest,
        req_id: Seq<char>,
        delivery_id: Seq<char>,
    ) -> bool {
        suite_request(r, self.common, self.check_suite, "check_suite"@, req_id, delivery_id)
    }

    open spec fn head_sha_view(&self) -> Seq<char> {
        self.check_suite.head_sha@
    }

    fn build_check_request(&self, req_id: String, delivery_id: String) -> (r: CheckRequest) {
        request_of_suite(&self.common, &self.check_suite, "check_suite", req_id, delivery_id)
    }

    fn head_sha(&self) -> (r: &str) {
        self.check_suite.head_sha.as_str()
    }
}

impl CheckRunEvent {
    /// The `before` SHA of the run's suite, read as for a `check_suite` event.
    pub fn before(&self) -> (r: Option<String>)
        ensures
            opt_is(r, suite_before(self.check_run.check_suite)),
    {
        before_of_suite(&self.check_run.check_suite)
    }
}

impl GithubEvent for CheckRunEvent {
    open spec fn is_request(
        &self,
        r: CheckRequest,
        req_id: Seq<char>,
        delivery_id: Seq<char>,
    ) -> bool {
        suite_request(
            r,
            self.common,
            self.check_run.check_suite,
            "check_run"@,
            req_id,
            delivery_id,
        )
    }

    open spec fn head_sha_view(&self) -> Seq<char> {
        self.check_run.check_suite.head_sha@
    }

    fn build_check_request(&self, req_id: String, delivery_id: String) -> (r: CheckRequest) {
        request_of_suite(
            &self.common,
            &self.check_run.check_suite,
            "check_run",
            req_id,
            delivery_id,
        )
    }

    fn head_sha(&self) -> (r: &str) {
        self.check_run.check_suite.head_sha.as_str()
    }
}

/// The `before` SHA of a pull request event: its own unless missing or zero,
/// else the base SHA.
pub open spec fn pr_before(e: PullRequestEvent) -> Seq<char> {
    match present_sha(e.before) {
        Some(s) => s,
        None => e.pull_request.base.sha@,
    }
}

/// The `after` SHA of a pull request event: its own unless missing, else the head SHA.
pub open spec fn pr_after(e: PullRequestEvent) -> Seq<char> {
    match e.after {
        Some(s) => s@,
        None => e.pull_request.head.sha@,
    }
}

impl PullRequestEvent {
    /// The event's `before` SHA, or the base SHA where it is missing or zero.
    pub fn before(&self) -> (r: Option<String>)
        ensures
            r matches Some(s) && s@ == pr_before(*self),
    {
        match filter_zero(&self.before) {
            Some(s) => Some(s),
            None => Some(self.pull_request.base.sha.clone()),
        }
    }

    /// The event's `after` SHA, or the head SHA where it is missing.
    pub fn after(&self) -> (r: Option<String>)
        ensures
            r matches Some(s) && s@ == pr_after(*self),
    {
        match &self.after {
            Some(s) => Some(s.clone()),
            None => Some(self.pull_request.head.sha.clone()),
        }
    }
}

impl GithubEvent for PullRequestEvent {
    open spec fn is_request(
        &self,
        r: CheckRequest,
        req_id: Seq<char>,
        delivery_id: Seq<char>,
    ) -> bool {
        &&& r.request_id@ == req_id
        &&& r.delivery_id@ == delivery_id
        &&& r.installation_id == self.common.installation.id
        &&& r.event_name@ == "pull_request"@
        &&& r.action@ == self.common.action@
        &&& r.repository.same(&self.common.repository)
        &&& r.head_sha@ == self.pull_request.head.sha@
        &&& opt_is(r.base_sha, Some(self.pull_request.base.sha@))
        &&& opt_is(r.base_ref, Some(self.pull_request.base.ref_@))
        &&& opt_is(r.before, Some(pr_before(*self)))
        &&& opt_is(r.after, Some(pr_after(*self)))
        &&& r.pull_request_number == Some(self.number)
        &&& opt_is(r.pull_request_head_ref, Some(self.pull_request.head.ref_@))
        &&& r.sender.login@ == self.common.sender.login@
    }

    open spec fn head_sha_view(&self) -> Seq<char> {
        self.pull_request.head.sha@
    }

    fn build_check_request(&self, req_id: String, delivery_id: String) -> (r: CheckRequest) {
        CheckRequest {
            request_id: req_id,
            delivery_id,
            installation_id: self.common.installation.id,
            event_name: "pull_request".to_owned(),
            action: self.common.action.clone(),
            repository: self.common.repository.duplicate(),
            head_sha: self.pull_request.head.sha.clone(),
            base_sha: Some(self.pull_request.base.sha.clone()),
            base_ref: Some(self.pull_request.base.ref_.clone()),
            before: self.before(),
            after: self.after(),
            pull_request_number: Some(self.number),
            pull_request_head_ref: Some(self.pull_request.head.ref_.clone()),
            sender: self.common.sender.duplicate(),
        }
    }

    fn head_sha(&self) -> (r: &str) {
        self.pull_request.head.sha.as_str()
    }
}

} // verus!
