//! Event patterns that subscribe runners to forwarded events, and example
//! events to try them on.
use vstd::prelude::*;
use vstd::string::*;

use crate::events::{pair_views, CheckRequest, GithubRepository, User};

verus! {

/// The event a pattern subscribes to.
#[derive(Debug, Clone, Copy, PartialEq, Eq, Structural)]
pub enum EventType {
    PullRequest,
    CheckSuite,
}

/// An action of an example event.
#[derive(Debug, Clone, Copy, PartialEq, Eq, Structural)]
pub enum EventAction {
    Opened,
    Cloned,
    Synchronize,
    Reopened,
    ReadyForReview,
    Requested,
    Rerequested,
}

/// The snake_case name of an event type.
pub open spec fn event_type_name(t: EventType) -> Seq<char> {
    match t {
        EventType::PullRequest => "pull_request"@,
        EventType::CheckSuite => "check_suite"@,
    }
}

/// The snake_case name of an action.
pub open spec fn action_name(a: EventAction) -> Seq<char> {
    match a {
        EventAction::Opened => "opened"@,
        EventAction::Cloned => "cloned"@,
        EventAction::Synchronize => "synchronize"@,
        EventAction::Reopened => "reopened"@,
        EventAction::ReadyForReview => "ready_for_review"@,
        EventAction::Requested => "requested"@,
        EventAction::Rerequested => "rerequested"@,
    }
}

impl EventType {
    /// The snake_case name.
    pub fn name(&self) -> (r: String)
        ensures
            r@ == event_type_name(*self),
    {
        match self {
            EventType::PullRequest => "pull_request".to_owned(),
            EventType::CheckSuite => "check_suite".to_owned(),
        }
    }
}

impl EventAction {
    /// The snake_case name.
    pub fn name(&self) -> (r: String)
        ensures
            r@ == action_name(*self),
    {
        match self {
            EventAction::Opened => "opened".to_owned(),
            EventAction::Cloned => "cloned".to_owned(),
            EventAction::Synchronize => "synchronize".to_owned(),
            EventAction::Reopened => "reopened".to_owned(),
            EventAction::ReadyForReview => "ready_for_review".to_owned(),
            EventAction::Requested => "requested".to_owned(),
            EventAction::Rerequested => "rerequested".to_owned(),
        }
    }
}

/// Splits `key=value` at the first `=`.
pub fn parse_key_val(s: &str) -> (r: Result<(String, String), String>)
    ensures
        r is Err <==> forall|i: int| 0 <= i < s@.len() ==> s@[i] != '=',
        r matches Ok(kv) ==> exists|i: int|
            0 <= i < s@.len() && s@[i] == '=' && (forall|j: int| 0 <= j < i ==> s@[j] != '=')
                && kv.0@ == s@.take(i) && kv.1@ == s@.skip(i + 1),
{
    let n = s.unicode_len();
    let mut i: usize = 0;
    while i < n
        invariant
            n == s@.len(),
            i <= n,
            forall|j: int| 0 <= j < i ==> s@[j] != '=',
        decreases n - i,
    {
        if s.get_char(i) == '=' {
            let key = s.substring_char(0, i).to_owned();
            let value = s.substring_char(i + 1, n).to_owned();
            assert(key@ =~= s@.take(i as int));
            assert(value@ =~= s@.skip(i + 1));
            return Ok((key, value));
        }
        i = i + 1;
    }
    let mut m = "invalid key=value pair: no `=` found in `".to_owned();
    m.append(s);
    m.append("`");
    Err(m)
}

/// What `generate` is asked for.
#[derive(Debug, Clone)]
pub struct GenerateArgs {
    pub event_type: EventType,
    /// Custom properties to match, as key and value.
    pub custom_props: Vec<(String, String)>,
}

/// What `test` is asked for.
#[derive(Debug, Clone)]
pub struct TestArgs {
    pub custom_props: Vec<(String, String)>,
    /// File holding the pattern; `-` for standard input.
    pub file: String,
    /// Print the example event and stop.
    pub print_only: bool,
    pub name: EventType,
    pub action: EventAction,
    pub owner: String,
    pub repo: String,
    pub sender: String,
}

/// The pattern tools.
#[derive(Debug, Clone)]
pub enum PatternCommands {
    /// Try a pattern on an example event.
    Test(TestArgs),
    /// Print the pattern for an event type.
    Generate(GenerateArgs),
}

/// Custom properties a pattern matches: each key with its accepted values.
#[derive(Debug, Clone)]
pub struct DetailRepository {
    pub custom_properties: Vec<(String, Vec<String>)>,
}

impl DetailRepository {
    /// Whether no custom property is matched.
    pub fn is_empty(&self) -> (r: bool)
        ensures
            r == (self.custom_properties@.len() == 0),
    {
        self.custom_properties.len() == 0
    }
}

/// The part of a pattern that matches the forwarded request.
#[derive(Debug, Clone)]
pub struct Detail {
    pub event_name: Vec<String>,
    pub action: Vec<String>,
    pub repository: DetailRepository,
}

/// An event bus pattern.
#[derive(Debug, Clone)]
pub struct Pattern {
    pub source: Vec<String>,
    pub detail_type: Vec<String>,
    pub detail: Detail,
}

/// The views of a list of strings.
pub open spec fn names(v: Vec<String>) -> Seq<Seq<char>> {
    v@.map_values(|s: String| s@)
}

/// Whether `p` is the pattern for `t` matching the custom properties `props`.
pub open spec fn is_pattern(p: Pattern, t: EventType, props: Seq<(String, String)>) -> bool {
    &&& names(p.source) == seq!["orgu-front"@]
    &&& names(p.detail_type) == seq!["orgu.check_request"@]
    &&& match t {
        EventType::PullRequest => {
            &&& names(p.detail.event_name) == seq!["pull_request"@, "check_suite"@]
            &&& names(p.detail.action) == seq![
                "opened"@,
                "synchronize"@,
                "reopened"@,
                "ready_for_review"@,
                "rerequested"@,
            ]
        },
        EventType::CheckSuite => {
            &&& names(p.detail.event_name) == seq!["check_suite"@]
            &&& names(p.detail.action) == seq!["requested"@, "rerequested"@]
        },
    }
    &&& p.detail.repository.custom_properties@.len() == props.len()
    &&& forall|i: int|
        0 <= i < props.len() ==> {
            let e = #[trigger] p.detail.repository.custom_properties@[i];
            e.0@ == props[i].0@ && names(e.1) == seq![props[i].1@]
        }
}

fn push_name(v: &mut Vec<String>, s: &str)
    ensures
        names(*final(v)) == names(*old(v)).push(s@),
{
    v.push(s.to_owned());
    assert(names(*final(v)) =~= names(*old(v)).push(s@));
}

fn one(s: &str) -> (r: Vec<String>)
    ensures
        names(r) == seq![s@],
{
    let mut v: Vec<String> = Vec::new();
    push_name(&mut v, s);
    assert(names(v) =~= seq![s@]);
    v
}

fn two(a: &str, b: &str) -> (r: Vec<String>)
    ensures
        names(r) == seq![a@, b@],
{
    let mut v = one(a);
    push_name(&mut v, b);
    assert(names(v) =~= seq![a@, b@]);
    v
}

/// The pattern that subscribes to events of the asked type, limited to
/// repositories with the given custom properties. For pull requests it also
/// takes re-run requests of check suites.
pub fn generate_pattern(args: &GenerateArgs) -> (r: Pattern)
    ensures
        is_pattern(r, args.event_type, args.custom_props@),
{
    let mut props: Vec<(String, Vec<String>)> = Vec::new();
    let n = args.custom_props.len();
    let mut i: usize = 0;
    while i < n
        invariant
            n == args.custom_props@.len(),
            i <= n,
            props@.len() == i,
            forall|j: int|
                0 <= j < i ==> {
                    let e = #[trigger] props@[j];
                    e.0@ == args.custom_props@[j].0@ && names(e.1) == seq![
                        args.custom_props@[j].1@,
                    ]
                },
        decreases n - i,
    {
        let k = args.custom_props[i].0.clone();
        let v = one(args.custom_props[i].1.as_str());
        props.push((k, v));
        i = i + 1;
    }
    let (event_name, action) = match args.event_type {
        EventType::PullRequest => {
            let mut a = two("opened", "synchronize");
            push_name(&mut a, "reopened");
            push_name(&mut a, "ready_for_review");
            push_name(&mut a, "rerequested");
            assert(names(a) =~= seq![
                "opened"@,
                "synchronize"@,
                "reopened"@,
                "ready_for_review"@,
                "rerequested"@,
            ]);
            (two("pull_request", "check_suite"), a)
        },
        EventType::CheckSuite => (one("check_suite"), two("requested", "rerequested")),
    };
    Pattern {
        source: one("orgu-front"),
        detail_type: one("orgu.check_request"),
        detail: Detail {
            event_name,
            action,
            repository: DetailRepository { custom_properties: props },
        },
    }
}

/// Whether `r` is the example request for `args`: a fixed delivery on a
/// private repository of the given owner and name.
pub open spec fn is_example(r: CheckRequest, args: TestArgs) -> bool {
    &&& r.request_id@ == "45771944-d356-4540-a0b7-b6dff7637f8d"@
    &&& r.delivery_id@ == "dc3640c3-4bd0-4a6a-8923-b6f82c859797"@
    &&& r.installation_id == 123456
    &&& r.event_name@ == event_type_name(args.name)
    &&& r.action@ == action_name(args.action)
    &&& r.repository.full_name@ == args.owner@ + "/"@ + args.repo@
    &&& r.repository.name@ == args.repo@
    &&& r.repository.private
    &&& r.repository.owner.login@ == args.owner@
    &&& pair_views(r.repository.custom_properties@) == pair_views(args.custom_props@)
    &&& r.head_sha@ == "a8619f1cf1f6ade02df413b18265f74d3bc9caca"@
    &&& r.base_sha is None
    &&& r.base_ref is None
    &&& r.before is None
    &&& r.after matches Some(a) && a@ == "a8619f1cf1f6ade02df413b18265f74d3bc9caca"@
    &&& r.pull_request_number == (if args.name == EventType::PullRequest {
        Some(5u64)
    } else {
        None
    })
    &&& r.pull_request_head_ref matches Some(h) && h@ == "feature"@
    &&& r.sender.login@ == args.sender@
}

/// An example request to try a pattern on.
pub fn example_check_request(args: &TestArgs) -> (r: CheckRequest)
    ensures
        is_example(r, *args),
{
    let pr_number = match args.name {
        EventType::PullRequest => Some(5u64),
        _ => None,
    };
    let mut full_name = args.owner.clone();
    full_name.append("/");
    full_name.append(args.repo.as_str());
    let repository = GithubRepository {
        full_name,
        name: args.repo.clone(),
        private: true,
        owner: User { login: args.owner.clone() },
        custom_properties: copy_pairs(&args.custom_props),
    };
    CheckRequest {
        request_id: "45771944-d356-4540-a0b7-b6dff7637f8d".to_owned(),
        delivery_id: "dc3640c3-4bd0-4a6a-8923-b6f82c859797".to_owned(),
        installation_id: 123456,
        event_name: args.name.name(),
        action: args.action.name(),
        repository,
        head_sha: "a8619f1cf1f6ade02df413b18265f74d3bc9caca".to_owned(),
        base_sha: None,
        base_ref: None,
        before: None,
        after: Some("a8619f1cf1f6ade02df413b18265f74d3bc9caca".to_owned()),
        pull_request_number: pr_number,
        pull_request_head_ref: Some("feature".to_owned()),
        sender: User { login: args.sender.clone() },
    }
}

/// A copy of key/value pairs.
pub fn copy_pairs(v: &Vec<(String, String)>) -> (r: Vec<(String, String)>)
    ensures
        r@ == v@,
{
    let mut r: Vec<(String, String)> = Vec::new();
    let n = v.len();
    let mut i: usize = 0;
    while i < n
        invariant
            n == v@.len(),
            i <= n,
            r@ =~= v@.take(i as int),
        decreases n - i,
    {
        r.push((v[i].0.clone(), v[i].1.clone()));
        assert(v@.take(i + 1) =~= v@.take(i as int).push(v@[i as int]));
        i = i + 1;
    }
    assert(v@.take(n as int) =~= v@);
    r
}

} // verus!
