//! The environment handed to a job, and its redacted rendering.
use vstd::prelude::*;
use vstd::string::*;
use vstd::utf8::encode_utf8;

use crate::events::{keys_unique, opt_view, text_or_empty, CheckRequest};
use crate::text::{
    decimal, decimal_string, join, join_strings, repeat_char, repeat_string, upper_of, uppercase,
    views,
};

verus! {

/// One variable of a job's environment.
#[derive(Debug, Clone)]
pub struct Entry {
    pub key: String,
    pub value: String,
    /// A secret value never appears in rendered text.
    pub secret: bool,
}

/// The variables of a job, in the order they were added.
pub type JobEnv = Vec<Entry>;

/// Whether `e` holds the given key, value and secrecy.
pub open spec fn entry_is(e: Entry, key: Seq<char>, value: Seq<char>, secret: bool) -> bool {
    e.key@ == key && e.value@ == value && e.secret == secret
}

/// The text of an optional pull request number, empty when absent.
pub open spec fn number_text(n: Option<u64>) -> Seq<char> {
    match n {
        Some(x) => decimal(x as nat),
        None => Seq::empty(),
    }
}

/// The number of fixed variables before the custom properties.
pub const FIXED_ENTRIES: usize = 18;

/// The fixed variables of a job, derived from the request, the token and the job name.
pub open spec fn fixed_entries_are(
    r: Seq<Entry>,
    req: CheckRequest,
    token: Seq<char>,
    job_name: Seq<char>,
) -> bool {
    &&& r.len() >= FIXED_ENTRIES
    &&& entry_is(r[0], "GITHUB_TOKEN"@, token, true)
    &&& entry_is(r[1], "REVIEWDOG_GITHUB_API_TOKEN"@, token, true)
    &&& entry_is(r[2], "REVIEWDOG_SKIP_DOGHOUSE"@, "true"@, false)
    &&& entry_is(r[3], "JOB_NAME"@, job_name, false)
    &&& entry_is(r[4], "CI_COMMIT"@, req.head_sha@, false)
    &&& entry_is(r[5], "CI_REPO_OWNER"@, req.repository.owner.login@, false)
    &&& entry_is(r[6], "CI_REPO_NAME"@, req.repository.name@, false)
    &&& entry_is(r[7], "CI_PULL_REQUEST"@, number_text(req.pull_request_number), false)
    &&& entry_is(r[8], "CI_DELIVERY_ID"@, req.delivery_id@, false)
    &&& entry_is(r[9], "CI_REQUEST_ID"@, req.request_id@, false)
    &&& entry_is(r[10], "CI_EVENT_NAME"@, req.event_name@, false)
    &&& entry_is(r[11], "CI_EVENT_ACTION"@, req.action@, false)
    &&& entry_is(r[12], "CI_HEAD"@, req.head_sha@, false)
    &&& entry_is(r[13], "CI_HEAD_REF"@, opt_view(req.pull_request_head_ref), false)
    &&& entry_is(r[14], "CI_BASE"@, opt_view(req.base_sha), false)
    &&& entry_is(r[15], "CI_BASE_REF"@, opt_view(req.base_ref), false)
    &&& entry_is(r[16], "CI_BEFORE"@, opt_view(req.before), false)
    &&& entry_is(r[17], "CI_AFTER"@, opt_view(req.after), false)
}

/// One variable per custom property, after the fixed ones, named by the
/// upper-cased key.
pub open spec fn property_entries_are(r: Seq<Entry>, props: Seq<(String, String)>) -> bool {
    &&& r.len() == FIXED_ENTRIES + props.len()
    &&& forall|i: int|
        0 <= i < props.len() ==> entry_is(
            #[trigger] r[FIXED_ENTRIES + i],
            "CUSTOM_PROP_"@ + upper_of(props[i].0@),
            props[i].1@,
            false,
        )
}

fn env(key: &str, value: String, secret: bool) -> (e: Entry)
    ensures
        entry_is(e, key@, value@, secret),
{
    Entry { key: key.to_owned(), value, secret }
}

/// Builds the environment of a job: the token under its two names, the
/// request's fields, and one variable per custom property.
pub fn build_job_env(req: &CheckRequest, token: &str, job_name: &str) -> (r: JobEnv)
    requires
        keys_unique(req.repository.custom_properties@),
    ensures
        fixed_entries_are(r@, *req, token@, job_name@),
        property_entries_are(r@, req.repository.custom_properties@),
{
    let number = match req.pull_request_number {
        Some(n) => decimal_string(n),
        None => String::new(),
    };
    let mut vars: Vec<Entry> = Vec::new();
    vars.push(env("GITHUB_TOKEN", token.to_owned(), true));
    vars.push(env("REVIEWDOG_GITHUB_API_TOKEN", token.to_owned(), true));
    vars.push(env("REVIEWDOG_SKIP_DOGHOUSE", "true".to_owned(), false));
    vars.push(env("JOB_NAME", job_name.to_owned(), false));
    vars.push(env("CI_COMMIT", req.head_sha.clone(), false));
    vars.push(env("CI_REPO_OWNER", req.repository.owner.login.clone(), false));
    vars.push(env("CI_REPO_NAME", req.repository.name.clone(), false));
    vars.push(env("CI_PULL_REQUEST", number, false));
    vars.push(env("CI_DELIVERY_ID", req.delivery_id.clone(), false));
    vars.push(env("CI_REQUEST_ID", req.request_id.clone(), false));
    vars.push(env("CI_EVENT_NAME", req.event_name.clone(), false));
    vars.push(env("CI_EVENT_ACTION", req.action.clone(), false));
    vars.push(env("CI_HEAD", req.head_sha.clone(), false));
    vars.push(env("CI_HEAD_REF", text_or_empty(&req.pull_request_head_ref), false));
    vars.push(env("CI_BASE", text_or_empty(&req.base_sha), false));
    vars.push(env("CI_BASE_REF", text_or_empty(&req.base_ref), false));
    vars.push(env("CI_BEFORE", text_or_empty(&req.before), false));
    vars.push(env("CI_AFTER", text_or_empty(&req.after), false));
    assert(fixed_entries_are(vars@, *req, token@, job_name@));
    let props = &req.repository.custom_properties;
    let n = props.len();
    let mut i: usize = 0;
    while i < n
        invariant
            n == props@.len(),
            i <= n,
            vars@.len() == FIXED_ENTRIES + i,
            fixed_entries_are(vars@, *req, token@, job_name@),
            forall|j: int|
                0 <= j < i ==> entry_is(
                    #[trigger] vars@[FIXED_ENTRIES + j],
                    "CUSTOM_PROP_"@ + upper_of(props@[j].0@),
                    props@[j].1@,
                    false,
                ),
        decreases n - i,
    {
        let upcased = uppercase(props[i].0.as_str());
        let key = "CUSTOM_PROP_".to_owned().concat(upcased.as_str());
        let e = Entry { key, value: props[i].1.clone(), secret: false };
        vars.push(e);
        i = i + 1;
    }
    vars
}

/// What a rendered variable shows of its value: a run of `*` as long as the
/// value's UTF-8 encoding where it is secret, else the value.
pub open spec fn shown_value(e: Entry) -> Seq<char> {
    if e.secret {
        repeat_char('*', encode_utf8(e.value@).len())
    } else {
        e.value@
    }
}

/// The rendered line of one variable.
pub open spec fn entry_line(e: Entry) -> Seq<char> {
    e.key@ + ": "@ + shown_value(e)
}

/// The rendered environment: one line per variable.
pub open spec fn env_text(env: Seq<Entry>) -> Seq<char> {
    join(env.map_values(|e: Entry| entry_line(e)), "\n"@)
}

fn render_entry(e: &Entry) -> (r: String)
    ensures
        r@ == entry_line(*e),
{
    let mut line = e.key.clone();
    line.append(": ");
    if e.secret {
        let stars = repeat_string('*', e.value.as_str().as_bytes().len());
        line.append(stars.as_str());
    } else {
        line.append(e.value.as_str());
    }
    line
}

/// Renders the environment for a report, secret values masked.
pub fn job_env_text(job_env: &Vec<Entry>) -> (r: String)
    ensures
        r@ == env_text(job_env@),
{
    let mut lines: Vec<String> = Vec::new();
    let n = job_env.len();
    let mut i: usize = 0;
    while i < n
        invariant
            n == job_env@.len(),
            i <= n,
            lines@.len() == i,
            forall|j: int| 0 <= j < i ==> (#[trigger] lines@[j])@ == entry_line(job_env@[j]),
        decreases n - i,
    {
        lines.push(render_entry(&job_env[i]));
        i = i + 1;
    }
    assert(views(lines@) =~= job_env@.map_values(|e: Entry| entry_line(e)));
    join_strings(&lines, "\n")
}

/// A secret variable's line shows asterisks in place of its value, as many
/// as the value has bytes; the value itself is not part of the line.
pub proof fn lemma_secret_masked(e: Entry)
    requires
        e.secret,
    ensures
        entry_line(e) == e.key@ + ": "@ + repeat_char('*', encode_utf8(e.value@).len()),
        forall|i: int| 0 <= i < shown_value(e).len() ==> shown_value(e)[i] == '*',
{
}

} // verus!
