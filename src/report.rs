//! The check run payloads: the one that opens a run and the five that
//! complete it, with correlation ids, truncated output and masked secrets.
use vstd::prelude::*;
use vstd::string::*;

use crate::duration::{duration_text, JobDuration};
use crate::events::CheckRequest;
use crate::job_env::{env_text, job_env_text, Entry};
use crate::text::{join, join_strings, views};
use crate::MAX_TEXT_LENGTH;

verus! {

/// How a completed check run ended.
#[derive(Debug, Clone, Copy, PartialEq, Eq, Structural)]
pub enum Conclusion {
    Success,
    Failure,
    TimedOut,
}

/// The text shown on a check run.
#[derive(Debug, Clone)]
pub struct CheckRunOutput {
    pub title: String,
    pub summary: String,
    pub text: String,
}

/// A check run to open, in progress.
#[derive(Debug, Clone)]
pub struct CreateRequest {
    pub name: String,
    pub head_sha: String,
    pub output: CheckRunOutput,
}

/// The completion of a check run.
#[derive(Debug, Clone)]
pub struct UpdateRequest {
    pub name: String,
    pub conclusion: Conclusion,
    pub output: CheckRunOutput,
}

/// What a finished command left behind.
#[derive(Debug, Clone)]
pub struct CommandOutput {
    /// Whether it exited with status zero.
    pub success: bool,
    /// Its exit status in words, such as `exit status: 1`.
    pub status: String,
    pub stdout: Vec<u8>,
    pub stderr: Vec<u8>,
}

/// What is known when a check run is opened.
#[derive(Debug, Clone)]
pub struct CreateInput {
    pub req: CheckRequest,
    pub name: String,
    pub command: Vec<String>,
}

/// What is known once a check run is open.
#[derive(Debug, Clone)]
pub struct UpdateInputBase {
    pub check_run_id: i64,
    pub req: CheckRequest,
    pub name: String,
    /// Whether output is shown in code blocks.
    pub wrap_stdout: bool,
    /// The job's environment, once it is built.
    pub job_env: Option<Vec<Entry>>,
}

/// A text followed by the delivery and request ids.
pub open spec fn debug_info(original: Seq<char>, delivery_id: Seq<char>, request_id: Seq<char>) -> Seq<
    char,
> {
    original + "\n\nDelivery ID (not unique for re-delivery): `"@ + delivery_id
        + "`\nRequest ID (unique for re-delivery): `"@ + request_id + "`"@
}

/// A command as one line: program and arguments separated by spaces.
pub open spec fn command_line(command: Seq<String>) -> Seq<char> {
    join(views(command), " "@)
}

/// A text cut to `MAX_TEXT_LENGTH` characters, with `...` appended, where it is longer.
pub open spec fn truncated(s: Seq<char>) -> Seq<char> {
    if s.len() > MAX_TEXT_LENGTH {
        s.subrange(0, MAX_TEXT_LENGTH as int) + "..."@
    } else {
        s
    }
}

/// Bytes read as UTF-8, each invalid sequence replaced by U+FFFD.
pub uninterp spec fn lossy_of(b: Seq<u8>) -> Seq<char>;

/// Relies on `String::from_utf8_lossy`: the text depends on the bytes alone.
#[verifier::external_body]
pub(crate) fn decode_lossy(v: &[u8]) -> (r: String)
    ensures
        r@ == lossy_of(v@),
{
    String::from_utf8_lossy(v).into_owned()
}

/// Cuts a text to `MAX_TEXT_LENGTH` characters and marks the cut.
pub fn truncate_text(s: &str) -> (r: String)
    ensures
        r@ == truncated(s@),
{
    let n = s.unicode_len();
    if n > MAX_TEXT_LENGTH {
        let mut r = s.substring_char(0, MAX_TEXT_LENGTH).to_owned();
        r.append("...");
        r
    } else {
        s.to_owned()
    }
}

/// Command output as text for a report, cut to `MAX_TEXT_LENGTH` characters.
pub fn cut_text_length(v: &[u8]) -> (r: String)
    ensures
        r@ == truncated(lossy_of(v@)),
{
    let s = decode_lossy(v);
    truncate_text(s.as_str())
}

/// A text that is cut is exactly `MAX_TEXT_LENGTH` characters of it and the
/// three-character marker; a text within the bound is kept whole.
pub proof fn lemma_truncation(s: Seq<char>)
    ensures
        s.len() > MAX_TEXT_LENGTH ==> truncated(s).len() == MAX_TEXT_LENGTH + 3
            && truncated(s).subrange(0, MAX_TEXT_LENGTH as int) == s.subrange(
            0,
            MAX_TEXT_LENGTH as int,
        ) && truncated(s).subrange(MAX_TEXT_LENGTH as int, MAX_TEXT_LENGTH + 3) == "..."@,
        s.len() <= MAX_TEXT_LENGTH ==> truncated(s) == s,
{
    reveal_strlit("...");
    if s.len() > MAX_TEXT_LENGTH {
        let t = truncated(s);
        assert(t.subrange(0, MAX_TEXT_LENGTH as int) =~= s.subrange(0, MAX_TEXT_LENGTH as int));
        assert(t.subrange(MAX_TEXT_LENGTH as int, MAX_TEXT_LENGTH + 3) =~= "..."@);
    }
}

/// Appends the delivery and request ids to a text.
pub fn with_debug_info(original: String, req: &CheckRequest) -> (r: String)
    ensures
        r@ == debug_info(original@, req.delivery_id@, req.request_id@),
{
    let mut s = original;
    s.append("\n\nDelivery ID (not unique for re-delivery): `");
    s.append(req.delivery_id.as_str());
    s.append("`\nRequest ID (unique for re-delivery): `");
    s.append(req.request_id.as_str());
    s.append("`");
    s
}

/// The command as one line.
pub fn fmt_cmd(command: &Vec<String>) -> (r: String)
    ensures
        r@ == command_line(command@),
{
    join_strings(command, " ")
}

/// The summary of a check run that is starting.
pub open spec fn running_summary(command: Seq<String>) -> Seq<char> {
    "Running command:\n```\n"@ + command_line(command) + "\n```"@
}

impl CreateInput {
    /// The request that opens the check run, naming the command to run.
    pub fn to_create_request(&self) -> (r: CreateRequest)
        ensures
            r.name@ == self.name@,
            r.head_sha@ == self.req.head_sha@,
            r.output.title@ == "Runner is running job"@,
            r.output.summary@ == debug_info(
                running_summary(self.command@),
                self.req.delivery_id@,
                self.req.request_id@,
            ),
            r.output.text@ == Seq::<char>::empty(),
    {
        let mut summary = "Running command:\n```\n".to_owned();
        let cmd = fmt_cmd(&self.command);
        summary.append(cmd.as_str());
        summary.append("\n```");
        CreateRequest {
            name: self.name.clone(),
            head_sha: self.req.head_sha.clone(),
            output: CheckRunOutput {
                title: "Runner is running job".to_owned(),
                summary: with_debug_info(summary, &self.req),
                text: String::new(),
            },
        }
    }

    /// What is known once the check run with id `check_run_id` is open.
    pub fn into_update_input(self, check_run_id: i64, wrap_stdout: bool) -> (r: UpdateInputBase)
        ensures
            r.check_run_id == check_run_id,
            r.req == self.req,
            r.name == self.name,
            r.wrap_stdout == wrap_stdout,
            r.job_env is None,
    {
        UpdateInputBase { req: self.req, name: self.name, check_run_id, wrap_stdout, job_env: None }
    }
}

/// The text of a report on a finished command: the environment, where known,
/// then standard output and standard error.
pub open spec fn output_text(
    wrap: bool,
    job_env: Option<Vec<Entry>>,
    stdout: Seq<char>,
    stderr: Seq<char>,
) -> Seq<char> {
    let outs = if wrap {
        "## stdout\n```\n"@ + stdout + "\n```\n## stderr\n```\n"@ + stderr + "\n```"@
    } else {
        "## stdout\n"@ + stdout + "\n## stderr\n"@ + stderr
    };
    match job_env {
        None => outs,
        Some(e) => "## env\n```\n"@ + env_text(e@) + "\n```\n"@ + outs,
    }
}

/// The summary of a checkout that timed out.
pub open spec fn checkout_timeout_summary(req: CheckRequest, d: JobDuration) -> Seq<char> {
    "Runner tried to checkout repository but timed out ("@ + duration_text(
        d.secs as nat,
        d.nanos as nat,
    ) + "): owner="@ + req.repository.owner.login@ + ", repo="@ + req.repository.name@
        + ", sha="@ + req.head_sha@
}

/// The summary of a command that timed out.
pub open spec fn command_timeout_summary(d: JobDuration, command: Seq<String>) -> Seq<char> {
    "Job execution has timed out on the runner ("@ + duration_text(d.secs as nat, d.nanos as nat)
        + "): `"@ + command_line(command) + "`"@
}

/// The summary of a command that failed.
pub open spec fn failure_summary(status: Seq<char>, command: Seq<String>) -> Seq<char> {
    "Command failed with "@ + status + ": `"@ + command_line(command) + "`"@
}

/// The text of a report on an error of the dispatch itself.
pub open spec fn error_text(error: Seq<char>) -> Seq<char> {
    "Error:\n\n```\n"@ + error + "\n```"@
}

/// Whether two optional environments hold the same variables.
pub open spec fn same_env(a: Option<Vec<Entry>>, b: Option<Vec<Entry>>) -> bool {
    match (a, b) {
        (Some(x), Some(y)) => x@ == y@,
        (None, None) => true,
        _ => false,
    }
}

/// A copy of a list of variables.
pub fn copy_entries(v: &Vec<Entry>) -> (r: Vec<Entry>)
    ensures
        r@ == v@,
{
    let mut r: Vec<Entry> = Vec::new();
    let n = v.len();
    let mut i: usize = 0;
    while i < n
        invariant
            n == v@.len(),
            i <= n,
            r@ =~= v@.take(i as int),
        decreases n - i,
    {
        let e = Entry { key: v[i].key.clone(), value: v[i].value.clone(), secret: v[i].secret };
        r.push(e);
        assert(v@.take(i + 1) =~= v@.take(i as int).push(v@[i as int]));
        i = i + 1;
    }
    assert(v@.take(n as int) =~= v@);
    r
}

impl UpdateInputBase {
    /// Whether `other` holds the same values.
    pub open spec fn same(&self, other: &UpdateInputBase) -> bool {
        &&& self.check_run_id == other.check_run_id
        &&& self.req.same(&other.req)
        &&& self.name@ == other.name@
        &&& self.wrap_stdout == other.wrap_stdout
        &&& same_env(self.job_env, other.job_env)
    }

    /// A copy of the input.
    pub fn duplicate(&self) -> (r: UpdateInputBase)
        ensures
            r.same(self),
    {
        let job_env = match &self.job_env {
            Some(e) => Some(copy_entries(e)),
            None => None,
        };
        UpdateInputBase {
            check_run_id: self.check_run_id,
            req: self.req.duplicate(),
            name: self.name.clone(),
            wrap_stdout: self.wrap_stdout,
            job_env,
        }
    }

    /// Whether `r` completes this check run with the given conclusion and texts.
    pub open spec fn completes(
        &self,
        r: UpdateRequest,
        conclusion: Conclusion,
        title: Seq<char>,
        summary: Seq<char>,
        text: Seq<char>,
    ) -> bool {
        &&& r.name@ == self.name@
        &&& r.conclusion == conclusion
        &&& r.output.title@ == title
        &&& r.output.summary@ == debug_info(summary, self.req.delivery_id@, self.req.request_id@)
        &&& r.output.text@ == text
    }

    /// The owner of the repository.
    pub fn owner(&self) -> (r: &str)
        ensures
            r@ == self.req.repository.owner.login@,
    {
        self.req.repository.owner.login.as_str()
    }

    /// The name of the repository.
    pub fn repo(&self) -> (r: &str)
        ensures
            r@ == self.req.repository.name@,
    {
        self.req.repository.name.as_str()
    }

    fn completion(&self, conclusion: Conclusion, title: &str, summary: String, text: String) -> (r:
        UpdateRequest)
        ensures
            self.completes(r, conclusion, title@, summary@, text@),
    {
        UpdateRequest {
            name: self.name.clone(),
            conclusion,
            output: CheckRunOutput {
                title: title.to_owned(),
                summary: with_debug_info(summary, &self.req),
                text,
            },
        }
    }

    /// The report on a checkout that ran out of time.
    pub fn into_checkout_timed_out(self, duration: JobDuration) -> (r: UpdateRequest)
        requires
            duration.wf(),
        ensures
            self.completes(
                r,
                Conclusion::TimedOut,
                "Checkout repository timed out"@,
                checkout_timeout_summary(self.req, duration),
                Seq::empty(),
            ),
    {
        let mut s = "Runner tried to checkout repository but timed out (".to_owned();
        s.append(duration.text().as_str());
        s.append("): owner=");
        s.append(self.req.repository.owner.login.as_str());
        s.append(", repo=");
        s.append(self.req.repository.name.as_str());
        s.append(", sha=");
        s.append(self.req.head_sha.as_str());
        self.completion(Conclusion::TimedOut, "Checkout repository timed out", s, String::new())
    }

    /// The report on a command that ran out of time.
    pub fn into_command_timed_out(self, duration: JobDuration, command: &Vec<String>) -> (r:
        UpdateRequest)
        requires
            duration.wf(),
        ensures
            self.completes(
                r,
                Conclusion::TimedOut,
                "Running job timed out"@,
                command_timeout_summary(duration, command@),
                Seq::empty(),
            ),
    {
        let mut s = "Job execution has timed out on the runner (".to_owned();
        s.append(duration.text().as_str());
        s.append("): `");
        s.append(fmt_cmd(command).as_str());
        s.append("`");
        self.completion(Conclusion::TimedOut, "Running job timed out", s, String::new())
    }

    /// The report on a command that exited with status zero.
    pub fn into_command_succeeded(self, command: &Vec<String>, out: &CommandOutput) -> (r:
        UpdateRequest)
        ensures
            self.completes(
                r,
                Conclusion::Success,
                "Runner executed job successfully"@,
                "Command succeeded: `"@ + command_line(command@) + "`"@,
                output_text(
                    self.wrap_stdout,
                    self.job_env,
                    truncated(lossy_of(out.stdout@)),
                    truncated(lossy_of(out.stderr@)),
                ),
            ),
    {
        let mut s = "Command succeeded: `".to_owned();
        s.append(fmt_cmd(command).as_str());
        s.append("`");
        let text = self.to_text(out);
        self.completion(Conclusion::Success, "Runner executed job successfully", s, text)
    }

    /// The report on a command that exited with another status.
    pub fn into_command_failed(self, command: &Vec<String>, out: &CommandOutput) -> (r:
        UpdateRequest)
        ensures
            self.completes(
                r,
                Conclusion::Failure,
                "Runner ran job but it failed"@,
                failure_summary(out.status@, command@),
                output_text(
                    self.wrap_stdout,
                    self.job_env,
                    truncated(lossy_of(out.stdout@)),
                    truncated(lossy_of(out.stderr@)),
                ),
            ),
    {
        let mut s = "Command failed with ".to_owned();
        s.append(out.status.as_str());
        s.append(": `");
        s.append(fmt_cmd(command).as_str());
        s.append("`");
        let text = self.to_text(out);
        self.completion(Conclusion::Failure, "Runner ran job but it failed", s, text)
    }

    /// The report on an error of the dispatch itself, with the error shown in full.
    pub fn into_event_handle_failed(self, error: &str) -> (r: UpdateRequest)
        ensures
            self.completes(
                r,
                Conclusion::Failure,
                "Runner failed to handle event"@,
                "Event handling failed, contact operation team."@,
                error_text(error@),
            ),
    {
        let mut text = "Error:\n\n```\n".to_owned();
        text.append(error);
        text.append("\n```");
        self.completion(
            Conclusion::Failure,
            "Runner failed to handle event",
            "Event handling failed, contact operation team.".to_owned(),
            text,
        )
    }

    fn to_text(&self, out: &CommandOutput) -> (r: String)
        ensures
            r@ == output_text(
                self.wrap_stdout,
                self.job_env,
                truncated(lossy_of(out.stdout@)),
                truncated(lossy_of(out.stderr@)),
            ),
    {
        let stdout = cut_text_length(out.stdout.as_slice());
        let stderr = cut_text_length(out.stderr.as_slice());
        let mut outs: String;
        if self.wrap_stdout {
            outs = "## stdout\n```\n".to_owned();
            outs.append(stdout.as_str());
            outs.append("\n```\n## stderr\n```\n");
            outs.append(stderr.as_str());
            outs.append("\n```");
        } else {
            outs = "## stdout\n".to_owned();
            outs.append(stdout.as_str());
            outs.append("\n## stderr\n");
            outs.append(stderr.as_str());
        }
        match &self.job_env {
            None => outs,
            Some(e) => {
                let mut t = "## env\n```\n".to_owned();
                t.append(job_env_text(e).as_str());
                t.append("\n```\n");
                t.append(outs.as_str());
                t
            },
        }
    }
}

} // verus!
