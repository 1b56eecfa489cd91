//! The handling of one dispatch as a state machine. The caller performs each
//! action it is handed (a call to the check run service, a token fetch, a
//! checkout, a command run) and feeds back what came of it. Once a check run
//! exists, the machine does not finish before completing it.
use vstd::prelude::*;
use vstd::string::*;

use crate::checkout::{CheckoutError, CheckoutInput};
use crate::duration::JobDuration;
use crate::events::{keys_unique, CheckRequest};
use crate::job_env::{build_job_env, fixed_entries_are, property_entries_are, Entry};
use crate::report::{
    copy_entries,
    checkout_timeout_summary, command_line, command_timeout_summary, error_text, failure_summary,
    fmt_cmd, output_text, truncated, lossy_of, CommandOutput, Conclusion, CreateInput,
    CreateRequest, UpdateInputBase, UpdateRequest, debug_info, running_summary,
};
use crate::text::str_eq;

verus! {

/// What the runner runs and how.
#[derive(Debug, Clone)]
pub struct Config {
    /// Name of the job in check runs and in the job's environment.
    pub job_name: String,
    /// Program and arguments, run without a shell.
    pub command: Vec<String>,
    /// Show output in code blocks.
    pub wrap_stdout: bool,
    /// Time allowed for the command.
    pub job_timeout: JobDuration,
}

/// The application's identity.
#[derive(Debug, Clone)]
pub struct GithubAppConfig {
    pub app_id: i64,
    /// The installation whose events are handled.
    pub installation_id: i64,
    pub private_key: String,
}

/// A runner: its configuration and the name of the check runs it opens.
#[derive(Debug)]
pub struct Handler {
    pub config: Config,
    pub runner_job_name: String,
    pub github_config: GithubAppConfig,
}

/// Whether the event asks for a manual re-run.
pub open spec fn is_rerun(event_name: Seq<char>, action: Seq<char>) -> bool {
    (event_name == "check_suite"@ || event_name == "check_run"@) && action == "rerequested"@
}

/// The acceptance rule: re-run requests from any installation, other events
/// from the configured installation only.
pub open spec fn admits(event_name: Seq<char>, action: Seq<char>, installation_id: i64, expected: i64) -> bool {
    is_rerun(event_name, action) || installation_id == expected
}

/// Decides whether a dispatch is handled.
pub fn accepts(event_name: &str, action: &str, installation_id: i64, expected: i64) -> (r: bool)
    ensures
        r == admits(event_name@, action@, installation_id, expected),
{
    let rerun = (str_eq(event_name, "check_suite") || str_eq(event_name, "check_run")) && str_eq(
        action,
        "rerequested",
    );
    rerun || installation_id == expected
}

/// A copy of a list of strings.
pub fn copy_strings(v: &Vec<String>) -> (r: Vec<String>)
    ensures
        r@ == v@,
{
    let mut r: Vec<String> = Vec::new();
    let n = v.len();
    let mut i: usize = 0;
    while i < n
        invariant
            n == v@.len(),
            i <= n,
            r@ =~= v@.take(i as int),
        decreases n - i,
    {
        r.push(v[i].clone());
        assert(v@.take(i + 1) =~= v@.take(i as int).push(v@[i as int]));
        i = i + 1;
    }
    assert(v@.take(n as int) =~= v@);
    r
}

impl Handler {
    pub fn new(config: Config, github_config: GithubAppConfig) -> (r: Handler)
        ensures
            r.config == config,
            r.github_config == github_config,
            r.runner_job_name@ == "run-"@ + config.job_name@,
    {
        let mut runner_job_name = "run-".to_owned();
        runner_job_name.append(config.job_name.as_str());
        Handler { config, runner_job_name, github_config }
    }
}

/// An error that ends a dispatch: a fault of the runner, not of the job.
#[derive(Debug, Clone)]
pub enum DispatchError {
    /// The configured command is empty.
    EmptyCommand,
    /// A collaborator failed; the words say how.
    Failed(String),
}

/// The message of a dispatch error.
pub open spec fn error_message(e: DispatchError) -> Seq<char> {
    match e {
        DispatchError::EmptyCommand => "empty COMMAND arg given. See --help."@,
        DispatchError::Failed(m) => m@,
    }
}

impl DispatchError {
    /// A copy of the error.
    pub fn duplicate(&self) -> (r: DispatchError)
        ensures
            r == *self,
    {
        match self {
            DispatchError::EmptyCommand => DispatchError::EmptyCommand,
            DispatchError::Failed(m) => DispatchError::Failed(m.clone()),
        }
    }

    /// The error in words.
    pub fn message(&self) -> (r: String)
        ensures
            r@ == error_message(*self),
    {
        match self {
            DispatchError::EmptyCommand => "empty COMMAND arg given. See --help.".to_owned(),
            DispatchError::Failed(m) => m.clone(),
        }
    }
}

/// How a command run ended.
#[derive(Debug, Clone)]
pub enum ExecutionOutcome {
    /// It ran out of time and was asked to stop.
    CommandTimedOut,
    /// It exited.
    CommandCompleted(CommandOutput),
}

/// A command to run in the checked-out directory, with exactly this environment.
#[derive(Debug, Clone)]
pub struct CommandSpec {
    pub program: String,
    pub args: Vec<String>,
    pub env: Vec<Entry>,
    pub timeout: JobDuration,
}

/// What the caller does next.
#[derive(Debug)]
#[allow(inconsistent_fields)]
pub enum Action {
    /// Open a check run.
    CreateCheckRun { owner: String, repo: String, request: CreateRequest },
    /// Fetch a fresh token.
    FetchToken,
    /// Check out a commit into a new working directory.
    Checkout(CheckoutInput),
    /// Run the command in that directory.
    RunCommand(CommandSpec),
    /// Complete the check run.
    UpdateCheckRun { owner: String, repo: String, check_run_id: i64, request: UpdateRequest },
    /// Return this result to the caller of the dispatch.
    Finish(Result<(), DispatchError>),
}

/// What came of an action.
#[derive(Debug)]
pub enum Event {
    /// The id of the opened check run, or why it could not be opened.
    Created(Result<i64, String>),
    TokenFetched(Result<String, String>),
    CheckedOut(Result<(), CheckoutError>),
    /// How the command ended, or why it could not be run.
    Executed(Result<ExecutionOutcome, String>),
    Updated(Result<(), String>),
}

/// The kinds of outside calls, for the record a dispatch keeps.
#[derive(Debug, Clone, Copy, PartialEq, Eq, Structural)]
pub enum Call {
    Create,
    FetchToken,
    Checkout,
    Run,
    Update,
}

/// Where a dispatch stands.
#[derive(Debug, Clone)]
pub enum Stage {
    /// Waiting for the check run to open.
    Creating,
    /// Waiting for a token.
    FetchingToken,
    /// Waiting for the checkout.
    CheckingOut,
    /// Waiting for the command.
    Running,
    /// Waiting for the completion of the check run; the dispatch then succeeds.
    Reporting,
    /// Waiting for the corrective completion; the dispatch then fails with this error.
    Correcting(DispatchError),
    /// Finished.
    Done,
}

/// The outside call an action makes, if any.
pub open spec fn call_of(a: Action) -> Option<Call> {
    match a {
        Action::CreateCheckRun { .. } => Some(Call::Create),
        Action::FetchToken => Some(Call::FetchToken),
        Action::Checkout(_) => Some(Call::Checkout),
        Action::RunCommand(_) => Some(Call::Run),
        Action::UpdateCheckRun { .. } => Some(Call::Update),
        Action::Finish(_) => None,
    }
}

/// How many times `c` occurs in `h`.
pub open spec fn count(h: Seq<Call>, c: Call) -> nat
    decreases h.len(),
{
    if h.len() == 0 {
        0
    } else {
        count(h.drop_last(), c) + if h.last() == c {
            1nat
        } else {
            0nat
        }
    }
}

use Call::{Create as C, FetchToken as T, Checkout as K, Run as R, Update as U};

/// The calls made up to the point where a check run is being completed.
pub open spec fn completing_shape(h: Seq<Call>) -> bool {
    h =~= seq![C, T, U] || h =~= seq![C, T, K, U] || h =~= seq![C, T, K, R, U]
}

/// One dispatch in progress.
pub struct Dispatch {
    pub stage: Stage,
    pub req: CheckRequest,
    /// Name of the check run.
    pub name: String,
    pub job_name: String,
    pub command: Vec<String>,
    pub job_timeout: JobDuration,
    pub wrap_stdout: bool,
    /// The check run, once open.
    pub update_input: Option<UpdateInputBase>,
    /// The token, once fetched.
    pub token: String,
    /// The outside calls asked for so far, in order.
    pub history: Ghost<Seq<Call>>,
    /// Whether the acceptance rule let the dispatch through.
    pub accepted: Ghost<bool>,
    /// Whether the completion that reports the job's outcome failed, so
    /// that a corrective one followed.
    pub report_failed: Ghost<bool>,
}

/// The request that completes check run `u` after an error.
pub open spec fn corrective(u: UpdateInputBase, r: UpdateRequest, e: DispatchError) -> bool {
    u.completes(
        r,
        Conclusion::Failure,
        "Runner failed to handle event"@,
        "Event handling failed, contact operation team."@,
        error_text(error_message(e)),
    )
}

/// Whether `a` completes the check run of `u` with request `r`.
pub open spec fn updates(a: Action, u: UpdateInputBase) -> bool {
    match a {
        Action::UpdateCheckRun { owner, repo, check_run_id, .. } => owner@
            == u.req.repository.owner.login@ && repo@ == u.req.repository.name@ && check_run_id
            == u.check_run_id,
        _ => false,
    }
}

/// The request an update action carries.
pub open spec fn update_request(a: Action) -> UpdateRequest
    recommends
        a is UpdateCheckRun,
{
    match a {
        Action::UpdateCheckRun { request, .. } => request,
        _ => arbitrary(),
    }
}

/// The error of a dispatch whose corrective report failed too: the original
/// error first, then why the check run could not be completed.
pub open spec fn uncorrected(e: DispatchError, update_failure: Seq<char>) -> Seq<char> {
    error_message(e) + "\n\nthe check run could not be completed either: "@ + update_failure
}

/// The text of a failure to start the command.
pub open spec fn run_failure(command: Seq<String>, cause: Seq<char>) -> Seq<char> {
    "failed to run command: "@ + command_line(command) + ": "@ + cause
}

impl Dispatch {
    /// The invariant: the stage, the open check run and the calls made agree.
    pub open spec fn wf(&self) -> bool {
        &&& self.job_timeout.wf()
        &&& keys_unique(self.req.repository.custom_properties@)
        &&& match self.stage {
            Stage::Creating => self.history@ =~= seq![C] && self.update_input is None
                && !self.report_failed@,
            Stage::FetchingToken => self.history@ =~= seq![C, T] && self.update_input is Some
                && !self.report_failed@,
            Stage::CheckingOut => self.history@ =~= seq![C, T, K] && self.update_input is Some
                && !self.report_failed@,
            Stage::Running => self.history@ =~= seq![C, T, K, R] && self.update_input is Some
                && !self.report_failed@,
            Stage::Reporting => (self.history@ =~= seq![C, T, K, U] || self.history@ =~= seq![
                C,
                T,
                K,
                R,
                U,
            ]) && self.update_input is Some && !self.report_failed@,
            Stage::Correcting(_) => self.update_input is Some && if self.report_failed@ {
                self.history@ =~= seq![C, T, K, U, U] || self.history@ =~= seq![C, T, K, R, U, U]
            } else {
                completing_shape(self.history@)
            },
            Stage::Done => if !self.accepted@ {
                self.history@ =~= Seq::<Call>::empty()
            } else {
                self.history@ =~= seq![C] || (!self.report_failed@ && (self.history@ =~= seq![
                    C,
                    T,
                    K,
                    U,
                ] || completing_shape(self.history@))) || (self.report_failed@ && (
                self.history@ =~= seq![C, T, K, U, U] || self.history@ =~= seq![C, T, K, R, U, U]))
            },
        }
        &&& (self.history@.len() > 0 ==> self.accepted@)
        &&& match self.update_input {
            Some(u) => u.req.same(&self.req) && u.wrap_stdout == self.wrap_stdout && u.name@
                == self.name@,
            None => true,
        }
    }

    /// Whether `ev` answers the action the dispatch is waiting on.
    pub open spec fn expects(&self, ev: Event) -> bool {
        match self.stage {
            Stage::Creating => ev is Created,
            Stage::FetchingToken => ev is TokenFetched,
            Stage::CheckingOut => match ev {
                Event::CheckedOut(r) => match r {
                    Ok(_) => true,
                    Err(e) => e.wf(),
                },
                _ => false,
            },
            Stage::Running => ev is Executed,
            Stage::Reporting => ev is Updated,
            Stage::Correcting(_) => ev is Updated,
            Stage::Done => false,
        }
    }

    /// Whether `ev` answers the action the dispatch is waiting on.
    pub fn is_expected(&self, ev: &Event) -> (r: bool)
        ensures
            r == self.expects(*ev),
    {
        match self.stage {
            Stage::Creating => matches!(ev, Event::Created(_)),
            Stage::FetchingToken => matches!(ev, Event::TokenFetched(_)),
            Stage::CheckingOut => match ev {
                Event::CheckedOut(Ok(_)) => true,
                Event::CheckedOut(Err(CheckoutError::Timeout(d))) => d.nanos < 1_000_000_000,
                Event::CheckedOut(Err(CheckoutError::Failed(_))) => true,
                _ => false,
            },
            Stage::Running => matches!(ev, Event::Executed(_)),
            Stage::Reporting => matches!(ev, Event::Updated(_)),
            Stage::Correcting(_) => matches!(ev, Event::Updated(_)),
            Stage::Done => false,
        }
    }

    /// Whether the dispatch has finished.
    pub fn is_done(&self) -> (r: bool)
        ensures
            r == (self.stage is Done),
    {
        matches!(self.stage, Stage::Done)
    }

    /// Starts a dispatch: a request the acceptance rule rejects finishes at once, with
    /// success and no call; any other opens a check run naming the command.
    pub fn start(handler: &Handler, req: CheckRequest) -> (res: (Dispatch, Action))
        requires
            handler.config.job_timeout.wf(),
            keys_unique(req.repository.custom_properties@),
        ensures
            res.0.wf(),
            res.0.req == req,
            res.0.job_name == handler.config.job_name,
            res.0.name == handler.runner_job_name,
            res.0.command@ == handler.config.command@,
            res.0.job_timeout == handler.config.job_timeout,
            res.0.wrap_stdout == handler.config.wrap_stdout,
            res.0.accepted@ == admits(
                req.event_name@,
                req.action@,
                req.installation_id,
                handler.github_config.installation_id,
            ),
            !res.0.accepted@ ==> res.0.stage is Done && res.0.history@ == Seq::<Call>::empty()
                && res.1 == Action::Finish(Ok(())),
            res.0.accepted@ ==> res.0.stage is Creating && match res.1 {
                Action::CreateCheckRun { owner, repo, request } => {
                    &&& owner@ == req.repository.owner.login@
                    &&& repo@ == req.repository.name@
                    &&& request.name@ == handler.runner_job_name@
                    &&& request.head_sha@ == req.head_sha@
                    &&& request.output.title@ == "Runner is running job"@
                    &&& request.output.summary@ == debug_info(
                        running_summary(handler.config.command@),
                        req.delivery_id@,
                        req.request_id@,
                    )
                },
                _ => false,
            },
    {
        let accepted = accepts(
            req.event_name.as_str(),
            req.action.as_str(),
            req.installation_id,
            handler.github_config.installation_id,
        );
        let command = copy_strings(&handler.config.command);
        if !accepted {
            let d = Dispatch {
                stage: Stage::Done,
                req,
                name: handler.runner_job_name.clone(),
                job_name: handler.config.job_name.clone(),
                command,
                job_timeout: handler.config.job_timeout,
                wrap_stdout: handler.config.wrap_stdout,
                update_input: None,
                token: String::new(),
                history: Ghost(Seq::empty()),
                accepted: Ghost(false),
                report_failed: Ghost(false),
            };
            return (d, Action::Finish(Ok(())));
        }
        let input = CreateInput {
            req: req.duplicate(),
            name: handler.runner_job_name.clone(),
            command: copy_strings(&handler.config.command),
        };
        let request = input.to_create_request();
        let action = Action::CreateCheckRun {
            owner: req.repository.owner.login.clone(),
            repo: req.repository.name.clone(),
            request,
        };
        let ghost opened = seq![C];
        let d = Dispatch {
            stage: Stage::Creating,
            req,
            name: handler.runner_job_name.clone(),
            job_name: handler.config.job_name.clone(),
            command,
            job_timeout: handler.config.job_timeout,
            wrap_stdout: handler.config.wrap_stdout,
            update_input: None,
            token: String::new(),
            history: Ghost(opened),
            accepted: Ghost(true),
            report_failed: Ghost(false),
        };
        (d, action)
    }
}


/// Whether `spec` runs `command` with the environment built from the request,
/// the token and the job name, under the time budget `timeout`.
pub open spec fn runs(
    spec: CommandSpec,
    command: Seq<String>,
    req: CheckRequest,
    token: Seq<char>,
    job_name: Seq<char>,
    timeout: JobDuration,
) -> bool {
    &&& command.len() > 0
    &&& spec.program == command[0]
    &&& spec.args@ == command.drop_first()
    &&& fixed_entries_are(spec.env@, req, token, job_name)
    &&& property_entries_are(spec.env@, req.repository.custom_properties@)
    &&& spec.timeout == timeout
}

/// The command to run for a request: program, arguments, and the job's
/// environment. An empty command is a configuration error.
pub fn build_command(
    command: &Vec<String>,
    req: &CheckRequest,
    token: &str,
    job_name: &str,
    timeout: JobDuration,
) -> (r: Result<CommandSpec, DispatchError>)
    requires
        keys_unique(req.repository.custom_properties@),
    ensures
        command@.len() == 0 <==> r matches Err(DispatchError::EmptyCommand),
        command@.len() > 0 <==> r is Ok,
        r is Ok ==> runs(r->Ok_0, command@, *req, token@, job_name@, timeout),
{
    if command.len() == 0 {
        return Err(DispatchError::EmptyCommand);
    }
    let program = command[0].clone();
    let mut args: Vec<String> = Vec::new();
    let n = command.len();
    let mut i: usize = 1;
    while i < n
        invariant
            n == command@.len(),
            1 <= i <= n,
            args@ =~= command@.subrange(1, i as int),
        decreases n - i,
    {
        args.push(command[i].clone());
        i = i + 1;
    }
    let env = build_job_env(req, token, job_name);
    Ok(CommandSpec { program, args, env, timeout })
}

/// The record of a step: the same dispatch data, and the call of the action,
/// if any, appended to the calls made.
pub open spec fn keeps(d: Dispatch, n: Dispatch, a: Action) -> bool {
    &&& n.req == d.req
    &&& n.name == d.name
    &&& n.job_name == d.job_name
    &&& n.command == d.command
    &&& n.job_timeout == d.job_timeout
    &&& n.wrap_stdout == d.wrap_stdout
    &&& n.accepted == d.accepted
    &&& (d.update_input is Some ==> n.update_input is Some
        && n.update_input->0.check_run_id == d.update_input->0.check_run_id)
    &&& match call_of(a) {
        Some(c) => n.history@ == d.history@.push(c),
        None => n.history@ == d.history@,
    }
}

/// Whether `a` completes the open check run with the corrective report of `e`,
/// and the dispatch then waits to fail with `e`.
pub open spec fn corrects(n: Dispatch, a: Action, e: DispatchError) -> bool {
    &&& n.update_input is Some
    &&& updates(a, n.update_input->0)
    &&& corrective(n.update_input->0, update_request(a), e)
    &&& n.stage == Stage::Correcting(e)
}

/// Whether `a` completes the open check run with the report `summary` and
/// `text` under `conclusion` and `title`, and the dispatch then waits to succeed.
pub open spec fn reports(
    n: Dispatch,
    a: Action,
    conclusion: Conclusion,
    title: Seq<char>,
    summary: Seq<char>,
    text: Seq<char>,
) -> bool {
    &&& n.update_input is Some
    &&& updates(a, n.update_input->0)
    &&& n.update_input->0.completes(update_request(a), conclusion, title, summary, text)
    &&& n.stage is Reporting
}

/// One step of a dispatch in `d` on `ev`, to `n` with action `a`.
pub open spec fn transition(d: Dispatch, ev: Event, n: Dispatch, a: Action) -> bool {
    &&& keeps(d, n, a)
    &&& match d.stage {
        Stage::Creating => match ev {
            Event::Created(Ok(id)) => {
                &&& a is FetchToken
                &&& n.stage is FetchingToken
                &&& n.update_input is Some
                &&& n.update_input->0.check_run_id == id
                &&& n.update_input->0.job_env is None
            },
            Event::Created(Err(m)) => n.stage is Done && a == Action::Finish(
                Err(DispatchError::Failed(m)),
            ),
            _ => false,
        },
        Stage::FetchingToken => match ev {
            Event::TokenFetched(Ok(token)) => {
                &&& n.stage is CheckingOut
                &&& n.token@ == token@
                &&& n.update_input == d.update_input
                &&& a is Checkout
                &&& a->Checkout_0.owner@ == d.req.repository.owner.login@
                &&& a->Checkout_0.repo@ == d.req.repository.name@
                &&& a->Checkout_0.sha@ == d.req.head_sha@
                &&& a->Checkout_0.token@ == token@
            },
            Event::TokenFetched(Err(m)) => corrects(n, a, DispatchError::Failed(m))
                && n.update_input == d.update_input,
            _ => false,
        },
        Stage::CheckingOut => match ev {
            Event::CheckedOut(Ok(())) => if d.command@.len() == 0 {
                corrects(n, a, DispatchError::EmptyCommand)
            } else {
                &&& n.stage is Running
                &&& a is RunCommand
                &&& runs(
                    a->RunCommand_0,
                    d.command@,
                    d.req,
                    d.token@,
                    d.job_name@,
                    d.job_timeout,
                )
                &&& n.update_input is Some
                &&& n.update_input->0.job_env matches Some(e) && e@ == a->RunCommand_0.env@
                &&& n.update_input->0.check_run_id == d.update_input->0.check_run_id
            },
            Event::CheckedOut(Err(CheckoutError::Timeout(duration))) => reports(
                n,
                a,
                Conclusion::TimedOut,
                "Checkout repository timed out"@,
                checkout_timeout_summary(d.req, duration),
                Seq::empty(),
            ),
            Event::CheckedOut(Err(CheckoutError::Failed(m))) => corrects(
                n,
                a,
                DispatchError::Failed(m),
            ),
            _ => false,
        },
        Stage::Running => match ev {
            Event::Executed(Ok(ExecutionOutcome::CommandTimedOut)) => reports(
                n,
                a,
                Conclusion::TimedOut,
                "Running job timed out"@,
                command_timeout_summary(d.job_timeout, d.command@),
                Seq::empty(),
            ),
            Event::Executed(Ok(ExecutionOutcome::CommandCompleted(out))) => {
                let text = output_text(
                    d.wrap_stdout,
                    d.update_input->0.job_env,
                    truncated(lossy_of(out.stdout@)),
                    truncated(lossy_of(out.stderr@)),
                );
                if out.success {
                    reports(
                        n,
                        a,
                        Conclusion::Success,
                        "Runner executed job successfully"@,
                        "Command succeeded: `"@ + command_line(d.command@) + "`"@,
                        text,
                    )
                } else {
                    reports(
                        n,
                        a,
                        Conclusion::Failure,
                        "Runner ran job but it failed"@,
                        failure_summary(out.status@, d.command@),
                        text,
                    )
                }
            },
            Event::Executed(Err(m)) => match n.stage {
                Stage::Correcting(DispatchError::Failed(e)) => e@ == run_failure(d.command@, m@)
                    && corrects(n, a, DispatchError::Failed(e)),
                _ => false,
            },
            _ => false,
        },
        Stage::Reporting => match ev {
            Event::Updated(Ok(())) => n.stage is Done && a == Action::Finish(Ok(()))
                && n.report_failed == d.report_failed,
            Event::Updated(Err(m)) => corrects(n, a, DispatchError::Failed(m))
                && n.report_failed@ && n.update_input == d.update_input,
            _ => false,
        },
        Stage::Correcting(e) => match ev {
            Event::Updated(Ok(())) => n.stage is Done && a == Action::Finish(Err(e))
                && n.report_failed == d.report_failed,
            Event::Updated(Err(m)) => {
                &&& n.stage is Done
                &&& n.report_failed == d.report_failed
                &&& a matches Action::Finish(Err(DispatchError::Failed(f)))
                &&& f@ == uncorrected(e, m@)
            },
            _ => false,
        },
        Stage::Done => false,
    }
}

impl Dispatch {
    fn open_run(&self) -> (u: UpdateInputBase)
        requires
            self.update_input is Some,
        ensures
            u.same(&self.update_input->0),
    {
        match &self.update_input {
            Some(u) => u.duplicate(),
            None => {
                assert(false);
                self.update_input.as_ref().unwrap().duplicate()
            },
        }
    }

    fn update_action(&self, request: UpdateRequest) -> (a: Action)
        requires
            self.update_input is Some,
        ensures
            updates(a, self.update_input->0),
            update_request(a) == request,
    {
        let u = self.open_run();
        Action::UpdateCheckRun {
            owner: u.owner().to_owned(),
            repo: u.repo().to_owned(),
            check_run_id: u.check_run_id,
            request,
        }
    }

    fn correct(&mut self, e: DispatchError) -> (a: Action)
        requires
            old(self).update_input is Some,
        ensures
            corrects(*final(self), a, e),
            final(self).update_input == old(self).update_input,
            final(self).req == old(self).req,
            final(self).name == old(self).name,
            final(self).job_name == old(self).job_name,
            final(self).command == old(self).command,
            final(self).job_timeout == old(self).job_timeout,
            final(self).wrap_stdout == old(self).wrap_stdout,
            final(self).accepted == old(self).accepted,
            final(self).history == old(self).history,
            final(self).report_failed == old(self).report_failed,
            final(self).token == old(self).token,
    {
        let message = e.message();
        let request = self.open_run().into_event_handle_failed(message.as_str());
        let a = self.update_action(request);
        self.stage = Stage::Correcting(e);
        a
    }

    fn record(&mut self, c: Call)
        ensures
            final(self).history@ == old(self).history@.push(c),
            final(self).stage == old(self).stage,
            final(self).update_input == old(self).update_input,
            final(self).req == old(self).req,
            final(self).name == old(self).name,
            final(self).job_name == old(self).job_name,
            final(self).command == old(self).command,
            final(self).job_timeout == old(self).job_timeout,
            final(self).wrap_stdout == old(self).wrap_stdout,
            final(self).accepted == old(self).accepted,
            final(self).report_failed == old(self).report_failed,
            final(self).token == old(self).token,
    {
        let ghost h = self.history@.push(c);
        self.history = Ghost(h);
    }

    fn on_created(&mut self, ev: Event) -> (a: Action)
        requires
            old(self).wf(),
            old(self).expects(ev),
            ev is Created,
        ensures
            final(self).wf(),
            transition(*old(self), ev, *final(self), a),
    {
        match ev {
            Event::Created(Ok(id)) => {
                let input = CreateInput {
                    req: self.req.duplicate(),
                    name: self.name.clone(),
                    command: copy_strings(&self.command),
                };
                self.update_input = Some(input.into_update_input(id, self.wrap_stdout));
                self.stage = Stage::FetchingToken;
                self.record(Call::FetchToken);
                Action::FetchToken
            },
            Event::Created(Err(m)) => {
                self.stage = Stage::Done;
                Action::Finish(Err(DispatchError::Failed(m)))
            },
            _ => {
                assert(false);
                Action::Finish(Ok(()))
            },
        }
    }

    fn on_token(&mut self, ev: Event) -> (a: Action)
        requires
            old(self).wf(),
            old(self).expects(ev),
            ev is TokenFetched,
        ensures
            final(self).wf(),
            transition(*old(self), ev, *final(self), a),
    {
        match ev {
            Event::TokenFetched(Ok(token)) => {
                let ci = CheckoutInput {
                    owner: self.req.repository.owner.login.clone(),
                    repo: self.req.repository.name.clone(),
                    sha: self.req.head_sha.clone(),
                    token: token.clone(),
                };
                self.token = token;
                self.stage = Stage::CheckingOut;
                self.record(Call::Checkout);
                Action::Checkout(ci)
            },
            Event::TokenFetched(Err(m)) => {
                self.record(Call::Update);
                self.correct(DispatchError::Failed(m))
            },
            _ => {
                assert(false);
                Action::Finish(Ok(()))
            },
        }
    }

    fn on_checked_out(&mut self, ev: Event) -> (a: Action)
        requires
            old(self).wf(),
            old(self).expects(ev),
            ev is CheckedOut,
        ensures
            final(self).wf(),
            transition(*old(self), ev, *final(self), a),
    {
        match ev {
            Event::CheckedOut(Ok(())) => {
                match build_command(
                    &self.command,
                    &self.req,
                    self.token.as_str(),
                    self.job_name.as_str(),
                    self.job_timeout,
                ) {
                    Ok(spec) => {
                        let mut u = self.open_run();
                        u.job_env = Some(copy_entries(&spec.env));
                        self.update_input = Some(u);
                        self.stage = Stage::Running;
                        self.record(Call::Run);
                        Action::RunCommand(spec)
                    },
                    Err(e) => {
                        self.record(Call::Update);
                        self.correct(e)
                    },
                }
            },
            Event::CheckedOut(Err(CheckoutError::Timeout(duration))) => {
                let request = self.open_run().into_checkout_timed_out(duration);
                let a = self.update_action(request);
                self.stage = Stage::Reporting;
                self.record(Call::Update);
                a
            },
            Event::CheckedOut(Err(CheckoutError::Failed(m))) => {
                self.record(Call::Update);
                self.correct(DispatchError::Failed(m))
            },
            _ => {
                assert(false);
                Action::Finish(Ok(()))
            },
        }
    }

    fn on_executed(&mut self, ev: Event) -> (a: Action)
        requires
            old(self).wf(),
            old(self).expects(ev),
            ev is Executed,
        ensures
            final(self).wf(),
            transition(*old(self), ev, *final(self), a),
    {
        match ev {
            Event::Executed(Ok(ExecutionOutcome::CommandTimedOut)) => {
                let request = self.open_run().into_command_timed_out(
                    self.job_timeout,
                    &self.command,
                );
                let a = self.update_action(request);
                self.stage = Stage::Reporting;
                self.record(Call::Update);
                a
            },
            Event::Executed(Ok(ExecutionOutcome::CommandCompleted(out))) => {
                let request = if out.success {
                    self.open_run().into_command_succeeded(&self.command, &out)
                } else {
                    self.open_run().into_command_failed(&self.command, &out)
                };
                let a = self.update_action(request);
                self.stage = Stage::Reporting;
                self.record(Call::Update);
                a
            },
            Event::Executed(Err(m)) => {
                let mut e = "failed to run command: ".to_owned();
                e.append(fmt_cmd(&self.command).as_str());
                e.append(": ");
                e.append(m.as_str());
                self.record(Call::Update);
                self.correct(DispatchError::Failed(e))
            },
            _ => {
                assert(false);
                Action::Finish(Ok(()))
            },
        }
    }

    fn on_updated(&mut self, ev: Event) -> (a: Action)
        requires
            old(self).wf(),
            old(self).expects(ev),
            ev is Updated,
        ensures
            final(self).wf(),
            transition(*old(self), ev, *final(self), a),
    {
        match ev {
            Event::Updated(Ok(())) => {
                let result = match &self.stage {
                    Stage::Correcting(e) => Err(e.duplicate()),
                    _ => Ok(()),
                };
                self.stage = Stage::Done;
                Action::Finish(result)
            },
            Event::Updated(Err(m)) => {
                if matches!(self.stage, Stage::Reporting) {
                    self.report_failed = Ghost(true);
                    self.record(Call::Update);
                    self.correct(DispatchError::Failed(m))
                } else {
                    let mut f = match &self.stage {
                        Stage::Correcting(e) => e.message(),
                        _ => String::new(),
                    };
                    f.append("\n\nthe check run could not be completed either: ");
                    f.append(m.as_str());
                    self.stage = Stage::Done;
                    Action::Finish(Err(DispatchError::Failed(f)))
                }
            },
            _ => {
                assert(false);
                Action::Finish(Ok(()))
            },
        }
    }

    /// Advances the dispatch on what came of the last action and returns the
    /// next one.
    pub fn step(&mut self, ev: Event) -> (a: Action)
        requires
            old(self).wf(),
            old(self).expects(ev),
        ensures
            final(self).wf(),
            transition(*old(self), ev, *final(self), a),
    {
        match ev {
            Event::Created(_) => self.on_created(ev),
            Event::TokenFetched(_) => self.on_token(ev),
            Event::CheckedOut(_) => self.on_checked_out(ev),
            Event::Executed(_) => self.on_executed(ev),
            Event::Updated(_) => self.on_updated(ev),
        }
    }
}


/// A finished dispatch that the acceptance rule rejected asked for no call. One it let
/// through asked exactly once to open a check run; once the run was open, it
/// asked to complete it exactly once, or, where that report of the job's
/// outcome failed, once more with the corrective report.
pub proof fn lemma_calls_once(d: Dispatch)
    requires
        d.wf(),
        d.stage is Done,
    ensures
        !d.accepted@ ==> d.history@.len() == 0,
        d.accepted@ ==> count(d.history@, Call::Create) == 1,
        d.accepted@ && d.history@.len() > 1 && !d.report_failed@ ==> count(
            d.history@,
            Call::Update,
        ) == 1,
        d.accepted@ && d.history@.len() > 1 && d.report_failed@ ==> count(
            d.history@,
            Call::Update,
        ) == 2,
{
    reveal_with_fuel(count, 7);
    let h = d.history@;
    if d.accepted@ {
        if h =~= seq![C] {
            assert(h.drop_last() =~= Seq::<Call>::empty());
        } else if h =~= seq![C, T, U] {
            assert(h.drop_last() =~= seq![C, T]);
            assert(h.drop_last().drop_last() =~= seq![C]);
            assert(h.drop_last().drop_last().drop_last() =~= Seq::<Call>::empty());
        } else if h =~= seq![C, T, K, U] {
            assert(h.drop_last() =~= seq![C, T, K]);
            assert(h.drop_last().drop_last() =~= seq![C, T]);
            assert(h.drop_last().drop_last().drop_last() =~= seq![C]);
            assert(h.drop_last().drop_last().drop_last().drop_last() =~= Seq::<Call>::empty());
        } else if h =~= seq![C, T, K, R, U] {
            assert(h.drop_last() =~= seq![C, T, K, R]);
            assert(h.drop_last().drop_last() =~= seq![C, T, K]);
            assert(h.drop_last().drop_last().drop_last() =~= seq![C, T]);
            assert(h.drop_last().drop_last().drop_last().drop_last() =~= seq![C]);
            assert(h.drop_last().drop_last().drop_last().drop_last().drop_last()
                =~= Seq::<Call>::empty());
        } else if h =~= seq![C, T, K, U, U] {
            assert(h.drop_last() =~= seq![C, T, K, U]);
            assert(h.drop_last().drop_last() =~= seq![C, T, K]);
            assert(h.drop_last().drop_last().drop_last() =~= seq![C, T]);
            assert(h.drop_last().drop_last().drop_last().drop_last() =~= seq![C]);
            assert(h.drop_last().drop_last().drop_last().drop_last().drop_last()
                =~= Seq::<Call>::empty());
        } else {
            assert(h =~= seq![C, T, K, R, U, U]);
            assert(h.drop_last() =~= seq![C, T, K, R, U]);
            assert(h.drop_last().drop_last() =~= seq![C, T, K, R]);
            assert(h.drop_last().drop_last().drop_last() =~= seq![C, T, K]);
            assert(h.drop_last().drop_last().drop_last().drop_last() =~= seq![C, T]);
            assert(h.drop_last().drop_last().drop_last().drop_last().drop_last() =~= seq![C]);
            assert(h.drop_last().drop_last().drop_last().drop_last().drop_last().drop_last()
                =~= Seq::<Call>::empty());
        }
    }
}

/// In every state of a dispatch, the opening of the check run is the first
/// call and comes once; the checkout comes before any completion; and after a
/// completion only another completion may follow.
pub proof fn lemma_call_order(d: Dispatch)
    requires
        d.wf(),
    ensures
        forall|i: int| 0 <= i < d.history@.len() ==> (d.history@[i] == Call::Create <==> i == 0),
        forall|i: int, j: int|
            0 <= i < j < d.history@.len() && d.history@[i] == Call::Update ==> d.history@[j]
                == Call::Update,
        forall|i: int, j: int|
            0 <= i < d.history@.len() && 0 <= j < d.history@.len() && d.history@[i]
                == Call::Checkout && d.history@[j] == Call::Update ==> i < j,
{
}


/// A dispatch ends in an error only where its check run could not be opened,
/// or right after the corrective report; a job that fails or runs out of time
/// ends in success once its report is through.
pub proof fn lemma_errors_only_after_correction(d: Dispatch, ev: Event, n: Dispatch, a: Action)
    requires
        d.wf(),
        d.expects(ev),
        transition(d, ev, n, a),
    ensures
        (a matches Action::Finish(Err(_))) ==> d.stage is Creating || d.stage is Correcting,
        d.stage is Reporting && (ev matches Event::Updated(Ok(_))) ==> a == Action::Finish(
            Ok(()),
        ),
{
}

} // verus!
