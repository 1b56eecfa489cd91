//! The checkout of one commit: what it needs, how it fails, and the order of
//! the repository operations that the worker performs.
use vstd::prelude::*;
use vstd::string::*;

use crate::duration::{duration_text, JobDuration};
use crate::text::{push_char, push_decimal, signed_decimal};

verus! {

/// How a repository is fetched.
#[derive(Debug, Clone)]
pub struct CheckoutConfig {
    /// Depth of the fetch; 0 fetches the whole history.
    pub fetch_depth: i32,
    /// Set up the repository and its remote only: no fetch, no checkout.
    pub no_fetch: bool,
    /// Time allowed for the fetch.
    pub fetch_timeout: JobDuration,
}

/// Which commit of which repository to check out, and with what token.
#[derive(Debug, Clone)]
pub struct CheckoutInput {
    pub owner: String,
    pub repo: String,
    pub sha: String,
    /// Short-lived; never logged or stored.
    pub token: String,
}

/// Why a checkout did not complete.
#[derive(Debug, Clone)]
pub enum CheckoutError {
    /// The fetch ran out of its time budget.
    Timeout(JobDuration),
    /// Any other failure, in words.
    Failed(String),
}

/// The message of a checkout error.
pub open spec fn checkout_error_message(e: CheckoutError) -> Seq<char> {
    match e {
        CheckoutError::Timeout(d) => "timeout fetching repository took too long: "@ + duration_text(
            d.secs as nat,
            d.nanos as nat,
        ),
        CheckoutError::Failed(m) => m@,
    }
}

impl CheckoutError {
    pub open spec fn wf(&self) -> bool {
        match self {
            CheckoutError::Timeout(d) => d.wf(),
            CheckoutError::Failed(_) => true,
        }
    }

    /// The error in words.
    pub fn message(&self) -> (r: String)
        requires
            self.wf(),
        ensures
            r@ == checkout_error_message(*self),
    {
        match self {
            CheckoutError::Timeout(d) => {
                let mut s = "timeout fetching repository took too long: ".to_owned();
                s.append(d.text().as_str());
                s
            },
            CheckoutError::Failed(m) => m.clone(),
        }
    }
}

impl CheckoutInput {
    /// `owner/repo`.
    pub fn full_name(&self) -> (r: String)
        ensures
            r@ == self.owner@ + "/"@ + self.repo@,
    {
        let mut s = self.owner.clone();
        s.append("/");
        s.append(self.repo.as_str());
        s
    }
}


/// The remote a checkout fetches from.
pub const REMOTE_NAME: &'static str = "origin";

/// The URL of the repository, with the token as credential.
pub open spec fn remote_url(input: CheckoutInput) -> Seq<char> {
    "https://x-access-token:"@ + input.token@ + "@github.com/"@ + input.owner@ + "/"@
        + input.repo@
}

impl CheckoutInput {
    /// The URL of the repository, with the token as credential.
    pub fn remote_url(&self) -> (r: String)
        ensures
            r@ == remote_url(*self),
    {
        let mut s = "https://x-access-token:".to_owned();
        s.append(self.token.as_str());
        s.append("@github.com/");
        s.append(self.full_name().as_str());
        s
    }
}

/// One repository operation for the worker to perform.
#[derive(Debug)]
pub enum GitStep {
    /// Create, or open, the repository in the destination directory.
    InitRepository,
    /// Add the remote `name` with `url`.
    AddRemote { name: String, url: String },
    /// Fetch `refspec` from the remote, `depth` commits deep (0: all history).
    Fetch { refspec: String, depth: i32 },
    /// Open the repository again, on a handle of this thread.
    Reopen,
    /// Look up the commit `sha`.
    FindCommit { sha: String },
    /// Check out the tree of that commit.
    CheckoutTree,
    /// Point a detached HEAD at that commit.
    DetachHead,
    /// The checkout is over, with this result.
    Finish(Result<(), CheckoutError>),
}

/// How a repository operation went.
#[derive(Debug)]
pub enum GitOutcome {
    Done,
    /// It failed; `already_exists` tells a configuration entry that exists
    /// already from other failures.
    Failed { message: String, already_exists: bool },
}

/// Where a checkout stands.
#[derive(Debug, Clone, Copy, PartialEq, Eq, Structural)]
pub enum CheckoutStage {
    Initializing,
    AddingRemote,
    Fetching,
    Reopening,
    Finding,
    CheckingOutTree,
    Detaching,
    Finished,
}

/// The operations of one checkout, in order.
pub struct CheckoutPlan {
    pub stage: CheckoutStage,
    pub input: CheckoutInput,
    pub fetch_depth: i32,
    pub no_fetch: bool,
}

/// The message of a failed fetch.
pub open spec fn fetch_failure(depth: i32, message: Seq<char>) -> Seq<char> {
    "failed to fetch repository: depth="@ + signed_decimal(depth as int) + ": "@ + message
}

/// Whether a failed operation ends the checkout with `Failed` and the message
/// `m`.
pub open spec fn fails_with(a: GitStep, m: Seq<char>) -> bool {
    match a {
        GitStep::Finish(Err(CheckoutError::Failed(s))) => s@ == m,
        _ => false,
    }
}

impl CheckoutPlan {
    /// Starts a checkout: the first operation sets up the repository.
    pub fn start(input: CheckoutInput, config: &CheckoutConfig) -> (r: (CheckoutPlan, GitStep))
        ensures
            r.0.stage == CheckoutStage::Initializing,
            r.0.input == input,
            r.0.fetch_depth == config.fetch_depth,
            r.0.no_fetch == config.no_fetch,
            r.1 is InitRepository,
    {
        (
            CheckoutPlan {
                stage: CheckoutStage::Initializing,
                input,
                fetch_depth: config.fetch_depth,
                no_fetch: config.no_fetch,
            },
            GitStep::InitRepository,
        )
    }

    /// Advances the checkout on the outcome of the last operation and returns
    /// the next. Setting up the repository and its remote comes first; with
    /// `no_fetch` the checkout ends there. Otherwise the one commit is fetched,
    /// then checked out on a detached HEAD. An existing remote is no failure.
    pub fn step(&mut self, outcome: GitOutcome) -> (a: GitStep)
        requires
            old(self).stage != CheckoutStage::Finished,
        ensures
            final(self).input == old(self).input,
            final(self).fetch_depth == old(self).fetch_depth,
            final(self).no_fetch == old(self).no_fetch,
            (a is Finish) == (final(self).stage == CheckoutStage::Finished),
            match (old(self).stage, outcome) {
                (CheckoutStage::Initializing, GitOutcome::Done) => {
                    &&& final(self).stage == CheckoutStage::AddingRemote
                    &&& a matches GitStep::AddRemote { name, url } && name@ == REMOTE_NAME@
                        && url@ == remote_url(old(self).input)
                },
                (CheckoutStage::Initializing, GitOutcome::Failed { message, .. }) => fails_with(
                    a,
                    "failed init repository: "@ + message@,
                ),
                (CheckoutStage::AddingRemote, GitOutcome::Failed { already_exists: false, .. }) => fails_with(
                    a,
                    "failed add remote: remote_name="@ + REMOTE_NAME@,
                ),
                (CheckoutStage::AddingRemote, _) => if old(self).no_fetch {
                    a == GitStep::Finish(Ok(()))
                } else {
                    &&& final(self).stage == CheckoutStage::Fetching
                    &&& a matches GitStep::Fetch { refspec, depth } && refspec@
                        == old(self).input.sha@ && depth == old(self).fetch_depth
                },
                (CheckoutStage::Fetching, GitOutcome::Done) => final(self).stage
                    == CheckoutStage::Reopening && a is Reopen,
                (CheckoutStage::Fetching, GitOutcome::Failed { message, .. }) => fails_with(
                    a,
                    fetch_failure(old(self).fetch_depth, message@),
                ),
                (CheckoutStage::Reopening, GitOutcome::Done) => {
                    &&& final(self).stage == CheckoutStage::Finding
                    &&& a matches GitStep::FindCommit { sha } && sha@ == old(self).input.sha@
                },
                (CheckoutStage::Reopening, GitOutcome::Failed { message, .. }) => fails_with(
                    a,
                    "failed init repository: "@ + message@,
                ),
                (CheckoutStage::Finding, GitOutcome::Done) => final(self).stage
                    == CheckoutStage::CheckingOutTree && a is CheckoutTree,
                (CheckoutStage::Finding, GitOutcome::Failed { message, .. }) => fails_with(
                    a,
                    "failed to find commit, invalid commit SHA?: sha="@ + old(self).input.sha@
                        + ": "@ + message@,
                ),
                (CheckoutStage::CheckingOutTree, GitOutcome::Done) => final(self).stage
                    == CheckoutStage::Detaching && a is DetachHead,
                (CheckoutStage::CheckingOutTree, GitOutcome::Failed { .. }) => fails_with(
                    a,
                    "failed to checkout "@ + old(self).input.owner@ + "/"@ + old(self).input.repo@
                        + ":"@ + old(self).input.sha@,
                ),
                (CheckoutStage::Detaching, GitOutcome::Done) => a == GitStep::Finish(Ok(())),
                (CheckoutStage::Detaching, GitOutcome::Failed { message, .. }) => fails_with(
                    a,
                    message@,
                ),
                (CheckoutStage::Finished, _) => false,
            },
    {
        let stage = self.stage;
        match outcome {
            GitOutcome::Done => match stage {
                CheckoutStage::Initializing => {
                    self.stage = CheckoutStage::AddingRemote;
                    GitStep::AddRemote { name: REMOTE_NAME.to_owned(), url: self.input.remote_url() }
                },
                CheckoutStage::AddingRemote => self.after_remote(),
                CheckoutStage::Fetching => {
                    self.stage = CheckoutStage::Reopening;
                    GitStep::Reopen
                },
                CheckoutStage::Reopening => {
                    self.stage = CheckoutStage::Finding;
                    GitStep::FindCommit { sha: self.input.sha.clone() }
                },
                CheckoutStage::Finding => {
                    self.stage = CheckoutStage::CheckingOutTree;
                    GitStep::CheckoutTree
                },
                CheckoutStage::CheckingOutTree => {
                    self.stage = CheckoutStage::Detaching;
                    GitStep::DetachHead
                },
                _ => {
                    self.stage = CheckoutStage::Finished;
                    GitStep::Finish(Ok(()))
                },
            },
            GitOutcome::Failed { message, already_exists } => {
                if stage == CheckoutStage::AddingRemote && already_exists {
                    return self.after_remote();
                }
                let text = match stage {
                    CheckoutStage::Initializing | CheckoutStage::Reopening => {
                        let mut t = "failed init repository: ".to_owned();
                        t.append(message.as_str());
                        t
                    },
                    CheckoutStage::AddingRemote => {
                        let mut t = "failed add remote: remote_name=".to_owned();
                        t.append(REMOTE_NAME);
                        t
                    },
                    CheckoutStage::Fetching => {
                        let mut t = "failed to fetch repository: depth=".to_owned();
                        if self.fetch_depth < 0 {
                            push_char(&mut t, '-');
                            push_decimal(&mut t, (0i64 - self.fetch_depth as i64) as u64);
                        } else {
                            push_decimal(&mut t, self.fetch_depth as u64);
                        }
                        t.append(": ");
                        t.append(message.as_str());
                        assert(t@ =~= fetch_failure(self.fetch_depth, message@));
                        t
                    },
                    CheckoutStage::Finding => {
                        let mut t = "failed to find commit, invalid commit SHA?: sha=".to_owned();
                        t.append(self.input.sha.as_str());
                        t.append(": ");
                        t.append(message.as_str());
                        t
                    },
                    CheckoutStage::CheckingOutTree => {
                        let mut t = "failed to checkout ".to_owned();
                        t.append(self.input.full_name().as_str());
                        t.append(":");
                        t.append(self.input.sha.as_str());
                        assert(t@ =~= "failed to checkout "@ + self.input.owner@ + "/"@
                            + self.input.repo@ + ":"@ + self.input.sha@);
                        t
                    },
                    _ => message,
                };
                self.stage = CheckoutStage::Finished;
                GitStep::Finish(Err(CheckoutError::Failed(text)))
            },
        }
    }

    fn after_remote(&mut self) -> (a: GitStep)
        ensures
            final(self).input == old(self).input,
            final(self).fetch_depth == old(self).fetch_depth,
            final(self).no_fetch == old(self).no_fetch,
            old(self).no_fetch ==> a == GitStep::Finish(Ok(())) && final(self).stage
                == CheckoutStage::Finished,
            !old(self).no_fetch ==> final(self).stage == CheckoutStage::Fetching,
            !old(self).no_fetch ==> (a matches GitStep::Fetch { refspec, depth } && refspec@
                == old(self).input.sha@ && depth == old(self).fetch_depth),
    {
        if self.no_fetch {
            self.stage = CheckoutStage::Finished;
            GitStep::Finish(Ok(()))
        } else {
            self.stage = CheckoutStage::Fetching;
            GitStep::Fetch { refspec: self.input.sha.clone(), depth: self.fetch_depth }
        }
    }
}

/// Whether a fetch goes on after a progress report: not once cancellation
/// was asked for.
pub fn transfer_continues(cancel_requested: bool) -> (r: bool)
    ensures
        r == !cancel_requested,
{
    !cancel_requested
}

/// What a fetch's progress report says.
#[derive(Debug, Clone, Copy, PartialEq, Eq, Structural)]
pub enum ProgressReport {
    /// Nothing received yet; this many objects to come.
    ObjectsToReceive(u64),
    /// Objects arriving: percentages received and indexed, kilobytes so far.
    Receiving { network_percent: u128, index_percent: u128, kbytes: u64 },
    /// All objects in; this many deltas to resolve.
    DeltasToResolve(u64),
    /// Deltas being resolved: this many of that many.
    ResolvingDeltas { indexed: u64, total: u64 },
}

/// `part` as a whole percentage of `whole`, 0 for an empty whole.
pub open spec fn percent(part: u64, whole: u64) -> int {
    if whole > 0 {
        (100 * part) / whole as int
    } else {
        0
    }
}

fn percent_of(part: u64, whole: u64) -> (r: u128)
    ensures
        r == percent(part, whole),
{
    if whole > 0 {
        (100 * (part as u128)) / (whole as u128)
    } else {
        0
    }
}

/// Summarizes a fetch's progress counters for the log.
pub fn progress_report(
    received_objects: u64,
    total_objects: u64,
    indexed_objects: u64,
    received_bytes: u64,
    indexed_deltas: u64,
    total_deltas: u64,
) -> (r: ProgressReport)
    ensures
        received_objects == 0 ==> r == ProgressReport::ObjectsToReceive(total_objects),
        received_objects != 0 && received_objects != total_objects ==> r == (
        ProgressReport::Receiving {
            network_percent: percent(received_objects, total_objects) as u128,
            index_percent: percent(indexed_objects, total_objects) as u128,
            kbytes: received_bytes / 1024,
        }),
        received_objects != 0 && received_objects == total_objects && indexed_deltas == 0 ==> r
            == ProgressReport::DeltasToResolve(total_deltas),
        received_objects != 0 && received_objects == total_objects && indexed_deltas != 0 ==> r == (
        ProgressReport::ResolvingDeltas { indexed: indexed_deltas, total: total_deltas }),
{
    if received_objects == 0 {
        ProgressReport::ObjectsToReceive(total_objects)
    } else if received_objects != total_objects {
        ProgressReport::Receiving {
            network_percent: percent_of(received_objects, total_objects),
            index_percent: percent_of(indexed_objects, total_objects),
            kbytes: received_bytes / 1024,
        }
    } else if indexed_deltas == 0 {
        ProgressReport::DeltasToResolve(total_deltas)
    } else {
        ProgressReport::ResolvingDeltas { indexed: indexed_deltas, total: total_deltas }
    }
}

} // verus!
