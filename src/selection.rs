//! Which normalized events a runner takes on.
use vstd::prelude::*;

use crate::events::CheckRequest;
use crate::text::str_eq;

verus! {

/// The events a runner handles.
#[derive(Debug, Clone, Copy, PartialEq, Eq, Structural)]
pub enum Selection {
    /// Pull request events, and re-run requests.
    PullRequest,
    /// Check suite events, and re-run requests of single runs.
    CheckSuite,
}

/// Whether a runner with this selection handles the event.
pub open spec fn selects(s: Selection, event_name: Seq<char>, action: Seq<char>) -> bool {
    match s {
        Selection::PullRequest => event_name == "pull_request"@ || (event_name == "check_suite"@
            && action == "rerequested"@) || (event_name == "check_run"@ && action
            == "rerequested"@),
        Selection::CheckSuite => event_name == "check_suite"@ || (event_name == "check_run"@
            && action == "rerequested"@),
    }
}

impl Selection {
    /// Whether the request is one this runner handles.
    pub fn matches(&self, req: &CheckRequest) -> (r: bool)
        ensures
            r == selects(*self, req.event_name@, req.action@),
    {
        let name = req.event_name.as_str();
        let rerequested = str_eq(req.action.as_str(), "rerequested");
        match self {
            Selection::PullRequest => str_eq(name, "pull_request") || (str_eq(name, "check_suite")
                && rerequested) || (str_eq(name, "check_run") && rerequested),
            Selection::CheckSuite => str_eq(name, "check_suite") || (str_eq(name, "check_run")
                && rerequested),
        }
    }

    /// The selection's name, as given on the command line.
    pub fn name(&self) -> (r: String)
        ensures
            *self == Selection::PullRequest ==> r@ == "pull_request"@,
            *self == Selection::CheckSuite ==> r@ == "check_suite"@,
    {
        match self {
            Selection::PullRequest => "pull_request".to_owned(),
            Selection::CheckSuite => "check_suite".to_owned(),
        }
    }
}

} // verus!
