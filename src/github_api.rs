//! What the runner computes around its calls to the GitHub API: the claims
//! of the application's token, the checks on the answers, and requests made
//! up for a run outside any webhook.
use vstd::prelude::*;
use vstd::string::*;

use crate::dispatch::GithubAppConfig;
use crate::events::{CheckRequest, GithubRepository, User};
use crate::text::{signed_decimal, signed_decimal_string};

verus! {

/// Where the GitHub API is.
pub const GITHUB_API_URL: &'static str = "https://api.github.com";

/// How long the application's token is valid, in seconds.
pub const JWT_LIFETIME_SECS: i64 = 600;

/// The claims of the token that authenticates the application.
#[derive(Debug, Clone)]
pub struct Claims {
    /// The application id.
    pub iss: String,
    /// Issued at, in seconds since the epoch.
    pub iat: i64,
    /// Expires at, in seconds since the epoch.
    pub exp: i64,
    pub aud: String,
}

/// The claims for an application at time `now`: valid for ten minutes.
pub fn jwt_claims(app: &GithubAppConfig, now: i64) -> (r: Claims)
    requires
        now <= i64::MAX - JWT_LIFETIME_SECS,
    ensures
        r.iss@ == signed_decimal(app.app_id as int),
        r.iat == now,
        r.exp == now + JWT_LIFETIME_SECS,
        r.aud@ == GITHUB_API_URL@ + "/app/installations/"@ + signed_decimal(
            app.installation_id as int,
        ),
{
    let mut aud = GITHUB_API_URL.to_owned();
    aud.append("/app/installations/");
    aud.append(signed_decimal_string(app.installation_id).as_str());
    Claims { iss: signed_decimal_string(app.app_id), iat: now, exp: now + JWT_LIFETIME_SECS, aud }
}

/// The API path that issues an installation's access token.
pub fn access_token_path(installation_id: i64) -> (r: String)
    ensures
        r@ == "/app/installations/"@ + signed_decimal(installation_id as int) + "/access_tokens"@,
{
    let mut p = "/app/installations/".to_owned();
    p.append(signed_decimal_string(installation_id).as_str());
    p.append("/access_tokens");
    p
}

/// The status with which an access token is issued.
pub const STATUS_CREATED: u16 = 201;

/// Accepts the answer to a token request only with status 201; otherwise the
/// error shows the status and the body.
pub fn check_token_response(status: u16, status_text: &str, body: &str) -> (r: Result<(), String>)
    ensures
        r is Ok <==> status == STATUS_CREATED,
        r matches Err(m) ==> m@ == "failed to fetch installation access token: code="@
            + status_text@ + ", body:\n"@ + body@,
{
    if status == STATUS_CREATED {
        return Ok(());
    }
    let mut m = "failed to fetch installation access token: code=".to_owned();
    m.append(status_text);
    m.append(", body:\n");
    m.append(body);
    Err(m)
}

/// The head commit of a repository from its newest commits, newest first.
pub fn first_commit_sha(shas: &Vec<String>, owner: &str, repo: &str) -> (r: Result<String, String>)
    ensures
        shas@.len() > 0 ==> (r matches Ok(s) && s@ == shas@[0]@),
        shas@.len() == 0 ==> (r matches Err(m) && m@ == "no commits found: owner="@ + owner@
            + ", repo="@ + repo@),
{
    if shas.len() > 0 {
        return Ok(shas[0].clone());
    }
    let mut m = "no commits found: owner=".to_owned();
    m.append(owner);
    m.append(", repo=");
    m.append(repo);
    Err(m)
}

/// The request of a run outside any webhook: a synchronized pull request
/// event on the given commit, from the configured installation.
pub fn oneshot_request(head_sha: String, repository: GithubRepository, installation_id: i64) -> (r:
    CheckRequest)
    ensures
        r.request_id@ == "oneshot"@,
        r.delivery_id@ == "oneshot"@,
        r.installation_id == installation_id,
        r.event_name@ == "pull_request"@,
        r.action@ == "synchronize"@,
        r.repository == repository,
        r.head_sha@ == head_sha@,
        r.base_sha is None,
        r.base_ref is None,
        r.before is None,
        r.after matches Some(a) && a@ == head_sha@,
        r.pull_request_number is None,
        r.pull_request_head_ref is None,
        r.sender.login@ == "octocat"@,
{
    CheckRequest {
        request_id: "oneshot".to_owned(),
        delivery_id: "oneshot".to_owned(),
        installation_id,
        event_name: "pull_request".to_owned(),
        action: "synchronize".to_owned(),
        head_sha: head_sha.clone(),
        base_sha: None,
        base_ref: None,
        before: None,
        after: Some(head_sha),
        pull_request_number: None,
        pull_request_head_ref: None,
        repository,
        sender: User { login: "octocat".to_owned() },
    }
}

/// Randomization of the wait between retries of API calls.
#[derive(Debug, Clone, Copy, PartialEq, Eq, Structural)]
pub enum JitterConfig {
    /// No randomization (`none` on the command line).
    Disabled,
    /// Between zero and the computed wait.
    Full,
    /// Between the least wait and the computed wait.
    Bounded,
}

} // verus!
