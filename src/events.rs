//! The normalized dispatch request and the repository it names.
use vstd::prelude::*;

use crate::text::str_eq;

verus! {

/// A user or organization.
#[derive(Debug, Clone, Default)]
pub struct User {
    /// Name of the user or organization e.g. "octocat".
    pub login: String,
}

impl User {
    /// A copy of the user.
    pub fn duplicate(&self) -> (r: User)
        ensures
            r.login@ == self.login@,
    {
        User { login: self.login.clone() }
    }
}

/// The repository an event happened in.
#[derive(Debug, Clone, Default)]
pub struct GithubRepository {
    /// Full name of the repository, e.g. "octocat/hello-world".
    pub full_name: String,
    /// Name of the repository, e.g. "hello-world".
    pub name: String,
    pub private: bool,
    pub owner: User,
    /// Custom properties of the repository, as key and value, in a fixed order.
    pub custom_properties: Vec<(String, String)>,
}

/// The character views of key/value pairs.
pub open spec fn pair_views(v: Seq<(String, String)>) -> Seq<(Seq<char>, Seq<char>)> {
    v.map_values(|p: (String, String)| (p.0@, p.1@))
}

/// Whether no two custom properties share a key.
pub open spec fn keys_unique(props: Seq<(String, String)>) -> bool {
    forall|i: int, j: int| 0 <= i < j < props.len() ==> props[i].0@ != props[j].0@
}

/// Whether no two custom properties share a key.
pub fn has_unique_keys(props: &Vec<(String, String)>) -> (r: bool)
    ensures
        r == keys_unique(props@),
{
    let n = props.len();
    let mut i: usize = 0;
    while i < n
        invariant
            n == props@.len(),
            i <= n,
            forall|a: int, b: int| 0 <= a < i && a < b < n ==> props@[a].0@ != props@[b].0@,
        decreases n - i,
    {
        let mut j: usize = i + 1;
        while j < n
            invariant
                n == props@.len(),
                i < n,
                i + 1 <= j <= n,
                forall|a: int, b: int| 0 <= a < i && a < b < n ==> props@[a].0@ != props@[b].0@,
                forall|b: int| i < b < j ==> props@[i as int].0@ != props@[b].0@,
            decreases n - j,
        {
            if str_eq(props[i].0.as_str(), props[j].0.as_str()) {
                return false;
            }
            j = j + 1;
        }
        i = i + 1;
    }
    true
}

impl GithubRepository {
    /// Whether `other` holds the same values.
    pub open spec fn same(&self, other: &GithubRepository) -> bool {
        &&& self.full_name@ == other.full_name@
        &&& self.name@ == other.name@
        &&& self.private == other.private
        &&& self.owner.login@ == other.owner.login@
        &&& pair_views(self.custom_properties@) == pair_views(other.custom_properties@)
    }

    /// A copy of the repository.
    pub fn duplicate(&self) -> (r: GithubRepository)
        ensures
            r.same(self),
    {
        let mut props: Vec<(String, String)> = Vec::new();
        let n = self.custom_properties.len();
        let mut i: usize = 0;
        while i < n
            invariant
                n == self.custom_properties@.len(),
                i <= n,
                props@.len() == i,
                pair_views(props@) =~= pair_views(self.custom_properties@.take(i as int)),
            decreases n - i,
        {
            let k = self.custom_properties[i].0.clone();
            let v = self.custom_properties[i].1.clone();
            let ghost prev = props@;
            props.push((k, v));
            assert(pair_views(props@) =~= pair_views(self.custom_properties@.take(i + 1))) by {
                assert(props@ =~= prev.push(props@.last()));
                assert forall|j: int| 0 <= j < props@.len() implies pair_views(props@)[j]
                    == pair_views(self.custom_properties@.take(i + 1))[j] by {
                    if j == i {
                        assert(props@[j].0 == self.custom_properties@[j].0);
                        assert(props@[j].1 == self.custom_properties@[j].1);
                    } else {
                        assert(pair_views(prev)[j] == pair_views(
                            self.custom_properties@.take(i as int),
                        )[j]);
                    }
                }
            }
            i = i + 1;
        }
        assert(self.custom_properties@.take(n as int) =~= self.custom_properties@);
        GithubRepository {
            full_name: self.full_name.clone(),
            name: self.name.clone(),
            private: self.private,
            owner: self.owner.duplicate(),
            custom_properties: props,
        }
    }
}

/// One delivery of a repository event, normalized for the runners.
#[derive(Debug, Clone, Default)]
pub struct CheckRequest {
    /// Unique for each delivery, re-deliveries included.
    pub request_id: String,
    /// The same for a delivery and its re-deliveries.
    pub delivery_id: String,
    /// Installation of the application the event came through.
    pub installation_id: i64,
    /// Name of the event.
    pub event_name: String,
    /// Action of the event.
    pub action: String,
    pub repository: GithubRepository,
    /// SHA of the head commit.
    pub head_sha: String,
    /// SHA of the base commit.
    pub base_sha: Option<String>,
    /// Reference of the base commit.
    pub base_ref: Option<String>,
    /// Head SHA before the push or synchronization.
    pub before: Option<String>,
    /// Head SHA after the push or synchronization.
    pub after: Option<String>,
    /// Number of the pull request the event belongs to, the first one if several.
    pub pull_request_number: Option<u64>,
    /// Head reference of that pull request.
    pub pull_request_head_ref: Option<String>,
    /// User who triggered the event.
    pub sender: User,
}

impl CheckRequest {
    /// Whether `other` holds the same values.
    pub open spec fn same(&self, other: &CheckRequest) -> bool {
        &&& self.request_id@ == other.request_id@
        &&& self.delivery_id@ == other.delivery_id@
        &&& self.installation_id == other.installation_id
        &&& self.event_name@ == other.event_name@
        &&& self.action@ == other.action@
        &&& self.repository.same(&other.repository)
        &&& self.head_sha@ == other.head_sha@
        &&& same_opt(self.base_sha, other.base_sha)
        &&& same_opt(self.base_ref, other.base_ref)
        &&& same_opt(self.before, other.before)
        &&& same_opt(self.after, other.after)
        &&& self.pull_request_number == other.pull_request_number
        &&& same_opt(self.pull_request_head_ref, other.pull_request_head_ref)
        &&& self.sender.login@ == other.sender.login@
    }

    /// A copy of the request.
    pub fn duplicate(&self) -> (r: CheckRequest)
        ensures
            r.same(self),
    {
        CheckRequest {
            request_id: self.request_id.clone(),
            delivery_id: self.delivery_id.clone(),
            installation_id: self.installation_id,
            event_name: self.event_name.clone(),
            action: self.action.clone(),
            repository: self.repository.duplicate(),
            head_sha: self.head_sha.clone(),
            base_sha: duplicate_opt(&self.base_sha),
            base_ref: duplicate_opt(&self.base_ref),
            before: duplicate_opt(&self.before),
            after: duplicate_opt(&self.after),
            pull_request_number: self.pull_request_number,
            pull_request_head_ref: duplicate_opt(&self.pull_request_head_ref),
            sender: self.sender.duplicate(),
        }
    }
}

/// The characters of an optional string, empty when absent.
pub open spec fn opt_view(o: Option<String>) -> Seq<char> {
    match o {
        Some(s) => s@,
        None => Seq::empty(),
    }
}

/// Whether two optional strings hold the same characters.
pub open spec fn same_opt(a: Option<String>, b: Option<String>) -> bool {
    match (a, b) {
        (Some(x), Some(y)) => x@ == y@,
        (None, None) => true,
        _ => false,
    }
}

/// An optional string with the given characters, or none.
pub open spec fn opt_is(a: Option<String>, b: Option<Seq<char>>) -> bool {
    match (a, b) {
        (Some(x), Some(y)) => x@ == y,
        (None, None) => true,
        _ => false,
    }
}

/// A copy of an optional string.
pub fn duplicate_opt(o: &Option<String>) -> (r: Option<String>)
    ensures
        same_opt(r, *o),
{
    match o {
        Some(s) => Some(s.clone()),
        None => None,
    }
}

/// The string held, or an empty one.
pub fn text_or_empty(o: &Option<String>) -> (r: String)
    ensures
        r@ == opt_view(*o),
{
    match o {
        Some(s) => s.clone(),
        None => String::new(),
    }
}

} // verus!
