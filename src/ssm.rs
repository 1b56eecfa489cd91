//! Environment values that name a parameter in the parameter store: which
//! variables they are, and their values once the parameters are fetched.
use vstd::prelude::*;
use vstd::string::*;

use crate::events::pair_views;
use crate::text::str_eq;

verus! {

/// The prefix of a value that names a parameter.
pub const SSM_PREFIX: &'static str = "ssm://";

/// Whether `s` begins with `prefix`.
pub fn starts_with(s: &str, prefix: &str) -> (r: bool)
    ensures
        r == (prefix@.len() <= s@.len() && s@.take(prefix@.len() as int) == prefix@),
{
    let n = prefix.unicode_len();
    if n > s.unicode_len() {
        return false;
    }
    let head = s.substring_char(0, n);
    let r = str_eq(head, prefix);
    assert(head@ =~= s@.take(n as int));
    r
}

/// The variables whose value names a parameter, each with the parameter's name.
pub open spec fn references(vars: Seq<(Seq<char>, Seq<char>)>) -> Seq<(Seq<char>, Seq<char>)>
    decreases vars.len(),
{
    if vars.len() == 0 {
        Seq::empty()
    } else {
        let rest = references(vars.drop_last());
        let (k, v) = vars.last();
        if SSM_PREFIX@.len() <= v.len() && v.take(SSM_PREFIX@.len() as int) == SSM_PREFIX@ {
            rest.push((k, v.skip(SSM_PREFIX@.len() as int)))
        } else {
            rest
        }
    }
}

/// Picks the variables whose value names a parameter, in order, with the
/// parameter's name.
pub fn ssm_references(vars: &Vec<(String, String)>) -> (r: Vec<(String, String)>)
    ensures
        pair_views(r@) == references(pair_views(vars@)),
{
    let mut r: Vec<(String, String)> = Vec::new();
    let n = vars.len();
    let p = SSM_PREFIX.unicode_len();
    let mut i: usize = 0;
    while i < n
        invariant
            n == vars@.len(),
            i <= n,
            p == SSM_PREFIX@.len(),
            pair_views(r@) =~= references(pair_views(vars@.take(i as int))),
        decreases n - i,
    {
        let ghost prev = r@;
        assert(pair_views(vars@.take(i + 1)).drop_last() =~= pair_views(vars@.take(i as int)));
        let value = vars[i].1.as_str();
        if starts_with(value, SSM_PREFIX) {
            let name = value.substring_char(p, value.unicode_len()).to_owned();
            r.push((vars[i].0.clone(), name));
            assert(name@ =~= vars@[i as int].1@.skip(p as int));
            assert(pair_views(r@) =~= pair_views(prev).push((vars@[i as int].0@, name@)));
        }
        i = i + 1;
    }
    assert(vars@.take(n as int) =~= vars@);
    r
}

/// The value fetched for the parameter `name`: the first with that name.
pub open spec fn lookup(fetched: Seq<(Seq<char>, Seq<char>)>, name: Seq<char>) -> Option<Seq<char>>
    decreases fetched.len(),
{
    if fetched.len() == 0 {
        None
    } else if fetched[0].0 == name {
        Some(fetched[0].1)
    } else {
        lookup(fetched.drop_first(), name)
    }
}

fn find_value(fetched: &Vec<(String, String)>, name: &str) -> (r: Option<String>)
    ensures
        match (r, lookup(pair_views(fetched@), name@)) {
            (Some(x), Some(y)) => x@ == y,
            (None, None) => true,
            _ => false,
        },
{
    let n = fetched.len();
    let mut i: usize = 0;
    assert(pair_views(fetched@).skip(0) =~= pair_views(fetched@));
    while i < n
        invariant
            n == fetched@.len(),
            i <= n,
            lookup(pair_views(fetched@), name@) == lookup(pair_views(fetched@).skip(i as int), name@),
        decreases n - i,
    {
        let ghost rest = pair_views(fetched@).skip(i as int);
        assert(rest.drop_first() =~= pair_views(fetched@).skip(i + 1));
        if str_eq(fetched[i].0.as_str(), name) {
            return Some(fetched[i].1.clone());
        }
        i = i + 1;
    }
    assert(pair_views(fetched@).skip(n as int) =~= Seq::<(Seq<char>, Seq<char>)>::empty());
    None
}

/// Each referring variable with its parameter's value; an error naming the
/// first parameter that was not fetched.
pub fn resolve_references(refs: &Vec<(String, String)>, fetched: &Vec<(String, String)>) -> (r: Result<
    Vec<(String, String)>,
    String,
>)
    ensures
        r is Ok <==> forall|i: int|
            0 <= i < refs@.len() ==> lookup(pair_views(fetched@), #[trigger] refs@[i].1@) is Some,
        r matches Ok(v) ==> v@.len() == refs@.len() && forall|i: int|
            0 <= i < refs@.len() ==> (#[trigger] v@[i]).0@ == refs@[i].0@ && lookup(
                pair_views(fetched@),
                refs@[i].1@,
            ) == Some(v@[i].1@),
        r matches Err(m) ==> exists|i: int|
            0 <= i < refs@.len() && lookup(pair_views(fetched@), #[trigger] refs@[i].1@) is None
                && m@ == "no value fetched for "@ + refs@[i].1@,
{
    let mut out: Vec<(String, String)> = Vec::new();
    let n = refs.len();
    let mut i: usize = 0;
    while i < n
        invariant
            n == refs@.len(),
            i <= n,
            out@.len() == i,
            forall|j: int|
                0 <= j < i ==> (#[trigger] out@[j]).0@ == refs@[j].0@ && lookup(
                    pair_views(fetched@),
                    refs@[j].1@,
                ) == Some(out@[j].1@),
        decreases n - i,
    {
        match find_value(fetched, refs[i].1.as_str()) {
            Some(v) => out.push((refs[i].0.clone(), v)),
            None => {
                let mut m = "no value fetched for ".to_owned();
                m.append(refs[i].1.as_str());
                return Err(m);
            },
        }
        i = i + 1;
    }
    assert forall|k: int| 0 <= k < n implies lookup(
        pair_views(fetched@),
        #[trigger] refs@[k].1@,
    ) is Some by {
        assert(out@[k].0@ == refs@[k].0@);
    }
    Ok(out)
}

} // verus!
