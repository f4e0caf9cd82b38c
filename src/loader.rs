//! The rules of bulk loading: which identifiers are opened at all, and
//! which proxies come out of a batch in which some plugins fail.

use vstd::prelude::*;
use crate::error::PluginResult;

verus! {

/// `name` is one of `excludes`.
pub open spec fn is_excluded(excludes: Seq<String>, name: Seq<char>) -> bool {
    exists|j: int| 0 <= j < excludes.len() && #[trigger] excludes[j]@ == name
}

/// The identifiers of `names` that are not excluded, in their order.
pub open spec fn candidates(names: Seq<String>, excludes: Seq<String>) -> Seq<Seq<char>>
    decreases names.len(),
{
    if names.len() == 0 {
        Seq::empty()
    } else {
        let rest = candidates(names.drop_last(), excludes);
        if is_excluded(excludes, names.last()@) {
            rest
        } else {
            rest.push(names.last()@)
        }
    }
}

/// The characters of each string of `s`.
pub open spec fn texts(s: Seq<String>) -> Seq<Seq<char>> {
    s.map_values(|x: String| x@)
}

/// The successes of `outcomes`, in their order; the failures are skipped.
pub open spec fn admitted<T>(outcomes: Seq<PluginResult<T>>) -> Seq<T>
    decreases outcomes.len(),
{
    if outcomes.len() == 0 {
        Seq::empty()
    } else {
        let rest = admitted(outcomes.drop_last());
        match outcomes.last() {
            Ok(t) => rest.push(t),
            Err(_) => rest,
        }
    }
}

/// Whether `name` is one of `excludes`.
pub fn excluded(excludes: &Vec<String>, name: &String) -> (r: bool)
    ensures
        r == is_excluded(excludes@, name@),
{
    let mut j: usize = 0;
    while j < excludes.len()
        invariant
            j <= excludes@.len(),
            forall|k: int| 0 <= k < j ==> #[trigger] excludes@[k]@ != name@,
        decreases excludes@.len() - j,
    {
        if excludes[j] == *name {
            return true;
        }
        j = j + 1;
    }
    false
}

/// The identifiers of `plugins` to open, in their order: those not named in
/// `excludes`. An excluded identifier is never opened.
pub fn admission_candidates(plugins: &Vec<String>, excludes: &Vec<String>) -> (r: Vec<String>)
    ensures
        texts(r@) == candidates(plugins@, excludes@),
{
    let mut r: Vec<String> = Vec::new();
    let mut i: usize = 0;
    while i < plugins.len()
        invariant
            i <= plugins@.len(),
            texts(r@) == candidates(plugins@.subrange(0, i as int), excludes@),
        decreases plugins@.len() - i,
    {
        let ghost before = r@;
        proof {
            assert(plugins@.subrange(0, i + 1).drop_last() =~= plugins@.subrange(0, i as int));
        }
        if !excluded(excludes, &plugins[i]) {
            r.push(plugins[i].clone());
            assert(texts(r@) =~= texts(before).push(plugins@[i as int]@));
        }
        i = i + 1;
    }
    assert(plugins@.subrange(0, plugins@.len() as int) =~= plugins@);
    r
}

/// The proxies that a batch admits: the successes among `outcomes`, in
/// their order. A failure drops only its own plugin, never the batch.
pub fn collect_admitted<T>(outcomes: Vec<PluginResult<T>>) -> (r: Vec<T>)
    ensures
        r@ == admitted(outcomes@),
{
    let ghost all = outcomes@;
    let mut rest = outcomes;
    let mut kept: Vec<T> = Vec::new();
    let mut back: Vec<T> = Vec::new();
    while rest.len() > 0
        invariant
            admitted(all) == admitted(rest@) + back@.reverse(),
        decreases rest@.len(),
    {
        let ghost before = rest@;
        let last = rest.pop().unwrap();
        proof {
            assert(before.drop_last() =~= rest@);
        }
        match last {
            Ok(t) => {
                let ghost b = back@;
                back.push(t);
                assert(back@.reverse() =~= seq![t] + b.reverse());
                assert(admitted(before) =~= admitted(rest@).push(t));
                assert(admitted(rest@).push(t) + b.reverse() =~= admitted(rest@) + back@.reverse());
            }
            Err(_) => {}
        }
    }
    assert(admitted(all) =~= back@.reverse());
    while back.len() > 0
        invariant
            admitted(all) == kept@ + back@.reverse(),
        decreases back@.len(),
    {
        let ghost b = back@;
        let t = back.pop().unwrap();
        proof {
            assert(b =~= back@.push(t));
            assert(b.reverse() =~= seq![t] + back@.reverse());
        }
        kept.push(t);
        assert(kept@ + back@.reverse() =~= admitted(all));
    }
    kept
}

} // verus!
