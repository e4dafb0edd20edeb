//! Choices the workflow commands make among branches and files.

use vstd::prelude::*;
use crate::text::{same_text, views};

verus! {

/// Whether `name` is one of `items`.
pub fn listed(items: &Vec<String>, name: &str) -> (r: bool)
    ensures
        r == views(items@).contains(name@),
{
    let mut i: usize = 0;
    while i < items.len()
        invariant
            i <= items@.len(),
            forall|k: int| 0 <= k < i ==> items@[k]@ != name@,
        decreases items.len() - i,
    {
        if same_text(items[i].as_str(), name) {
            assert(views(items@)[i as int] == name@);
            return true;
        }
        i += 1;
    }
    assert forall|k: int| 0 <= k < views(items@).len() implies views(items@)[k] != name@ by {
        assert(views(items@)[k] == items@[k]@);
    }
    false
}

/// The items of `items` other than those equal to `name`, or equal to it when
/// `keep_equal` holds.
fn select(items: &Vec<String>, name: &str, keep_equal: bool) -> (r: Vec<String>)
    ensures
        views(r@) == views(items@).filter(|b: Seq<char>| (b == name@) == keep_equal),
{
    let ghost pred = |b: Seq<char>| (b == name@) == keep_equal;
    let mut out: Vec<String> = Vec::new();
    let mut i: usize = 0;
    while i < items.len()
        invariant
            i <= items@.len(),
            pred == (|b: Seq<char>| (b == name@) == keep_equal),
            views(out@) == views(items@).subrange(0, i as int).filter(pred),
        decreases items.len() - i,
    {
        proof {
            let pre = views(items@).subrange(0, i as int);
            assert(views(items@).subrange(0, i + 1) =~= pre.push(items@[i as int]@));
            pre.lemma_filter_push(items@[i as int]@, pred);
        }
        if same_text(items[i].as_str(), name) == keep_equal {
            let c = items[i].clone();
            assert(views(out@.push(c)) =~= views(out@).push(c@));
            out.push(c);
        }
        i += 1;
    }
    assert(views(items@).subrange(0, i as int) =~= views(items@));
    out
}

/// The branch that merged branches are measured against: `main`, else `master`,
/// else the first branch, else `main`.
pub open spec fn base_branch_of(branches: Seq<Seq<char>>) -> Seq<char> {
    if branches.contains("main"@) {
        "main"@
    } else if branches.contains("master"@) {
        "master"@
    } else if branches.len() > 0 {
        branches[0]
    } else {
        "main"@
    }
}

/// Chooses the base branch among the local `branches`.
pub fn base_branch(branches: &Vec<String>) -> (r: String)
    ensures
        r@ == base_branch_of(views(branches@)),
{
    if listed(branches, "main") {
        String::from_str("main")
    } else if listed(branches, "master") {
        String::from_str("master")
    } else if branches.len() > 0 {
        assert(views(branches@)[0] == branches@[0]@);
        branches[0].clone()
    } else {
        String::from_str("main")
    }
}

/// The merged branches that may be deleted: all but the one checked out.
pub fn deletable(merged: &Vec<String>, current: &str) -> (r: Vec<String>)
    ensures
        views(r@) == views(merged@).filter(|b: Seq<char>| b != current@),
{
    let r = select(merged, current, false);
    proof {
        let f = |b: Seq<char>| (b == current@) == false;
        let g = |b: Seq<char>| b != current@;
        assert(f =~= g);
        assert(views(merged@).filter(f) == views(merged@).filter(g));
    }
    r
}

/// The conflicted files to work on: the one named `target` if it is among them
/// (none if it is not), or all of them.
pub fn files_to_resolve(conflicts: &Vec<String>, target: &Option<String>) -> (r: Vec<String>)
    ensures
        match target {
            Some(t) => views(r@) == views(conflicts@).filter(|f: Seq<char>| f == t@),
            None => views(r@) == views(conflicts@),
        },
{
    match target {
        Some(t) => {
            let r = select(conflicts, t.as_str(), true);
            proof {
                let f = |b: Seq<char>| (b == t@) == true;
                let g = |b: Seq<char>| b == t@;
                assert(f =~= g);
                assert(views(conflicts@).filter(f) == views(conflicts@).filter(g));
            }
            r
        },
        None => {
            let mut out: Vec<String> = Vec::new();
            let mut i: usize = 0;
            while i < conflicts.len()
                invariant
                    i <= conflicts@.len(),
                    views(out@) == views(conflicts@).subrange(0, i as int),
                decreases conflicts.len() - i,
            {
                let c = conflicts[i].clone();
                assert(views(conflicts@)[i as int] == c@);
                assert(views(conflicts@).subrange(0, i + 1) =~= views(conflicts@).subrange(
                    0,
                    i as int,
                ).push(c@));
                assert(views(out@.push(c)) =~= views(out@).push(c@));
                out.push(c);
                i += 1;
            }
            assert(views(conflicts@).subrange(0, i as int) =~= views(conflicts@));
            out
        },
    }
}

/// Branches that rebases usually go onto, in order of preference.
pub open spec fn common_bases() -> Seq<Seq<char>> {
    seq!["main"@, "master"@, "develop"@, "dev"@]
}

/// The branches offered to rebase onto: the common bases that exist, in order of
/// preference, then every other branch except the current one.
pub open spec fn rebase_targets_of(branches: Seq<Seq<char>>, current: Seq<char>) -> Seq<Seq<char>> {
    common_bases().filter(|b: Seq<char>| branches.contains(b)) + branches.filter(
        |b: Seq<char>| !common_bases().contains(b) && b != current,
    )
}

/// Lists the branches offered to rebase onto.
pub fn rebase_targets(branches: &Vec<String>, current: &str) -> (r: Vec<String>)
    ensures
        views(r@) == rebase_targets_of(views(branches@), current@),
{
    let bases: Vec<&str> = vec!["main", "master", "develop", "dev"];
    let ghost cb = common_bases();
    assert(bases@.map_values(|w: &str| w@) =~= cb);
    let ghost p1 = |b: Seq<char>| views(branches@).contains(b);
    let ghost p2 = |b: Seq<char>| !cb.contains(b) && b != current@;
    let mut out: Vec<String> = Vec::new();
    let mut i: usize = 0;
    while i < bases.len()
        invariant
            i <= bases@.len(),
            bases@.map_values(|w: &str| w@) == cb,
            cb == common_bases(),
            p1 == (|b: Seq<char>| views(branches@).contains(b)),
            views(out@) == cb.subrange(0, i as int).filter(p1),
        decreases bases.len() - i,
    {
        proof {
            let pre = cb.subrange(0, i as int);
            assert(cb.subrange(0, i + 1) =~= pre.push(cb[i as int]));
            pre.lemma_filter_push(cb[i as int], p1);
            assert(cb[i as int] == bases@[i as int]@);
        }
        if listed(branches, bases[i]) {
            let b = String::from_str(bases[i]);
            assert(views(out@.push(b)) =~= views(out@).push(b@));
            out.push(b);
        }
        i += 1;
    }
    assert(cb.subrange(0, i as int) =~= cb);
    let ghost first = views(out@);
    let mut j: usize = 0;
    while j < branches.len()
        invariant
            j <= branches@.len(),
            bases@.map_values(|w: &str| w@) == cb,
            cb == common_bases(),
            p2 == (|b: Seq<char>| !cb.contains(b) && b != current@),
            views(out@) == first + views(branches@).subrange(0, j as int).filter(p2),
        decreases branches.len() - j,
    {
        let b = &branches[j];
        proof {
            let pre = views(branches@).subrange(0, j as int);
            assert(views(branches@).subrange(0, j + 1) =~= pre.push(b@));
            pre.lemma_filter_push(b@, p2);
        }
        let common = listed_str(&bases, b.as_str());
        if !common && !same_text(b.as_str(), current) {
            let c = b.clone();
            assert(views(out@.push(c)) =~= views(out@).push(c@));
            out.push(c);
        }
        j += 1;
    }
    assert(views(branches@).subrange(0, j as int) =~= views(branches@));
    out
}

fn listed_str(items: &Vec<&str>, name: &str) -> (r: bool)
    ensures
        r == items@.map_values(|w: &str| w@).contains(name@),
{
    let ghost vs = items@.map_values(|w: &str| w@);
    let mut i: usize = 0;
    while i < items.len()
        invariant
            i <= items@.len(),
            vs == items@.map_values(|w: &str| w@),
            forall|k: int| 0 <= k < i ==> items@[k]@ != name@,
        decreases items.len() - i,
    {
        if same_text(items[i], name) {
            assert(vs[i as int] == name@);
            return true;
        }
        i += 1;
    }
    assert forall|k: int| 0 <= k < vs.len() implies vs[k] != name@ by {
        assert(vs[k] == items@[k]@);
    }
    false
}

} // verus!
