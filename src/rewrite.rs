//! The URL changes that the policy asks for over the entries of one repository.
use vstd::prelude::*;
use crate::policy::{decide, is_eligible, rewritten_url, Decision};

verus! {

/// A sub-repository entry as declared in its parent's configuration.
#[derive(Clone, Debug, PartialEq, Eq)]
pub struct SubEntry {
    pub name: String,
    pub url: String,
    pub path: String,
}

/// A new URL for the entry of the given name.
#[derive(Clone, Debug, PartialEq, Eq)]
pub struct UrlChange {
    pub name: String,
    pub url: String,
}

/// The (name, URL) pairs of a list of changes.
pub open spec fn changes_view(v: Seq<UrlChange>) -> Seq<(Seq<char>, Seq<char>)> {
    v.map_values(|c: UrlChange| (c.name@, c.url@))
}

/// The changes for `entries` under `mirror_base`: one for each eligible
/// entry, in the entries' order.
pub open spec fn planned(entries: Seq<SubEntry>, mirror_base: Seq<char>) -> Seq<
    (Seq<char>, Seq<char>),
>
    decreases entries.len(),
{
    if entries.len() == 0 {
        Seq::empty()
    } else {
        let before = planned(entries.drop_last(), mirror_base);
        let e = entries.last();
        if is_eligible(e.url@) {
            before.push((e.name@, rewritten_url(e.url@, mirror_base)))
        } else {
            before
        }
    }
}

/// The URL changes for the entries of one repository, in their order.
pub fn plan_rewrites(entries: &Vec<SubEntry>, mirror_base: &str) -> (r: Vec<UrlChange>)
    ensures
        changes_view(r@) == planned(entries@, mirror_base@),
{
    let mut r: Vec<UrlChange> = Vec::new();
    let mut i: usize = 0;
    while i < entries.len()
        invariant
            i <= entries@.len(),
            changes_view(r@) == planned(entries@.subrange(0, i as int), mirror_base@),
        decreases entries.len() - i,
    {
        let ghost before = r@;
        let e = &entries[i];
        proof {
            assert(entries@.subrange(0, i + 1).drop_last() =~= entries@.subrange(0, i as int));
            assert(entries@.subrange(0, i + 1).last() == entries@[i as int]);
        }
        match decide(e.url.as_str(), mirror_base) {
            Decision::Rewrite(url) => {
                r.push(UrlChange { name: e.name.clone(), url });
                assert(changes_view(r@) =~= changes_view(before).push(
                    (e.name@, rewritten_url(e.url@, mirror_base@)),
                ));
            },
            Decision::Skip => {},
        }
        i = i + 1;
    }
    assert(entries@.subrange(0, i as int) =~= entries@);
    r
}

} // verus!
