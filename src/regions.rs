//! The check that region names refer to stored regions.

use vstd::prelude::*;

use crate::models::Region;

verus! {

/// The outcome of checking region names against the stored regions.
#[derive(Debug)]
pub enum AllowedRegion<T> {
    /// Some names are not stored; `T` holds them.
    Failure(T),
    /// Every name is stored.
    Success,
    /// The stored regions could not be read.
    Panic,
}

/// Whether some region in `known` is named `name`.
pub open spec fn is_known(known: Seq<Region>, name: Seq<char>) -> bool {
    exists|i: int| 0 <= i < known.len() && (#[trigger] known[i]).name@ == name
}

/// Whether `name` is one of `names`.
pub open spec fn names_contain(names: Seq<String>, name: Seq<char>) -> bool {
    exists|i: int| 0 <= i < names.len() && (#[trigger] names[i])@ == name
}

/// The candidates that name no region in `known`, as a set of texts.
pub open spec fn unknown_names(known: Seq<Region>, candidates: Seq<String>) -> Set<Seq<char>> {
    Set::new(|name: Seq<char>| names_contain(candidates, name) && !is_known(known, name))
}

/// No text occurs twice in `names`.
pub open spec fn distinct_names(names: Seq<String>) -> bool {
    forall|i: int, j: int| 0 <= i < j < names.len() ==> (#[trigger] names[i])@ != (#[trigger] names[j])@
}

/// `failed` names each of the unknown candidates once, and nothing else.
pub open spec fn lists_unknown(failed: Seq<String>, known: Seq<Region>, candidates: Seq<String>) -> bool {
    &&& failed.len() > 0
    &&& distinct_names(failed)
    &&& forall|name: Seq<char>| names_contain(failed, name) <==> #[trigger] unknown_names(known, candidates).contains(name)
}

/// Whether `name` is one of `names`.
fn contains_name(names: &Vec<String>, name: &String) -> (r: bool)
    ensures
        r == names_contain(names@, name@),
{
    let mut i: usize = 0;
    while i < names.len()
        invariant
            0 <= i <= names.len(),
            forall|j: int| 0 <= j < i ==> (#[trigger] names@[j])@ != name@,
        decreases names.len() - i,
    {
        if names[i] == *name {
            return true;
        }
        i = i + 1;
    }
    false
}

/// Whether some region in `known` is named `name`.
fn region_named(known: &Vec<Region>, name: &String) -> (r: bool)
    ensures
        r == is_known(known@, name@),
{
    let mut i: usize = 0;
    while i < known.len()
        invariant
            0 <= i <= known.len(),
            forall|j: int| 0 <= j < i ==> (#[trigger] known@[j]).name@ != name@,
        decreases known.len() - i,
    {
        if known[i].name == *name {
            return true;
        }
        i = i + 1;
    }
    false
}

/// Checks `candidates` against the stored regions. `all_regions` is what
/// reading the stored regions gave, or nothing where that read failed.
/// A failure lists each unknown name once, in the order of first mention.
pub fn regions_allowed(all_regions: Option<&Vec<Region>>, candidates: &Vec<String>) -> (r: AllowedRegion<Vec<String>>)
    ensures
        all_regions is None <==> r is Panic,
        all_regions matches Some(known) ==> {
            &&& (r is Success <==> unknown_names(known@, candidates@).is_empty())
            &&& (r matches AllowedRegion::Failure(failed) ==> lists_unknown(failed@, known@, candidates@))
        },
{
    let known = match all_regions {
        Some(k) => k,
        None => return AllowedRegion::Panic,
    };
    let mut failed: Vec<String> = Vec::new();
    let mut i: usize = 0;
    while i < candidates.len()
        invariant
            0 <= i <= candidates.len(),
            distinct_names(failed@),
            forall|name: Seq<char>| names_contain(failed@, name) <==> (names_contain(candidates@.take(i as int), name) && !is_known(known@, name)),
        decreases candidates.len() - i,
    {
        let candidate = &candidates[i];
        proof {
            assert forall|name: Seq<char>| names_contain(candidates@.take(i + 1), name) <==> (names_contain(candidates@.take(i as int), name) || candidate@ == name) by {
                if names_contain(candidates@.take(i + 1), name) {
                    let j = choose|j: int| 0 <= j < i + 1 && (#[trigger] candidates@.take(i + 1)[j])@ == name;
                    if j < i {
                        assert(candidates@.take(i as int)[j] == candidates@.take(i + 1)[j]);
                    }
                }
                if names_contain(candidates@.take(i as int), name) {
                    let j = choose|j: int| 0 <= j < i && (#[trigger] candidates@.take(i as int)[j])@ == name;
                    assert(candidates@.take(i + 1)[j] == candidates@.take(i as int)[j]);
                }
                if candidate@ == name {
                    assert(candidates@.take(i + 1)[i as int] == *candidate);
                }
            }
        }
        let ghost before = failed@;
        let unknown = !region_named(known, candidate);
        if unknown && !contains_name(&failed, candidate) {
            failed.push(candidate.clone());
            proof {
                assert forall|name: Seq<char>| names_contain(failed@, name) <==> (names_contain(before, name) || candidate@ == name) by {
                    if names_contain(failed@, name) {
                        let j = choose|j: int| 0 <= j < failed@.len() && (#[trigger] failed@[j])@ == name;
                        if j < before.len() {
                            assert(before[j] == failed@[j]);
                        }
                    }
                    if names_contain(before, name) {
                        let j = choose|j: int| 0 <= j < before.len() && (#[trigger] before[j])@ == name;
                        assert(failed@[j] == before[j]);
                    }
                    if candidate@ == name {
                        assert(failed@[before.len() as int] == *candidate);
                    }
                }
            }
        }
        proof {
            assert forall|name: Seq<char>| names_contain(failed@, name) <==> (names_contain(candidates@.take(i + 1), name) && !is_known(known@, name)) by {
                if name == candidate@ {
                    if unknown {
                        assert(names_contain(failed@, name));
                    }
                } else {
                    assert(names_contain(failed@, name) == names_contain(before, name));
                }
            }
        }
        i = i + 1;
    }
    assert(candidates@.take(candidates@.len() as int) =~= candidates@);
    if failed.len() == 0 {
        proof {
            assert forall|name: Seq<char>| !unknown_names(known@, candidates@).contains(name) by {
                if names_contain(failed@, name) {
                    let j = choose|j: int| 0 <= j < failed@.len() && (#[trigger] failed@[j])@ == name;
                }
            }
            assert(unknown_names(known@, candidates@) =~= Set::empty());
        }
        AllowedRegion::Success
    } else {
        proof {
            assert(names_contain(failed@, failed@[0]@));
            assert(unknown_names(known@, candidates@).contains(failed@[0]@));
        }
        AllowedRegion::Failure(failed)
    }
}

} // verus!
