//! Selecting raw-profile files by their extension.
//!
//! Raw profiling data is discovered by scanning the coverage directory: a
//! file belongs to the raw-profile set exactly when its name ends in the
//! raw-profile extension. The scan order of the directory is preserved.

use vstd::prelude::*;

verus! {

/// Length, in characters, of the raw-profile suffix `.profraw`.
pub open spec fn profraw_suffix_len() -> int {
    8
}

/// A file name carries the raw-profile extension: it ends in `.profraw`.
pub open spec fn has_profraw_ext(name: Seq<char>) -> bool {
    &&& name.len() >= profraw_suffix_len()
    &&& name.subrange(name.len() - profraw_suffix_len(), name.len() as int)
        == ".profraw"@
}

/// The subsequence of `names` whose entries carry the raw-profile
/// extension, in the order given.
pub open spec fn profraw_subset(names: Seq<Seq<char>>) -> Seq<Seq<char>>
    decreases names.len(),
{
    if names.len() == 0 {
        Seq::empty()
    } else {
        profraw_subset(names.drop_last()) + (if has_profraw_ext(names.last()) {
            seq![names.last()]
        } else {
            Seq::empty()
        })
    }
}

/// The selection is exact: every listed entry that carries the
/// raw-profile extension is selected, and nothing without it is.
pub proof fn lemma_profraw_subset_exact(names: Seq<Seq<char>>)
    ensures
        forall|i: int|
            0 <= i < names.len() && has_profraw_ext(names[i])
                ==> profraw_subset(names).contains(names[i]),
        forall|j: int|
            0 <= j < profraw_subset(names).len() ==> has_profraw_ext(
                profraw_subset(names)[j],
            ),
    decreases names.len(),
{
    if names.len() > 0 {
        let prev = names.drop_last();
        lemma_profraw_subset_exact(prev);
        let selected = profraw_subset(names);
        let before = profraw_subset(prev);
        assert forall|i: int|
            0 <= i < names.len() && has_profraw_ext(names[i]) implies selected.contains(
            names[i],
        ) by {
            if i < names.len() - 1 {
                assert(prev[i] == names[i]);
                assert(before.contains(names[i]));
                let k = choose|k: int| 0 <= k < before.len() && before[k] == names[i];
                assert(selected[k] == names[i]);
            } else {
                assert(selected[before.len() as int] == names.last());
            }
        }
        assert forall|j: int| 0 <= j < selected.len() implies has_profraw_ext(
            selected[j],
        ) by {
            if j < before.len() {
                assert(selected[j] == before[j]);
            } else {
                assert(selected[j] == names.last());
                assert(has_profraw_ext(names.last()));
            }
        }
    }
}

/// Whether `name` ends in the raw-profile extension `.profraw`.
pub fn has_profraw_extension(name: &String) -> (r: bool)
    ensures
        r == has_profraw_ext(name@),
{
    let n = name.as_str().unicode_len();
    if n < 8 {
        return false;
    }
    let suffix = ".profraw";
    proof {
        reveal_strlit(".profraw");
    }
    let mut i: usize = 0;
    while i < 8
        invariant
            0 <= i <= 8,
            8 <= n == name@.len(),
            suffix@ == ".profraw"@,
            suffix@.len() == 8,
            forall|j: int| 0 <= j < i ==> name@[n - 8 + j] == ".profraw"@[j],
        decreases 8 - i,
    {
        if name.as_str().get_char(n - 8 + i) != suffix.get_char(i) {
            return false;
        }
        i += 1;
    }
    proof {
        assert(name@.subrange(n - 8, n as int) =~= ".profraw"@);
    }
    true
}

/// The entries of `names` that carry the raw-profile extension, in the
/// order in which the directory scan listed them.
pub fn profraw_files(names: &Vec<String>) -> (r: Vec<String>)
    ensures
        r@.map_values(|s: String| s@) == profraw_subset(
            names@.map_values(|s: String| s@),
        ),
{
    let ghost all = names@.map_values(|s: String| s@);
    let mut r: Vec<String> = Vec::new();
    let mut i: usize = 0;
    while i < names.len()
        invariant
            0 <= i <= names@.len(),
            all == names@.map_values(|s: String| s@),
            r@.map_values(|s: String| s@) == profraw_subset(all.take(i as int)),
        decreases names@.len() - i,
    {
        let keep = has_profraw_extension(&names[i]);
        proof {
            assert(all.take(i + 1).drop_last() =~= all.take(i as int));
            assert(all.take(i + 1).last() == names@[i as int]@);
        }
        if keep {
            r.push(names[i].clone());
            proof {
                assert(r@.map_values(|s: String| s@) =~= profraw_subset(
                    all.take(i as int),
                ) + seq![names@[i as int]@]);
            }
        }
        i += 1;
    }
    proof {
        assert(all.take(names@.len() as int) =~= all);
    }
    r
}

} // verus!
