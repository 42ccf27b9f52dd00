//! Locating the base directory: among the immediate children of a start
//! directory, the first directory entry whose name equals the target up to
//! ASCII case is the base. Nested subdirectories are never inspected: the
//! search sees only the listing it is given, one level deep.

use vstd::prelude::*;
use crate::paths::{spec_join, join_path};
use crate::text::{ascii_eq, eq_ignore_ascii_case};

verus! {

/// One immediate child of the start directory: its final name and whether it
/// is itself a directory.
#[derive(Clone, Debug)]
pub struct DirEntry {
    pub name: Vec<u8>,
    pub is_dir: bool,
}

/// Whether the entry at position `i` is a directory whose name matches
/// `target` up to ASCII case.
pub open spec fn match_at(entries: Seq<DirEntry>, target: Seq<u8>, i: int) -> bool {
    entries[i].is_dir && ascii_eq(entries[i].name@, target)
}

/// Picks the base directory from a listing of `start`'s immediate children:
/// the first matching directory entry, joined onto `start`; `None` when no
/// entry matches.
pub fn get_base_dir(start: &Vec<u8>, entries: &Vec<DirEntry>, target: &Vec<u8>) -> (r: Option<
    Vec<u8>,
>)
    ensures
        match r {
            Some(p) => exists|i: int|
                0 <= i < entries@.len() && match_at(entries@, target@, i) && (forall|j: int|
                    0 <= j < i ==> !match_at(entries@, target@, j)) && p@ == spec_join(
                    start@,
                    entries@[i].name@,
                ),
            None => forall|i: int| 0 <= i < entries@.len() ==> !match_at(entries@, target@, i),
        },
{
    let mut i: usize = 0;
    while i < entries.len()
        invariant
            0 <= i <= entries@.len(),
            forall|j: int| 0 <= j < i ==> !match_at(entries@, target@, j),
        decreases entries@.len() - i,
    {
        if entries[i].is_dir && eq_ignore_ascii_case(&entries[i].name, target) {
            let p = join_path(start, &entries[i].name);
            proof {
                let gi = i as int;
                assert(0 <= gi && gi < entries@.len() && match_at(entries@, target@, gi) && (
                forall|j: int| 0 <= j < gi ==> !match_at(entries@, target@, j)) && p@ == spec_join(
                    start@,
                    entries@[gi].name@,
                ));
            }
            return Some(p);
        }
        i += 1;
    }
    None
}

/// The outcome a scan hands back: the base directory's path when the listing
/// held a match, nothing otherwise. An unlistable start directory, or a
/// single unreadable entry in it, aborts the whole scan: the caller then
/// passes `None` for the listing and the scan reports no match.
pub fn scan_listing(start: &Vec<u8>, listing: Option<&Vec<DirEntry>>, target: &Vec<u8>) -> (r:
    Option<Vec<u8>>)
    ensures
        match listing {
            Some(entries) => (match r {
                Some(p) => get_base_dir_result(start@, entries@, target@) == Some(p@),
                None => get_base_dir_result(start@, entries@, target@) is None,
            }),
            None => r is None,
        },
{
    match listing {
        Some(entries) => {
            let r = get_base_dir(start, entries, target);
            proof {
                lemma_get_base_dir_result(start@, entries@, target@, r);
            }
            r
        },
        None => None,
    }
}

/// The position of the first match in `entries`, or `entries.len()` when
/// there is none.
pub open spec fn first_match(entries: Seq<DirEntry>, target: Seq<u8>) -> int
    decreases entries.len(),
{
    if entries.len() == 0 {
        0
    } else if match_at(entries, target, 0) {
        0
    } else {
        1 + first_match(entries.drop_first(), target)
    }
}

/// What `get_base_dir` returns, as a function of its arguments.
pub open spec fn get_base_dir_result(start: Seq<u8>, entries: Seq<DirEntry>, target: Seq<u8>) -> Option<
    Seq<u8>,
> {
    let i = first_match(entries, target);
    if i < entries.len() {
        Some(spec_join(start, entries[i].name@))
    } else {
        None
    }
}

proof fn lemma_first_match(entries: Seq<DirEntry>, target: Seq<u8>)
    ensures
        0 <= first_match(entries, target) <= entries.len(),
        forall|j: int| 0 <= j < first_match(entries, target) ==> !match_at(entries, target, j),
        first_match(entries, target) < entries.len() ==> match_at(
            entries,
            target,
            first_match(entries, target),
        ),
    decreases entries.len(),
{
    if entries.len() > 0 && !match_at(entries, target, 0) {
        lemma_first_match(entries.drop_first(), target);
        let f = first_match(entries, target);
        assert(f == 1 + first_match(entries.drop_first(), target));
        assert forall|j: int| 0 <= j < f implies !match_at(entries, target, j) by {
            if j > 0 {
                assert(entries.drop_first()[j - 1] == entries[j]);
                assert(!match_at(entries.drop_first(), target, j - 1));
            }
        }
        if f < entries.len() {
            assert(entries.drop_first()[f - 1] == entries[f]);
            assert(match_at(entries.drop_first(), target, f - 1));
        }
    }
}

/// The scan never reaches below the immediate children: whatever it
/// returns is the start directory joined with the name of one *direct*
/// matching entry, and with no direct match it returns nothing — a match
/// two levels deep is never found, because the outcome is a function of the
/// one-level listing alone.
pub proof fn lemma_scan_stays_one_level_deep(start: Seq<u8>, entries: Seq<DirEntry>, target: Seq<u8>)
    ensures
        match get_base_dir_result(start, entries, target) {
            Some(p) => exists|i: int|
                0 <= i < entries.len() && match_at(entries, target, i) && p == spec_join(
                    start,
                    entries[i].name@,
                ),
            None => forall|i: int| 0 <= i < entries.len() ==> !match_at(entries, target, i),
        },
{
    lemma_first_match(entries, target);
    let f = first_match(entries, target);
    if f < entries.len() {
        // the first matching entry is the witness
        assert(match_at(entries, target, f));
    }
}

proof fn lemma_get_base_dir_result(
    start: Seq<u8>,
    entries: Seq<DirEntry>,
    target: Seq<u8>,
    r: Option<Vec<u8>>,
)
    requires
        match r {
            Some(p) => exists|i: int|
                0 <= i < entries.len() && match_at(entries, target, i) && (forall|j: int|
                    0 <= j < i ==> !match_at(entries, target, j)) && p@ == spec_join(
                    start,
                    entries[i].name@,
                ),
            None => forall|i: int| 0 <= i < entries.len() ==> !match_at(entries, target, i),
        },
    ensures
        match r {
            Some(p) => get_base_dir_result(start, entries, target) == Some(p@),
            None => get_base_dir_result(start, entries, target) is None,
        },
{
    lemma_first_match(entries, target);
    match r {
        Some(p) => {
            let i = choose|i: int|
                0 <= i < entries.len() && match_at(entries, target, i) && (forall|j: int|
                    0 <= j < i ==> !match_at(entries, target, j)) && p@ == spec_join(
                    start,
                    entries[i].name@,
                );
            let f = first_match(entries, target);
            assert(f <= i);
            assert(i <= f);
        },
        None => {},
    }
}

} // verus!
