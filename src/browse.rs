//! Entries of the directory browser and the order they are listed in.
use core::cmp::Ordering;
use vstd::prelude::*;

use crate::order::{in_rank_order, insertion_sort, rearranged, stable, Ranked};
use crate::track::{caseless_cmp, caseless_fold, lemma_lex_order_reverse, lex_order};

verus! {

/// A directory or an audio file found directly in a browsed directory.
#[derive(Debug)]
pub struct Entry {
    /// Whether it is a directory.
    pub is_list: bool,
    pub path: String,
}

/// Listing order: directories before files, each by path without regard to case.
pub open spec fn entry_order(a: Entry, b: Entry) -> Ordering {
    if a.is_list == b.is_list {
        lex_order(caseless_fold(a.path@), caseless_fold(b.path@))
    } else if a.is_list {
        Ordering::Less
    } else {
        Ordering::Greater
    }
}

impl Ranked for Entry {
    open spec fn rank(a: Entry, b: Entry) -> Ordering {
        entry_order(a, b)
    }

    proof fn lemma_rank_reverse(a: Entry, b: Entry) {
        lemma_lex_order_reverse(caseless_fold(a.path@), caseless_fold(b.path@));
    }

    fn compare(&self, other: &Entry) -> (r: Ordering) {
        if self.is_list == other.is_list {
            caseless_cmp(self.path.as_str(), other.path.as_str())
        } else if self.is_list {
            Ordering::Less
        } else {
            Ordering::Greater
        }
    }
}

/// The entries in listing order, stable among entries that compare equal.
pub fn sort_entries(entries: Vec<Entry>) -> (r: Vec<Entry>)
    ensures
        in_rank_order(r@),
        r@.to_multiset() == entries@.to_multiset(),
        exists|perm: Seq<int>| rearranged(entries@, r@, perm) && stable(r@, perm),
{
    insertion_sort(entries)
}

} // verus!
