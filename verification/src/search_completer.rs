//! Provides suggestions for searches.

use vstd::prelude::*;

use std::collections::VecDeque;

use crate::data::texts;
use crate::text::{has_prefix, starts_with};

verus! {

/// The most recent of some searches, oldest first, which starts with what has been typed.
pub open spec fn latest_starting_with(searches: Seq<Seq<char>>, partial: Seq<char>) -> Option<Seq<char>>
    decreases searches.len(),
{
    if searches.len() == 0 {
        None
    } else if starts_with(searches.last(), partial) {
        Some(searches.last())
    } else {
        latest_starting_with(searches.drop_last(), partial)
    }
}

/// Provides suggestions for searches.
///
/// For now, the completion strategy is to suggest the most recent search that starts with the
/// partial string.
pub struct SearchCompleter {}

impl SearchCompleter {
    /// Return a completer.
    pub fn new() -> Self {
        SearchCompleter {}
    }

    /// Return the most recent search in a history of them (stored oldest to newest) which starts
    /// with what has been typed, if there is one.
    pub fn complete(&self, history: &VecDeque<String>, partial: &str) -> (c: Option<String>)
        ensures
            match c {
                Some(c) => latest_starting_with(texts(history@), partial@) == Some(c@),
                None => latest_starting_with(texts(history@), partial@) is None,
            },
    {
        let mut i: usize = history.len();
        assert(texts(history@).take(i as int) =~= texts(history@));
        while i > 0
            invariant
                i <= history@.len(),
                latest_starting_with(texts(history@), partial@) == latest_starting_with(
                    texts(history@).take(i as int),
                    partial@,
                ),
            decreases i,
        {
            let search: &String = &history[i - 1];
            assert(texts(history@).take(i as int).drop_last() =~= texts(history@).take(i - 1));
            if has_prefix(search.as_str(), partial) {
                return Some(search.clone());
            }
            i = i - 1;
        }
        None
    }
}

} // verus!
