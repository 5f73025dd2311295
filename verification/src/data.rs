//! Data which is kept between runs of insh: for now, the history of searches.

use vstd::prelude::*;

use std::collections::VecDeque;

use crate::text::string_of;

verus! {

/// The text of each of a list of strings.
pub open spec fn texts(strings: Seq<String>) -> Seq<Seq<char>> {
    strings.map_values(|s: String| s@)
}

/// The history after adding a phrase to it: the phrase goes on the end, and the oldest is
/// dropped when that makes it longer than the most it is allowed to be.
pub open spec fn added_to_history(
    history: Seq<Seq<char>>,
    phrase: Seq<char>,
    max_length: usize,
) -> Seq<Seq<char>> {
    let pushed = history.push(phrase);
    if pushed.len() > max_length {
        pushed.drop_first()
    } else {
        pushed
    }
}

/// Data about searching for text in files.
pub struct SearcherData {
    /// The history of searches from oldest to newest.
    pub history: VecDeque<String>,
}

impl Default for SearcherData {
    fn default() -> (d: SearcherData)
        ensures
            d.history@.len() == 0,
    {
        SearcherData { history: VecDeque::new() }
    }
}

impl SearcherData {
    /// Add an entry to the history.
    pub fn add_to_history(&mut self, phrase: &str, max_length: usize)
        ensures
            texts(final(self).history@) == added_to_history(
                texts(old(self).history@),
                phrase@,
                max_length,
            ),
    {
        self.history.push_back(string_of(phrase));
        if self.history.len() > max_length {
            self.history.pop_front();
        }
        assert(texts(self.history@) =~= added_to_history(texts(old(self).history@), phrase@, max_length));
    }
}

} // verus!

verus! {

/// The history never grows past the most it is allowed to be once it is within it, and the
/// phrase added is the newest entry of it (when it is allowed any at all).
pub proof fn lemma_history_is_bounded(history: Seq<Seq<char>>, phrase: Seq<char>, max_length: usize)
    requires
        history.len() <= max_length,
    ensures
        added_to_history(history, phrase, max_length).len() <= max_length,
        max_length > 0 ==> added_to_history(history, phrase, max_length).last() == phrase,
        added_to_history(history, phrase, max_length).len() == (if history.len() < max_length {
            history.len() + 1
        } else {
            max_length as nat
        }),
{
}

} // verus!
