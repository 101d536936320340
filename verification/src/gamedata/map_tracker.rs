//! Noticing when the game loads another map.
use vstd::prelude::*;

use crate::utils::text::str_eq;

verus! {

/// The map name read last, and the one before the last change.
#[derive(Debug)]
pub struct MapTracker {
    pub current_map: Option<String>,
    pub old_map_name: Option<String>,
}

/// The map a read gives: the name when it could be read and is not empty.
pub open spec fn read_map_name(read: Option<Seq<char>>) -> Option<Seq<char>> {
    match read {
        Some(s) => if s.len() > 0 {
            Some(s)
        } else {
            None
        },
        None => None,
    }
}

/// The characters of an optional name.
pub open spec fn opt_view(o: Option<String>) -> Option<Seq<char>> {
    match o {
        Some(s) => Some(s@),
        None => None,
    }
}

fn same_name(a: &Option<String>, b: &Option<String>) -> (r: bool)
    ensures
        r == (opt_view(*a) == opt_view(*b)),
{
    match (a, b) {
        (Some(x), Some(y)) => str_eq(x.as_str(), y.as_str()),
        (None, None) => true,
        _ => false,
    }
}

impl MapTracker {
    /// No map known yet.
    pub fn new() -> (res: MapTracker)
        ensures
            res.current_map is None,
            res.old_map_name is None,
    {
        MapTracker { current_map: None, old_map_name: None }
    }

    /// Records the map name just read (`None` when it could not be read).
    /// When it differs from the map before, that becomes the new reference,
    /// and the new map's name is returned when there is one, for its radar
    /// data to be loaded.
    pub fn on_map_read(&mut self, read: Option<String>) -> (res: Option<String>)
        ensures
            opt_view(final(self).current_map) == read_map_name(opt_view(read)),
            opt_view(final(self).old_map_name) == read_map_name(opt_view(read)),
            opt_view(res) == spec_map_change(opt_view(old(self).old_map_name), opt_view(read)),
    {
        let current: Option<String> = match read {
            Some(s) => if !s.as_str().is_empty() {
                Some(s)
            } else {
                None
            },
            None => None,
        };
        let changed = !same_name(&current, &self.old_map_name);
        let res = if changed {
            match &current {
                Some(s) => Some(s.clone()),
                None => None,
            }
        } else {
            None
        };
        self.old_map_name = match &current {
            Some(s) => Some(s.clone()),
            None => None,
        };
        self.current_map = current;
        res
    }
}

/// What `on_map_read` reports for a read, given the reference map before it.
pub open spec fn spec_map_change(reference: Option<Seq<char>>, read: Option<Seq<char>>) -> Option<
    Seq<char>,
> {
    if read_map_name(read) != reference {
        read_map_name(read)
    } else {
        None
    }
}

/// Reading the same map name twice in a row reports a change at most the
/// first time: after a read, the reference is what was read.
pub proof fn lemma_same_map_twice_is_no_change(reference: Option<Seq<char>>, read: Option<Seq<char>>)
    ensures
        spec_map_change(read_map_name(read), read) is None,
{
}

} // verus!
