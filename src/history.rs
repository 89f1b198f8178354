use vstd::prelude::*;

use crate::app::{MessageView, Tab};

verus! {

/// Most locations the back/forward history keeps; older ones are evicted.
pub const MAX_HISTORY: usize = 50;

/// Where the user is: the unit of back/forward navigation.
#[derive(Debug, Clone, Copy, PartialEq, Eq, Structural)]
pub struct Location {
    pub tab: Tab,
    pub message_view: MessageView,
    pub selected_thread_id: Option<i64>,
}

/// The entries after pushing `loc` at `cursor`: everything after the cursor
/// is dropped, `loc` is appended, and the oldest entry is evicted past the cap.
/// Pushing the location already at the cursor changes nothing.
pub open spec fn pushed_entries(entries: Seq<Location>, cursor: int, loc: Location) -> Seq<Location> {
    if entries[cursor] == loc {
        entries
    } else {
        let kept = entries.subrange(0, cursor + 1).push(loc);
        if kept.len() > MAX_HISTORY {
            kept.subrange(kept.len() - MAX_HISTORY, kept.len() as int)
        } else {
            kept
        }
    }
}

/// The cursor after pushing `loc` at `cursor`.
pub open spec fn pushed_cursor(entries: Seq<Location>, cursor: int, loc: Location) -> int {
    if entries[cursor] == loc {
        cursor
    } else {
        pushed_entries(entries, cursor, loc).len() - 1
    }
}

/// A linear, bounded history of locations with a cursor on the current one.
#[derive(Debug)]
pub struct NavHistory {
    entries: Vec<Location>,
    index: usize,
}

impl NavHistory {
    /// The locations, oldest first.
    pub closed spec fn entries(&self) -> Seq<Location> {
        self.entries@
    }

    /// Index of the current location in `entries()`.
    pub closed spec fn cursor(&self) -> int {
        self.index as int
    }

    #[verifier::type_invariant]
    spec fn inv(&self) -> bool {
        &&& self.index < self.entries@.len()
        &&& self.entries@.len() <= MAX_HISTORY
    }

    /// The cursor lies within the entries, and the entries within the cap.
    pub open spec fn well_formed(&self) -> bool {
        &&& 0 <= self.cursor() < self.entries().len()
        &&& self.entries().len() <= MAX_HISTORY
    }

    /// A history holding `start` alone.
    pub fn new(start: Location) -> (r: Self)
        ensures
            r.entries() == seq![start],
            r.cursor() == 0,
            r.well_formed(),
    {
        let mut entries: Vec<Location> = Vec::new();
        entries.push(start);
        NavHistory { entries, index: 0 }
    }

    /// Number of locations held.
    pub fn len(&self) -> (r: usize)
        ensures
            r == self.entries().len(),
            self.well_formed(),
    {
        proof {
            use_type_invariant(self);
        }
        self.entries.len()
    }

    /// Index of the current location.
    pub fn index(&self) -> (r: usize)
        ensures
            r == self.cursor(),
            self.well_formed(),
    {
        proof {
            use_type_invariant(self);
        }
        self.index
    }

    /// The location at the cursor.
    pub fn current(&self) -> (r: &Location)
        ensures
            self.well_formed(),
            *r == self.entries()[self.cursor()],
    {
        proof {
            use_type_invariant(self);
        }
        &self.entries[self.index]
    }

    /// Whether there is a location before the cursor.
    pub fn can_go_back(&self) -> (r: bool)
        ensures
            r == (self.cursor() > 0),
            self.well_formed(),
    {
        proof {
            use_type_invariant(self);
        }
        self.index > 0
    }

    /// Whether there is a location after the cursor.
    pub fn can_go_forward(&self) -> (r: bool)
        ensures
            r == (self.cursor() + 1 < self.entries().len()),
            self.well_formed(),
    {
        proof {
            use_type_invariant(self);
        }
        self.index + 1 < self.entries.len()
    }

    /// Records a move to `loc` (see `pushed_entries`).
    pub fn push(&mut self, loc: Location)
        ensures
            final(self).entries() == pushed_entries(old(self).entries(), old(self).cursor(), loc),
            final(self).cursor() == pushed_cursor(old(self).entries(), old(self).cursor(), loc),
            old(self).well_formed(),
            final(self).well_formed(),
    {
        proof {
            use_type_invariant(&*self);
        }
        if self.entries[self.index] == loc {
            return;
        }
        let keep = self.index + 1;
        let start: usize = if keep + 1 > MAX_HISTORY {
            keep + 1 - MAX_HISTORY
        } else {
            0
        };
        let mut entries: Vec<Location> = Vec::new();
        let mut k: usize = start;
        while k < keep
            invariant
                start <= k <= keep,
                keep <= self.entries@.len(),
                entries@ == self.entries@.subrange(start as int, k as int),
            decreases keep - k,
        {
            entries.push(self.entries[k]);
            k += 1;
            assert(entries@ =~= self.entries@.subrange(start as int, k as int));
        }
        entries.push(loc);
        let last = entries.len() - 1;
        proof {
            let kept = old(self).entries@.subrange(0, keep as int).push(loc);
            if kept.len() > MAX_HISTORY {
                assert(entries@ =~= kept.subrange(kept.len() - MAX_HISTORY, kept.len() as int));
            } else {
                assert(entries@ =~= kept);
            }
        }
        *self = NavHistory { entries, index: last };
    }

    /// Moves the cursor one step back and returns the location there.
    pub fn back(&mut self) -> (r: Option<Location>)
        ensures
            old(self).well_formed(),
            final(self).well_formed(),
            final(self).entries() == old(self).entries(),
            old(self).cursor() > 0 ==> final(self).cursor() == old(self).cursor() - 1
                && r == Some(old(self).entries()[old(self).cursor() - 1]),
            old(self).cursor() == 0 ==> *final(self) == *old(self) && r is None,
    {
        proof {
            use_type_invariant(&*self);
        }
        if self.index == 0 {
            return None;
        }
        let i = self.index - 1;
        let loc = self.entries[i];
        self.index = i;
        Some(loc)
    }

    /// Moves the cursor one step forward and returns the location there.
    pub fn forward(&mut self) -> (r: Option<Location>)
        ensures
            old(self).well_formed(),
            final(self).well_formed(),
            final(self).entries() == old(self).entries(),
            old(self).cursor() + 1 < old(self).entries().len() ==> final(self).cursor()
                == old(self).cursor() + 1 && r == Some(old(self).entries()[old(self).cursor() + 1]),
            old(self).cursor() + 1 >= old(self).entries().len() ==> *final(self) == *old(self)
                && r is None,
    {
        proof {
            use_type_invariant(&*self);
        }
        if self.index + 1 >= self.entries.len() {
            return None;
        }
        let i = self.index + 1;
        let loc = self.entries[i];
        self.index = i;
        Some(loc)
    }
}

} // verus!
