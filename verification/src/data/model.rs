//! The history as a mathematical value: a sequence of entries, a cursor
//! and a bound, and what each operation of the store makes of them.

use crate::error::ErrorKind;
use crate::models::history::HistoryEntryView;
use vstd::prelude::*;

verus! {

/// The state of a history store.
pub struct StoreView {
    /// The entries, oldest first.
    pub entries: Seq<HistoryEntryView>,
    /// The place of the current entry; `None` when there is none.
    pub cursor: Option<nat>,
    /// The most entries that the store keeps.
    pub max_depth: nat,
}

/// The first place at or after `start` whose entry carries `id`.
pub open spec fn find_from(entries: Seq<HistoryEntryView>, id: Seq<char>, start: int) -> Option<
    nat,
>
    decreases entries.len() - start,
{
    if start < 0 || start >= entries.len() {
        None
    } else if entries[start].id == id {
        Some(start as nat)
    } else {
        find_from(entries, id, start + 1)
    }
}

/// `find_from` gives the first place from `start` on that carries `id`,
/// and `None` only where no place from `start` on carries it.
pub proof fn lemma_find_from(entries: Seq<HistoryEntryView>, id: Seq<char>, start: int)
    requires
        0 <= start,
    ensures
        match find_from(entries, id, start) {
            Some(i) => start <= i < entries.len() && entries[i as int].id == id && forall|j: int|
                start <= j < i ==> entries[j].id != id,
            None => forall|j: int| start <= j < entries.len() ==> entries[j].id != id,
        },
    decreases entries.len() - start,
{
    if start < entries.len() && entries[start].id != id {
        lemma_find_from(entries, id, start + 1);
    }
}

impl StoreView {
    /// What holds of every store: the bound is positive, the entries fit
    /// under it, and the cursor is absent exactly when there is no entry
    /// and otherwise points at one.
    pub open spec fn wf(self) -> bool {
        &&& self.max_depth >= 1
        &&& self.entries.len() <= self.max_depth
        &&& match self.cursor {
            None => self.entries.len() == 0,
            Some(i) => i < self.entries.len(),
        }
    }

    /// The store without entries.
    pub open spec fn empty(max_depth: nat) -> StoreView {
        StoreView { entries: Seq::empty(), cursor: None, max_depth }
    }

    /// The store that holds `entry` alone, with the cursor on it.
    pub open spec fn single(entry: HistoryEntryView, max_depth: nat) -> StoreView {
        StoreView { entries: seq![entry], cursor: Some(0nat), max_depth }
    }

    /// The current entry.
    pub open spec fn current(self) -> Option<HistoryEntryView> {
        match self.cursor {
            Some(i) => Some(self.entries[i as int]),
            None => None,
        }
    }

    /// An earlier entry exists to go back to.
    pub open spec fn can_undo(self) -> bool {
        self.cursor matches Some(i) && i > 0
    }

    /// A later entry exists to go forward to.
    pub open spec fn can_redo(self) -> bool {
        self.cursor matches Some(i) && i + 1 < self.entries.len()
    }

    /// The store after `entry` was pushed: the entries after the cursor
    /// are dropped, the entry is appended, the oldest entry leaves if the
    /// bound is passed, and the cursor points at the new entry.
    pub open spec fn push(self, entry: HistoryEntryView) -> StoreView {
        let kept = match self.cursor {
            Some(i) => self.entries.take(i as int + 1),
            None => Seq::empty(),
        };
        let grown = kept.push(entry);
        let entries = if grown.len() > self.max_depth {
            grown.drop_first()
        } else {
            grown
        };
        StoreView {
            entries,
            cursor: Some((entries.len() - 1) as nat),
            max_depth: self.max_depth,
        }
    }

    /// One step back, or the reason why there is none.
    pub open spec fn undo(self) -> Result<StoreView, ErrorKind> {
        match self.cursor {
            Some(i) => if i > 0 {
                Ok(StoreView { cursor: Some((i - 1) as nat), ..self })
            } else {
                Err(ErrorKind::AtBoundary)
            },
            None => Err(ErrorKind::NoData),
        }
    }

    /// One step forward, or the reason why there is none.
    pub open spec fn redo(self) -> Result<StoreView, ErrorKind> {
        match self.cursor {
            Some(i) => if i + 1 < self.entries.len() {
                Ok(StoreView { cursor: Some((i + 1) as nat), ..self })
            } else {
                Err(ErrorKind::AtBoundary)
            },
            None => Err(ErrorKind::NoData),
        }
    }

    /// The first place whose entry carries `id`.
    pub open spec fn position(self, id: Seq<char>) -> Option<nat> {
        find_from(self.entries, id, 0)
    }

    /// The cursor moved to the first entry that carries `id`.
    pub open spec fn jump_to(self, id: Seq<char>) -> Result<StoreView, ErrorKind> {
        match self.position(id) {
            Some(i) => Ok(StoreView { cursor: Some(i), ..self }),
            None => Err(ErrorKind::EntryNotFound),
        }
    }

    /// Only the earliest entry kept, and the cursor on it.
    pub open spec fn reset_to_initial(self) -> Result<StoreView, ErrorKind> {
        if self.entries.len() == 0 {
            Err(ErrorKind::EmptyHistory)
        } else {
            Ok(StoreView { entries: self.entries.take(1), cursor: Some(0), ..self })
        }
    }

    /// The store emptied; the bound stays.
    pub open spec fn clear(self) -> StoreView {
        StoreView::empty(self.max_depth)
    }

    /// At most the `keep` newest entries kept. The cursor moves down by
    /// the number of entries that left; it stops at the oldest entry
    /// that stays, and is absent when none stays.
    pub open spec fn trim(self, keep: nat) -> StoreView {
        if self.entries.len() > keep {
            let removed = self.entries.len() - keep;
            StoreView {
                entries: self.entries.skip(removed as int),
                cursor: if keep == 0 {
                    None
                } else {
                    match self.cursor {
                        Some(i) => Some(
                            if i >= removed {
                                (i - removed) as nat
                            } else {
                                0
                            },
                        ),
                        None => None,
                    }
                },
                max_depth: self.max_depth,
            }
        } else {
            self
        }
    }
}

} // verus!
