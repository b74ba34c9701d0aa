//! The history store: an ordered list of snapshots with a cursor, linear
//! undo and redo, and a bound on its depth.

use crate::data::model::{find_from, lemma_find_from, StoreView};
use crate::error::{
    at_earliest_text, at_latest_text, empty_history_text, entry_not_found_prefix, no_data_text,
    refused, DataAnalystError, ErrorKind,
};
use crate::models::dataset::DatasetInfo;
use crate::models::history::{opt_nat, HistoryEntry, HistoryEntryInfo, HistoryEntryView};
use crate::text::same_text;
use polars::frame::DataFrame;
use vstd::prelude::*;

verus! {

/// The views of a sequence of entries, in order.
pub open spec fn entry_views(entries: Seq<HistoryEntry>) -> Seq<HistoryEntryView> {
    Seq::new(entries.len(), |i: int| entries[i]@)
}

/// The depth of a store that is made without one.
pub const DEFAULT_MAX_HISTORY: usize = 50;

/// The history store. It alone says which snapshot is the current one and
/// which snapshots can be gone to.
pub struct DataStore {
    history: Vec<HistoryEntry>,
    current_index: Option<usize>,
    max_history: usize,
}

impl View for DataStore {
    type V = StoreView;

    closed spec fn view(&self) -> StoreView {
        StoreView {
            entries: entry_views(self.history@),
            cursor: opt_nat(self.current_index),
            max_depth: self.max_history as nat,
        }
    }
}

impl DataStore {
    #[verifier::type_invariant]
    closed spec fn well_formed(&self) -> bool {
        self@.wf()
    }

    /// An empty store of the default depth.
    pub fn new() -> (store: Self)
        ensures
            store@ == StoreView::empty(DEFAULT_MAX_HISTORY as nat),
            store@.wf(),
    {
        DataStore::with_max_history(DEFAULT_MAX_HISTORY)
    }

    /// An empty store that keeps at most `max_history` entries.
    pub fn with_max_history(max_history: usize) -> (store: Self)
        requires
            max_history >= 1,
        ensures
            store@ == StoreView::empty(max_history as nat),
            store@.wf(),
    {
        let store = DataStore { history: Vec::new(), current_index: None, max_history };
        assert(store@.entries =~= Seq::<HistoryEntryView>::empty());
        store
    }

    /// Makes `entry` the newest and the current entry. Entries after the
    /// cursor are dropped first; the oldest entry leaves if the store
    /// would pass its depth.
    pub fn push_operation(&mut self, entry: HistoryEntry)
        ensures
            final(self)@ == old(self)@.push(entry@),
            final(self)@.wf(),
    {
        proof {
            use_type_invariant(&*self);
        }
        let mut taken = DataStore::with_max_history(self.max_history);
        core::mem::swap(self, &mut taken);
        let DataStore { history, current_index, max_history } = taken;
        let mut history = history;
        let ghost before = entry_views(history@);
        match current_index {
            Some(index) => {
                history.truncate(index + 1);
                assert(entry_views(history@) =~= before.take(index + 1));
            },
            None => {
                history.clear();
                assert(entry_views(history@) =~= Seq::<HistoryEntryView>::empty());
            },
        }
        let ghost kept = entry_views(history@);
        history.push(entry);
        assert(entry_views(history@) =~= kept.push(entry@));
        if history.len() > max_history {
            history.remove(0);
            assert(entry_views(history@) =~= kept.push(entry@).drop_first());
        }
        let last = history.len() - 1;
        *self = DataStore { history, current_index: Some(last), max_history };
    }

    /// The current snapshot.
    pub fn get_current(&self) -> (table: Option<&DataFrame>)
        ensures
            match self@.current() {
                Some(entry) => table == Some(&entry.dataframe),
                None => table is None,
            },
    {
        proof {
            use_type_invariant(self);
        }
        match self.current_index {
            Some(index) => Some(&self.history[index].dataframe),
            None => None,
        }
    }

    /// The summary of the current snapshot.
    pub fn get_current_info(&self) -> (info: Option<&DatasetInfo>)
        ensures
            match self@.current() {
                Some(entry) => info matches Some(i) && i@ == entry.metadata,
                None => info is None,
            },
    {
        proof {
            use_type_invariant(self);
        }
        match self.current_index {
            Some(index) => Some(&self.history[index].metadata),
            None => None,
        }
    }

    /// The current entry.
    pub fn get_current_entry(&self) -> (entry: Option<&HistoryEntry>)
        ensures
            match self@.current() {
                Some(e) => entry matches Some(found) && found@ == e,
                None => entry is None,
            },
    {
        proof {
            use_type_invariant(self);
        }
        match self.current_index {
            Some(index) => Some(&self.history[index]),
            None => None,
        }
    }

    /// Moves the cursor one entry back. Refused, with the store as it
    /// was, at the earliest entry and on an empty store.
    pub fn undo(&mut self) -> (done: Result<(), DataAnalystError>)
        ensures
            final(self)@.wf(),
            match old(self)@.undo() {
                Ok(next) => done is Ok && final(self)@ == next,
                Err(kind) => final(self)@ == old(self)@ && refused(
                    done,
                    kind,
                    if kind == ErrorKind::NoData {
                        no_data_text()
                    } else {
                        at_earliest_text()
                    },
                ),
            },
    {
        proof {
            use_type_invariant(&*self);
        }
        match self.current_index {
            Some(index) => {
                if index > 0 {
                    self.current_index = Some(index - 1);
                    Ok(())
                } else {
                    Err(DataAnalystError::at_earliest())
                }
            },
            None => Err(DataAnalystError::no_data()),
        }
    }

    /// Moves the cursor one entry forward. Refused, with the store as it
    /// was, at the latest entry and on an empty store.
    pub fn redo(&mut self) -> (done: Result<(), DataAnalystError>)
        ensures
            final(self)@.wf(),
            match old(self)@.redo() {
                Ok(next) => done is Ok && final(self)@ == next,
                Err(kind) => final(self)@ == old(self)@ && refused(
                    done,
                    kind,
                    if kind == ErrorKind::NoData {
                        no_data_text()
                    } else {
                        at_latest_text()
                    },
                ),
            },
    {
        proof {
            use_type_invariant(&*self);
        }
        match self.current_index {
            Some(index) => {
                if index < self.history.len() - 1 {
                    self.current_index = Some(index + 1);
                    Ok(())
                } else {
                    Err(DataAnalystError::at_latest())
                }
            },
            None => Err(DataAnalystError::no_data()),
        }
    }

    /// Moves the cursor to the first entry that carries `entry_id`.
    /// Refused, with the store as it was, when no entry carries it.
    pub fn jump_to(&mut self, entry_id: &str) -> (done: Result<(), DataAnalystError>)
        ensures
            final(self)@.wf(),
            match old(self)@.jump_to(entry_id@) {
                Ok(next) => done is Ok && final(self)@ == next,
                Err(kind) => final(self)@ == old(self)@ && refused(
                    done,
                    kind,
                    entry_not_found_prefix() + entry_id@,
                ),
            },
    {
        proof {
            use_type_invariant(&*self);
            lemma_find_from(self@.entries, entry_id@, 0);
        }
        let mut i: usize = 0;
        while i < self.history.len()
            invariant
                i <= self.history.len(),
                *self == *old(self),
                self@.wf(),
                find_from(self@.entries, entry_id@, 0) == find_from(
                    self@.entries,
                    entry_id@,
                    i as int,
                ),
            decreases self.history.len() - i,
        {
            if same_text(self.history[i].id.as_str(), entry_id) {
                self.current_index = Some(i);
                return Ok(());
            }
            i = i + 1;
        }
        Err(DataAnalystError::entry_not_found(entry_id))
    }

    /// What a list of the history shows: every entry, oldest first,
    /// without its table.
    pub fn get_history(&self) -> (list: Vec<HistoryEntryInfo>)
        ensures
            list@.len() == self@.entries.len(),
            forall|i: int| 0 <= i < list@.len() ==> (#[trigger] list@[i])@ == self@.entries[i].info(),
    {
        let mut list: Vec<HistoryEntryInfo> = Vec::new();
        let mut i: usize = 0;
        while i < self.history.len()
            invariant
                i <= self.history.len(),
                list@.len() == i,
                forall|k: int| 0 <= k < i ==> (#[trigger] list@[k])@ == self@.entries[k].info(),
            decreases self.history.len() - i,
        {
            let info = HistoryEntryInfo::from(&self.history[i]);
            list.push(info);
            i = i + 1;
        }
        list
    }

    /// The place of the current entry.
    pub fn get_current_index(&self) -> (index: Option<usize>)
        ensures
            opt_nat(index) == self@.cursor,
    {
        self.current_index
    }

    /// The number of entries.
    pub fn history_len(&self) -> (len: usize)
        ensures
            len == self@.entries.len(),
            self@.wf(),
    {
        proof {
            use_type_invariant(self);
        }
        self.history.len()
    }

    /// Whether an undo would succeed.
    pub fn can_undo(&self) -> (possible: bool)
        ensures
            possible == self@.can_undo(),
            possible == (self@.undo() is Ok),
    {
        match self.current_index {
            Some(index) => index > 0,
            None => false,
        }
    }

    /// Whether a redo would succeed.
    pub fn can_redo(&self) -> (possible: bool)
        ensures
            possible == self@.can_redo(),
            possible == (self@.redo() is Ok),
    {
        proof {
            use_type_invariant(self);
        }
        match self.current_index {
            Some(index) => index < self.history.len() - 1,
            None => false,
        }
    }

    /// Empties the store.
    pub fn clear(&mut self)
        ensures
            final(self)@ == old(self)@.clear(),
            final(self)@.wf(),
    {
        proof {
            use_type_invariant(&*self);
        }
        *self = DataStore::with_max_history(self.max_history);
    }

    /// Drops every entry but the earliest and puts the cursor on it.
    /// Refused on an empty store.
    pub fn reset_to_initial(&mut self) -> (done: Result<(), DataAnalystError>)
        ensures
            final(self)@.wf(),
            match old(self)@.reset_to_initial() {
                Ok(next) => done is Ok && final(self)@ == next,
                Err(kind) => final(self)@ == old(self)@ && refused(
                    done,
                    kind,
                    empty_history_text(),
                ),
            },
    {
        proof {
            use_type_invariant(&*self);
        }
        if self.history.is_empty() {
            return Err(DataAnalystError::empty_history());
        }
        let mut taken = DataStore::with_max_history(self.max_history);
        core::mem::swap(self, &mut taken);
        let DataStore { history, current_index: _, max_history } = taken;
        let mut history = history;
        let ghost before = entry_views(history@);
        history.truncate(1);
        assert(entry_views(history@) =~= before.take(1));
        *self = DataStore { history, current_index: Some(0), max_history };
        Ok(())
    }

    /// Keeps at most the `keep_count` newest entries. The cursor follows
    /// its entry; if that entry left, the cursor goes to the oldest entry
    /// that stays, and it is absent when no entry stays.
    pub fn trim_history(&mut self, keep_count: usize)
        ensures
            final(self)@ == old(self)@.trim(keep_count as nat),
            final(self)@.wf(),
    {
        proof {
            use_type_invariant(&*self);
        }
        if self.history.len() > keep_count {
            let mut taken = DataStore::with_max_history(self.max_history);
            core::mem::swap(self, &mut taken);
            let DataStore { history, current_index, max_history } = taken;
            let mut history = history;
            let ghost before = entry_views(history@);
            let remove_count = history.len() - keep_count;
            let kept = history.split_off(remove_count);
            assert(entry_views(kept@) =~= before.skip(remove_count as int));
            let cursor = if keep_count == 0 {
                None
            } else {
                match current_index {
                    Some(index) => {
                        if index >= remove_count {
                            Some(index - remove_count)
                        } else {
                            Some(0)
                        }
                    },
                    None => None,
                }
            };
            *self = DataStore { history: kept, current_index: cursor, max_history };
        }
    }
}

impl Default for DataStore {
    fn default() -> (store: Self)
        ensures
            store@ == StoreView::empty(DEFAULT_MAX_HISTORY as nat),
    {
        DataStore::new()
    }
}

} // verus!
