//! What holds of the history, stated over its model and proved.

use crate::data::model::{lemma_find_from, StoreView};
use crate::error::ErrorKind;
use crate::models::history::HistoryEntryView;
use vstd::prelude::*;

verus! {

/// The store after the entries of `items` were pushed one after the other.
pub open spec fn push_all(store: StoreView, items: Seq<HistoryEntryView>) -> StoreView
    decreases items.len(),
{
    if items.len() == 0 {
        store
    } else {
        push_all(store, items.drop_last()).push(items.last())
    }
}

/// No identifier is carried by two entries.
pub open spec fn distinct_ids(entries: Seq<HistoryEntryView>) -> bool {
    forall|i: int, j: int| 0 <= i < j < entries.len() ==> entries[i].id != entries[j].id
}

/// Every operation keeps a well-formed store well formed.
pub proof fn law_operations_keep_wf(
    store: StoreView,
    entry: HistoryEntryView,
    id: Seq<char>,
    keep: nat,
)
    requires
        store.wf(),
    ensures
        store.push(entry).wf(),
        store.undo() matches Ok(next) ==> next.wf(),
        store.redo() matches Ok(next) ==> next.wf(),
        store.jump_to(id) matches Ok(next) ==> next.wf(),
        store.reset_to_initial() matches Ok(next) ==> next.wf(),
        store.clear().wf(),
        store.trim(keep).wf(),
        StoreView::empty(store.max_depth).wf(),
{
    lemma_find_from(store.entries, id, 0);
}

/// Undo, redo and a jump move the cursor and nothing else: the entries
/// and the bound stay as they were.
pub proof fn law_navigation_keeps_entries(store: StoreView, id: Seq<char>)
    ensures
        store.undo() matches Ok(next) ==> next.entries == store.entries && next.max_depth
            == store.max_depth,
        store.redo() matches Ok(next) ==> next.entries == store.entries && next.max_depth
            == store.max_depth,
        store.jump_to(id) matches Ok(next) ==> next.entries == store.entries && next.max_depth
            == store.max_depth,
{
}

/// After a push the cursor stands on the pushed entry, which is the last.
pub proof fn law_push_selects_new_entry(store: StoreView, entry: HistoryEntryView)
    requires
        store.wf(),
    ensures
        store.push(entry).cursor == Some((store.push(entry).entries.len() - 1) as nat),
        store.push(entry).current() == Some(entry),
        store.push(entry).entries.last() == entry,
        !store.push(entry).can_redo(),
        store.push(entry).entries.len() <= store.max_depth,
{
}

/// From an empty store, `k` pushes leave the last `max_depth` of the
/// pushed entries, in order, and the cursor on the newest. While `k` is
/// no more than the bound nothing has left and the cursor is `k - 1`.
pub proof fn law_pushes_from_empty(max_depth: nat, items: Seq<HistoryEntryView>)
    requires
        max_depth >= 1,
    ensures
        push_all(StoreView::empty(max_depth), items).wf(),
        push_all(StoreView::empty(max_depth), items).max_depth == max_depth,
        push_all(StoreView::empty(max_depth), items).entries.len() <= max_depth,
        items.len() <= max_depth ==> push_all(StoreView::empty(max_depth), items).entries
            == items,
        items.len() > max_depth ==> push_all(StoreView::empty(max_depth), items).entries
            == items.skip(items.len() - max_depth),
        items.len() >= 1 ==> push_all(StoreView::empty(max_depth), items).cursor == Some(
            (push_all(StoreView::empty(max_depth), items).entries.len() - 1) as nat,
        ),
        1 <= items.len() <= max_depth ==> push_all(StoreView::empty(max_depth), items).cursor
            == Some((items.len() - 1) as nat),
    decreases items.len(),
{
    let start = StoreView::empty(max_depth);
    if items.len() == 0 {
        assert(push_all(start, items).entries =~= items);
    } else {
        let before = push_all(start, items.drop_last());
        law_pushes_from_empty(max_depth, items.drop_last());
        let after = before.push(items.last());
        assert(push_all(start, items) == after);
        let shorter = items.drop_last();
        if shorter.len() == 0 {
            assert(before.cursor is None);
            assert(after.entries =~= items);
        } else {
            assert(before.cursor == Some((before.entries.len() - 1) as nat));
            assert(before.entries.take(before.entries.len() as int) =~= before.entries);
            if items.len() <= max_depth {
                assert(after.entries =~= items);
            } else if shorter.len() <= max_depth {
                assert(after.entries =~= items.skip(items.len() - max_depth));
            } else {
                assert(after.entries =~= items.skip(items.len() - max_depth));
            }
        }
    }
}

/// An undo that is followed at once by a redo gives back the store as it
/// was: the same cursor, and so the same current entry.
pub proof fn law_undo_then_redo(store: StoreView)
    requires
        store.wf(),
        store.undo() is Ok,
    ensures
        store.undo()->Ok_0.redo() == Ok::<StoreView, ErrorKind>(store),
        store.undo()->Ok_0.redo()->Ok_0.current() == store.current(),
{
}

/// A redo that is followed at once by an undo gives back the store as it was.
pub proof fn law_redo_then_undo(store: StoreView)
    requires
        store.wf(),
        store.redo() is Ok,
    ensures
        store.redo()->Ok_0.undo() == Ok::<StoreView, ErrorKind>(store),
{
}

/// A push while later entries exist drops every entry after the cursor:
/// the entries up to the cursor stay, the new entry follows them, the
/// history has `cursor + 2` entries, and no redo leads anywhere. Where
/// the identifiers are distinct, no jump finds a dropped entry either.
pub proof fn law_push_discards_redo_branch(store: StoreView, entry: HistoryEntryView)
    requires
        store.wf(),
        store.can_redo(),
    ensures
        store.push(entry).entries == store.entries.take(store.cursor->0 as int + 1).push(entry),
        store.push(entry).entries.len() == store.cursor->0 + 2,
        store.push(entry).cursor == Some((store.cursor->0 + 1) as nat),
        store.push(entry).redo() == Err::<StoreView, ErrorKind>(ErrorKind::AtBoundary),
        distinct_ids(store.entries.push(entry)) ==> forall|k: int|
            store.cursor->0 < k < store.entries.len() ==> store.push(entry).position(
                (#[trigger] store.entries[k]).id,
            ) is None,
{
    let after = store.push(entry);
    let all = store.entries.push(entry);
    if distinct_ids(all) {
        assert forall|k: int| store.cursor->0 < k < store.entries.len() implies after.position(
            (#[trigger] store.entries[k]).id,
        ) is None by {
            let id = store.entries[k].id;
            lemma_find_from(after.entries, id, 0);
            assert forall|j: int| 0 <= j < after.entries.len() implies after.entries[j].id
                != id by {
                if j < after.entries.len() - 1 {
                    assert(after.entries[j] == all[j]);
                    assert(all[k] == store.entries[k]);
                } else {
                    assert(after.entries[j] == all[store.entries.len() as int]);
                    assert(all[k] == store.entries[k]);
                }
            }
        }
    }
}

/// A reset of a store with entries leaves the earliest entry alone, with
/// the cursor on it, and a redo after it is refused at the boundary. A
/// store with one entry is left as it was.
pub proof fn law_reset_keeps_first(store: StoreView)
    requires
        store.wf(),
        store.entries.len() >= 1,
    ensures
        store.reset_to_initial() is Ok,
        store.reset_to_initial()->Ok_0.entries == seq![store.entries[0]],
        store.reset_to_initial()->Ok_0.entries.len() == 1,
        store.reset_to_initial()->Ok_0.cursor == Some(0nat),
        store.reset_to_initial()->Ok_0.redo() == Err::<StoreView, ErrorKind>(
            ErrorKind::AtBoundary,
        ),
        store.entries.len() == 1 ==> store.reset_to_initial()->Ok_0 == store,
{
    let next = store.reset_to_initial()->Ok_0;
    assert(next.entries =~= seq![store.entries[0]]);
    if store.entries.len() == 1 {
        assert(next.entries =~= store.entries);
    }
}

/// A push into a full store whose cursor stands on the newest entry
/// makes the oldest entry leave: the others move down by one, the new
/// entry is the last, the depth stays at the bound and the cursor is on
/// the new entry.
pub proof fn law_push_evicts_oldest(store: StoreView, entry: HistoryEntryView)
    requires
        store.wf(),
        store.entries.len() == store.max_depth,
        store.cursor == Some((store.entries.len() - 1) as nat),
    ensures
        store.push(entry).entries == store.entries.drop_first().push(entry),
        store.push(entry).entries.len() == store.max_depth,
        store.push(entry).cursor == Some((store.max_depth - 1) as nat),
        store.push(entry).current() == Some(entry),
        distinct_ids(store.entries.push(entry)) ==> store.push(entry).position(
            store.entries[0].id,
        ) is None,
{
    let after = store.push(entry);
    assert(store.entries.take(store.entries.len() as int) =~= store.entries);
    assert(after.entries =~= store.entries.drop_first().push(entry));
    if distinct_ids(store.entries.push(entry)) {
        let all = store.entries.push(entry);
        lemma_find_from(after.entries, store.entries[0].id, 0);
        assert forall|j: int| 0 <= j < after.entries.len() implies after.entries[j].id
            != store.entries[0].id by {
            assert(after.entries[j] == all[j + 1]);
            assert(all[0] == store.entries[0]);
        }
    }
}

/// From an empty store, the push after the bound was reached leaves the
/// first pushed entry out and all later ones in, in order.
pub proof fn law_first_eviction(max_depth: nat, items: Seq<HistoryEntryView>)
    requires
        max_depth >= 1,
        items.len() == max_depth + 1,
    ensures
        push_all(StoreView::empty(max_depth), items).entries == items.drop_first(),
        push_all(StoreView::empty(max_depth), items).entries.len() == max_depth,
        push_all(StoreView::empty(max_depth), items).cursor == Some((max_depth - 1) as nat),
        push_all(StoreView::empty(max_depth), items).current() == Some(items.last()),
        distinct_ids(items) ==> push_all(StoreView::empty(max_depth), items).position(
            items[0].id,
        ) is None,
{
    law_pushes_from_empty(max_depth, items);
    let after = push_all(StoreView::empty(max_depth), items);
    assert(items.skip(1) =~= items.drop_first());
    if distinct_ids(items) {
        lemma_find_from(after.entries, items[0].id, 0);
        assert forall|j: int| 0 <= j < after.entries.len() implies after.entries[j].id
            != items[0].id by {
            assert(after.entries[j] == items[j + 1]);
        }
    }
}

/// A jump succeeds exactly when some entry carries the identifier, and
/// then the cursor stands on the first such entry. An identifier that no
/// entry carries is refused as not found.
pub proof fn law_jump_finds_or_refuses(store: StoreView, id: Seq<char>)
    ensures
        (exists|i: int| 0 <= i < store.entries.len() && store.entries[i].id == id)
            <==> store.jump_to(id) is Ok,
        store.jump_to(id) is Err ==> store.jump_to(id) == Err::<StoreView, ErrorKind>(
            ErrorKind::EntryNotFound,
        ),
        store.jump_to(id) matches Ok(next) ==> next.current() matches Some(e) && e.id == id,
{
    lemma_find_from(store.entries, id, 0);
}

/// Where the identifiers are distinct, a jump to the identifier of the
/// entry at place `i` puts the cursor at `i`.
pub proof fn law_jump_reaches_entry(store: StoreView, i: int)
    requires
        distinct_ids(store.entries),
        0 <= i < store.entries.len(),
    ensures
        store.jump_to(store.entries[i].id) == Ok::<StoreView, ErrorKind>(
            StoreView { cursor: Some(i as nat), ..store },
        ),
{
    lemma_find_from(store.entries, store.entries[i].id, 0);
}

/// `can_undo` and `can_redo` say exactly whether undo and redo succeed.
pub proof fn law_can_matches_outcome(store: StoreView)
    ensures
        store.can_undo() <==> store.undo() is Ok,
        store.can_redo() <==> store.redo() is Ok,
        store.cursor is None ==> !store.can_undo() && !store.can_redo() && store.current()
            is None,
{
}

/// A trim keeps the newest entries, at most `keep` of them, and the
/// current entry stays current where it was kept.
pub proof fn law_trim_keeps_newest(store: StoreView, keep: nat)
    requires
        store.wf(),
    ensures
        store.trim(keep).entries.len() == if store.entries.len() > keep {
            keep
        } else {
            store.entries.len()
        },
        forall|k: int|
            0 <= k < store.trim(keep).entries.len() ==> #[trigger] store.trim(keep).entries[k]
                == store.entries[k + (store.entries.len() - store.trim(keep).entries.len())],
        store.cursor matches Some(i) && i + keep >= store.entries.len() && keep >= 1
            ==> store.trim(keep).current() == store.current(),
{
}

} // verus!
