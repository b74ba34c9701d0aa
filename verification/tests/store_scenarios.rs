use data_analyst::commands::operations::build_history_entry;
use data_analyst::data::store::DataStore;
use data_analyst::error::{DataAnalystError, ErrorKind};
use data_analyst::models::history::{HistoryEntry, OperationType};
use polars::frame::DataFrame;
use polars::prelude::Column;

fn table(rows: i64) -> DataFrame {
    let values: Vec<i64> = (0..rows).collect();
    DataFrame::new(vec![Column::new("n".into(), values)]).unwrap()
}

fn entry(id: &str, rows: i64) -> HistoryEntry {
    build_history_entry(
        table(rows),
        OperationType::DropAllNulls,
        id.to_string(),
        "2024-01-01T00:00:00+00:00".to_string(),
        "删除全空行".to_string(),
        "2024-01-01T00:00:00+00:00".to_string(),
    )
}

fn ids(store: &DataStore) -> Vec<String> {
    store.get_history().into_iter().map(|info| info.id).collect()
}

fn current_id(store: &DataStore) -> Option<String> {
    store.get_current_entry().map(|e| e.id.clone())
}

fn kind_of(result: Result<(), DataAnalystError>) -> Option<ErrorKind> {
    match result {
        Ok(()) => None,
        Err(e) => e.kind(),
    }
}

#[test]
fn empty_store_has_no_current() {
    let mut store = DataStore::new();
    assert!(store.get_current().is_none());
    assert!(store.get_current_info().is_none());
    assert!(store.get_current_entry().is_none());
    assert_eq!(store.get_current_index(), None);
    assert_eq!(store.history_len(), 0);
    assert!(!store.can_undo());
    assert!(!store.can_redo());
    assert_eq!(kind_of(store.undo()), Some(ErrorKind::NoData));
    assert_eq!(kind_of(store.redo()), Some(ErrorKind::NoData));
    assert_eq!(store.get_current_index(), None);
}

#[test]
fn default_store_is_empty_with_depth_fifty() {
    let mut store = DataStore::default();
    assert_eq!(store.history_len(), 0);
    for i in 0..60 {
        store.push_operation(entry(&format!("e{}", i), 1));
    }
    assert_eq!(store.history_len(), 50);
    assert_eq!(store.get_current_index(), Some(49));
    assert_eq!(ids(&store)[0], "e10");
    assert_eq!(current_id(&store), Some("e59".to_string()));
}

#[test]
fn single_entry_allows_neither_undo_nor_redo() {
    let mut store = DataStore::new();
    store.push_operation(entry("import", 3));
    assert!(!store.can_undo());
    assert!(!store.can_redo());
    assert!(store.reset_to_initial().is_ok());
    assert_eq!(ids(&store), vec!["import".to_string()]);
    assert_eq!(store.get_current_index(), Some(0));
    assert_eq!(store.get_current().unwrap().height(), 3);
}

#[test]
fn depth_three_scenario() {
    let mut store = DataStore::with_max_history(3);
    store.push_operation(entry("A", 1));
    store.push_operation(entry("B", 2));
    store.push_operation(entry("C", 3));
    store.push_operation(entry("D", 4));
    assert_eq!(ids(&store), vec!["B".to_string(), "C".to_string(), "D".to_string()]);
    assert_eq!(store.get_current_index(), Some(2));
    assert_eq!(current_id(&store), Some("D".to_string()));
    assert_eq!(store.get_current().unwrap().height(), 4);
    assert_eq!(kind_of(store.jump_to("A")), Some(ErrorKind::EntryNotFound));

    assert!(store.undo().is_ok());
    assert!(store.undo().is_ok());
    assert_eq!(store.get_current_index(), Some(0));
    assert_eq!(current_id(&store), Some("B".to_string()));
    assert!(!store.can_undo());

    store.push_operation(entry("E", 5));
    assert_eq!(ids(&store), vec!["B".to_string(), "E".to_string()]);
    assert_eq!(store.get_current_index(), Some(1));
    assert!(!store.can_redo());
    assert_eq!(kind_of(store.redo()), Some(ErrorKind::AtBoundary));
    assert_eq!(kind_of(store.jump_to("C")), Some(ErrorKind::EntryNotFound));
    assert_eq!(kind_of(store.jump_to("D")), Some(ErrorKind::EntryNotFound));
}

#[test]
fn cursor_follows_pushes_without_eviction() {
    let mut store = DataStore::with_max_history(5);
    for k in 1..=5usize {
        store.push_operation(entry(&format!("e{}", k), k as i64));
        assert_eq!(store.get_current_index(), Some(k - 1));
        assert_eq!(store.history_len(), k);
        assert!(store.history_len() <= 5);
    }
    store.push_operation(entry("e6", 6));
    assert_eq!(store.history_len(), 5);
    assert_eq!(store.get_current_index(), Some(4));
}

#[test]
fn undo_then_redo_restores_cursor() {
    let mut store = DataStore::new();
    store.push_operation(entry("a", 1));
    store.push_operation(entry("b", 2));
    store.push_operation(entry("c", 3));
    assert!(store.undo().is_ok());
    let before = store.get_current_index();
    let before_id = current_id(&store);
    assert!(store.undo().is_ok());
    assert_eq!(store.get_current_index(), Some(0));
    assert!(store.redo().is_ok());
    assert_eq!(store.get_current_index(), before);
    assert_eq!(current_id(&store), before_id);
    assert_eq!(store.get_current().unwrap().height(), 2);
    assert_eq!(store.history_len(), 3);
}

#[test]
fn push_after_undo_discards_later_entries() {
    let mut store = DataStore::new();
    for k in 0..5 {
        store.push_operation(entry(&format!("e{}", k), 1));
    }
    assert!(store.undo().is_ok());
    assert!(store.undo().is_ok());
    assert!(store.undo().is_ok());
    let cursor_before = store.get_current_index().unwrap();
    assert_eq!(cursor_before, 1);
    store.push_operation(entry("new", 1));
    assert_eq!(store.get_history().len(), cursor_before + 2);
    assert_eq!(ids(&store), vec!["e0".to_string(), "e1".to_string(), "new".to_string()]);
    assert!(!store.can_redo());
    assert!(store.redo().is_err());
    assert_eq!(kind_of(store.jump_to("e3")), Some(ErrorKind::EntryNotFound));
}

#[test]
fn reset_leaves_first_entry_only() {
    let mut store = DataStore::new();
    for k in 0..4 {
        store.push_operation(entry(&format!("e{}", k), k + 1));
    }
    assert!(store.reset_to_initial().is_ok());
    assert_eq!(store.history_len(), 1);
    assert_eq!(store.get_current_index(), Some(0));
    assert_eq!(ids(&store), vec!["e0".to_string()]);
    assert_eq!(store.get_current().unwrap().height(), 1);
    assert_eq!(kind_of(store.redo()), Some(ErrorKind::AtBoundary));
}

#[test]
fn reset_on_empty_store_is_refused() {
    let mut store = DataStore::new();
    let refused = store.reset_to_initial();
    assert_eq!(kind_of(refused), Some(ErrorKind::EmptyHistory));
    assert_eq!(store.history_len(), 0);
    assert_eq!(store.get_current_index(), None);
}

#[test]
fn eviction_drops_oldest_entry() {
    let mut store = DataStore::with_max_history(4);
    for k in 0..4 {
        store.push_operation(entry(&format!("e{}", k), 1));
    }
    assert_eq!(store.history_len(), 4);
    store.push_operation(entry("e4", 7));
    assert_eq!(store.history_len(), 4);
    assert!(!ids(&store).contains(&"e0".to_string()));
    assert_eq!(
        ids(&store),
        vec!["e1".to_string(), "e2".to_string(), "e3".to_string(), "e4".to_string()]
    );
    assert_eq!(store.get_current_index(), Some(3));
    assert_eq!(current_id(&store), Some("e4".to_string()));
    assert_eq!(store.get_current().unwrap().height(), 7);
}

#[test]
fn depth_one_keeps_the_newest_entry() {
    let mut store = DataStore::with_max_history(1);
    store.push_operation(entry("a", 1));
    store.push_operation(entry("b", 2));
    assert_eq!(ids(&store), vec!["b".to_string()]);
    assert_eq!(store.get_current_index(), Some(0));
    assert!(!store.can_undo());
}

#[test]
fn jump_to_unknown_id_leaves_cursor() {
    let mut store = DataStore::new();
    store.push_operation(entry("a", 1));
    store.push_operation(entry("b", 2));
    store.push_operation(entry("c", 3));
    assert!(store.jump_to("a").is_ok());
    assert_eq!(store.get_current_index(), Some(0));
    let refused = store.jump_to("zzz");
    match &refused {
        Err(DataAnalystError::InvalidOperation(text)) => {
            assert_eq!(text, "找不到历史节点: zzz");
        }
        _ => panic!("a jump to an unknown identifier must be refused"),
    }
    assert_eq!(kind_of(refused), Some(ErrorKind::EntryNotFound));
    assert_eq!(store.get_current_index(), Some(0));
    assert!(store.jump_to("c").is_ok());
    assert_eq!(store.get_current_index(), Some(2));
    assert!(store.jump_to("b").is_ok());
    assert_eq!(current_id(&store), Some("b".to_string()));
}

#[test]
fn jump_on_empty_store_is_refused() {
    let mut store = DataStore::new();
    assert_eq!(kind_of(store.jump_to("a")), Some(ErrorKind::EntryNotFound));
    assert_eq!(store.get_current_index(), None);
}

#[test]
fn jump_picks_first_of_equal_ids() {
    let mut store = DataStore::new();
    store.push_operation(entry("same", 1));
    store.push_operation(entry("same", 2));
    assert!(store.jump_to("same").is_ok());
    assert_eq!(store.get_current_index(), Some(0));
}

#[test]
fn refused_moves_say_why() {
    let mut store = DataStore::new();
    match store.undo() {
        Err(e) => assert_eq!(e.message(), "Invalid operation: 没有数据"),
        Ok(()) => panic!("undo on an empty store must be refused"),
    }
    store.push_operation(entry("a", 1));
    match store.undo() {
        Err(e) => assert_eq!(e.message(), "Invalid operation: 已经在最早状态，无法撤销"),
        Ok(()) => panic!("undo at the earliest entry must be refused"),
    }
    match store.redo() {
        Err(e) => assert_eq!(e.message(), "Invalid operation: 已经在最新状态，无法重做"),
        Ok(()) => panic!("redo at the latest entry must be refused"),
    }
    assert_eq!(store.get_current_index(), Some(0));
    store.clear();
    match store.reset_to_initial() {
        Err(e) => assert_eq!(e.message(), "Invalid operation: 没有历史记录"),
        Ok(()) => panic!("reset on an empty store must be refused"),
    }
}

#[test]
fn clear_empties_the_store() {
    let mut store = DataStore::with_max_history(2);
    store.push_operation(entry("a", 1));
    store.push_operation(entry("b", 1));
    store.clear();
    assert_eq!(store.history_len(), 0);
    assert_eq!(store.get_current_index(), None);
    assert!(store.get_current().is_none());
    store.push_operation(entry("c", 1));
    store.push_operation(entry("d", 1));
    store.push_operation(entry("e", 1));
    assert_eq!(store.history_len(), 2);
}

#[test]
fn trim_keeps_newest_and_moves_cursor() {
    let mut store = DataStore::new();
    for k in 0..6 {
        store.push_operation(entry(&format!("e{}", k), 1));
    }
    assert!(store.undo().is_ok());
    assert_eq!(store.get_current_index(), Some(4));
    store.trim_history(3);
    assert_eq!(ids(&store), vec!["e3".to_string(), "e4".to_string(), "e5".to_string()]);
    assert_eq!(store.get_current_index(), Some(1));
    assert_eq!(current_id(&store), Some("e4".to_string()));
    store.trim_history(10);
    assert_eq!(store.history_len(), 3);
    assert_eq!(store.get_current_index(), Some(1));
}

#[test]
fn trim_clamps_cursor_of_evicted_entry() {
    let mut store = DataStore::new();
    for k in 0..5 {
        store.push_operation(entry(&format!("e{}", k), 1));
    }
    assert!(store.jump_to("e1").is_ok());
    store.trim_history(2);
    assert_eq!(ids(&store), vec!["e3".to_string(), "e4".to_string()]);
    assert_eq!(store.get_current_index(), Some(0));
}

#[test]
fn trim_to_nothing_empties_the_store() {
    let mut store = DataStore::new();
    store.push_operation(entry("a", 1));
    store.push_operation(entry("b", 1));
    store.trim_history(0);
    assert_eq!(store.history_len(), 0);
    assert_eq!(store.get_current_index(), None);
    assert!(!store.can_redo());
    assert!(store.redo().is_err());
}

#[test]
fn history_list_mirrors_entries() {
    let mut store = DataStore::new();
    store.push_operation(entry("a", 2));
    store.push_operation(entry("b", 5));
    let list = store.get_history();
    assert_eq!(list.len(), 2);
    assert_eq!(list[0].id, "a");
    assert_eq!(list[1].id, "b");
    assert_eq!(list[1].metadata.rows, 5);
    assert_eq!(list[1].metadata.id, "b");
    assert_eq!(list[1].metadata.name, "删除全空行");
    assert_eq!(list[1].metadata.file_path, "");
    assert_eq!(list[1].description, "删除全空行");
    assert_eq!(list[1].timestamp, "2024-01-01T00:00:00+00:00");
    assert!(matches!(list[0].operation, OperationType::DropAllNulls));
    assert_eq!(store.get_current_info().unwrap().rows, 5);
}
