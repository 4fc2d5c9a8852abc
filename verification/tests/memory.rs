use herdr_last_tab::clock::{current_unix_ms, unix_ms_from_elapsed};
use herdr_last_tab::memory::Memory;
use herdr_last_tab::persist::{LoadedMemory, PersistedState, StateFile};
use herdr_last_tab::store::StateStore;
use herdr_last_tab::tabs::{TabInfo, TabSnapshot};

fn snapshot(tabs: Vec<(&str, bool)>) -> TabSnapshot {
    TabSnapshot {
        tabs: tabs
            .into_iter()
            .map(|(tab_id, focused)| TabInfo {
                tab_id: tab_id.to_string(),
                workspace_id: tab_id.to_string(),
                focused,
            })
            .collect(),
    }
}

fn current(current: &str, last: Option<&str>) -> Memory {
    Memory::Current {
        current: current.to_string(),
        last: last.map(str::to_string),
    }
}

fn state(current: Option<&str>, last: Option<&str>) -> PersistedState {
    PersistedState {
        current_tab_id: current.map(str::to_string),
        last_tab_id: last.map(str::to_string),
        updated_unix_ms: 7,
    }
}

#[test]
fn focused_tab_is_the_first_marked_focused() {
    let tabs = snapshot(vec![("a", false), ("b", true), ("c", true)]);
    assert_eq!(tabs.focused_tab_id(), Some("b"));
    assert_eq!(snapshot(vec![("a", false)]).focused_tab_id(), None);
    assert!(tabs.contains_tab("c"));
    assert!(!tabs.contains_tab("d"));
}

#[test]
fn focus_events_shift_current_to_last() {
    let a = "a".to_string();
    let b = "b".to_string();
    let after_a = Memory::Empty.after_focus(&a);
    assert_eq!(after_a, current("a", None));
    let after_b = after_a.after_focus(&b);
    assert_eq!(after_b, current("b", Some("a")));
    assert_eq!(after_b.after_focus(&b), after_b);
    assert_eq!(after_b.after_focus(&a), current("a", Some("b")));
}

#[test]
fn toggle_goes_back_and_forth() {
    let tabs = snapshot(vec![("a", false), ("b", true)]);
    let memory = Memory::Empty.after_focus(&"a".to_string()).after_focus(&"b".to_string());
    let (kept, target) = memory.after_toggle(&tabs, &"b".to_string());
    assert_eq!(target, Some("a".to_string()));
    assert_eq!(kept, memory);
    let back = kept.after_focus(&"a".to_string());
    let (_, target) = back.after_toggle(&tabs, &"a".to_string());
    assert_eq!(target, Some("b".to_string()));
}

#[test]
fn toggle_seeds_clears_or_keeps() {
    let tabs = snapshot(vec![("b", true)]);
    assert_eq!(
        Memory::Empty.after_toggle(&tabs, &"b".to_string()),
        (current("b", None), None)
    );
    assert_eq!(
        current("b", None).after_toggle(&tabs, &"b".to_string()),
        (current("b", None), None)
    );
    assert_eq!(
        current("b", Some("a")).after_toggle(&tabs, &"b".to_string()),
        (current("b", None), None)
    );
    let both = snapshot(vec![("b", false), ("a", true)]);
    assert_eq!(
        current("b", Some("a")).after_toggle(&both, &"a".to_string()),
        (current("b", None), None)
    );
}

#[test]
fn close_events_forget_closed_tabs() {
    let closed_a = "a".to_string();
    assert_eq!(
        current("b", Some("a")).after_close(&closed_a, &Some("b".to_string())),
        current("b", None)
    );
    assert_eq!(
        current("a", Some("b")).after_close(&closed_a, &Some("c".to_string())),
        current("c", Some("b"))
    );
    assert_eq!(
        current("a", Some("b")).after_close(&closed_a, &Some("b".to_string())),
        current("b", None)
    );
    assert_eq!(current("a", Some("b")).after_close(&closed_a, &None), Memory::Empty);
    assert_eq!(
        current("c", Some("b")).after_close(&closed_a, &None),
        current("c", Some("b"))
    );
    assert_eq!(Memory::Empty.after_close(&closed_a, &None), Memory::Empty);
}

#[test]
fn stored_memory_loads_back_unchanged() {
    let memory = current("b", Some("a"));
    let stored = PersistedState::from_memory(&memory, 42);
    assert_eq!(stored, PersistedState { updated_unix_ms: 42, ..state(Some("b"), Some("a")) });
    assert_eq!(
        stored.into_memory(),
        LoadedMemory { memory, needs_repair: false }
    );
    assert_eq!(
        PersistedState::from_memory(&Memory::Empty, 1).into_memory(),
        LoadedMemory { memory: Memory::Empty, needs_repair: false }
    );
}

#[test]
fn stored_state_is_repaired_when_loaded() {
    assert_eq!(
        state(Some("a"), Some("a")).into_memory(),
        LoadedMemory { memory: current("a", None), needs_repair: true }
    );
    assert_eq!(
        state(Some("a"), Some("")).into_memory(),
        LoadedMemory { memory: current("a", None), needs_repair: true }
    );
    assert_eq!(
        state(Some(""), Some("b")).into_memory(),
        LoadedMemory { memory: Memory::Empty, needs_repair: true }
    );
    assert_eq!(
        state(None, Some("b")).into_memory(),
        LoadedMemory { memory: Memory::Empty, needs_repair: true }
    );
    assert_eq!(
        state(None, None).into_memory(),
        LoadedMemory { memory: Memory::Empty, needs_repair: false }
    );
}

#[test]
fn state_file_reads_load_as_expected() {
    assert_eq!(
        LoadedMemory::from_state_file(StateFile::Missing),
        LoadedMemory { memory: Memory::Empty, needs_repair: false }
    );
    assert_eq!(
        LoadedMemory::from_state_file(StateFile::Malformed),
        LoadedMemory { memory: Memory::Empty, needs_repair: true }
    );
    assert_eq!(
        LoadedMemory::from_state_file(StateFile::Parsed(state(Some("x"), None))),
        LoadedMemory { memory: current("x", None), needs_repair: false }
    );
}

#[test]
fn save_is_needed_for_repairs_and_changes() {
    let clean = LoadedMemory { memory: current("a", None), needs_repair: false };
    assert!(!clean.needs_save(&current("a", None)));
    assert!(clean.needs_save(&current("a", Some("b"))));
    assert!(clean.needs_save(&Memory::Empty));
    let dirty = LoadedMemory { memory: current("a", None), needs_repair: true };
    assert!(dirty.needs_save(&current("a", None)));
    assert!(current("a", Some("b")).same_as(&current("a", Some("b"))));
    assert!(!current("a", Some("b")).same_as(&current("a", None)));
    assert_eq!(current("a", Some("b")).copy(), current("a", Some("b")));
}

#[test]
fn unix_ms_saturates_and_defaults_to_zero() {
    assert_eq!(unix_ms_from_elapsed(None), 0);
    assert_eq!(unix_ms_from_elapsed(Some(1_782_090_000_000)), 1_782_090_000_000);
    assert_eq!(unix_ms_from_elapsed(Some(u128::from(u64::MAX) + 5)), u64::MAX);
    assert!(current_unix_ms() > 1_600_000_000_000);
}

#[test]
fn state_store_names_its_files() {
    let store = StateStore::new(std::path::Path::new("/tmp/plugin-state"));
    assert_eq!(store.state_dir(), std::path::Path::new("/tmp/plugin-state"));
    assert_eq!(store.state_path(), std::path::Path::new("/tmp/plugin-state/state.json"));
    assert_eq!(store.lock_path(), std::path::Path::new("/tmp/plugin-state/state.lock"));
}
