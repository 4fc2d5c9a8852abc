use herdr_last_tab::clock::current_unix_ms;
use herdr_last_tab::command::Subcommand;
use herdr_last_tab::error::PluginError;
use herdr_last_tab::memory::Memory;
use herdr_last_tab::persist::{LoadedMemory, PersistedState, StateFile};
use herdr_last_tab::session::{
    closed, event_answers, focused, run, toggle, Action, Event, Invocation, Stage, Update,
};
use herdr_last_tab::tabs::{TabInfo, TabSnapshot};

/// A stand-in for Herdr and the state directory, driven by the library's steps.
struct World {
    tabs: Vec<(String, bool)>,
    file: StateFile,
    focused: Vec<String>,
    writes: usize,
}

impl World {
    fn new() -> Self {
        World {
            tabs: Vec::new(),
            file: StateFile::Missing,
            focused: Vec::new(),
            writes: 0,
        }
    }

    fn set_tabs(&mut self, tabs: &[(&str, bool)]) {
        self.tabs = tabs.iter().map(|(id, f)| (id.to_string(), *f)).collect();
    }

    fn write_memory(&mut self, memory: &Memory) {
        self.file = StateFile::Parsed(PersistedState::from_memory(memory, current_unix_ms()));
        self.writes += 1;
    }

    fn snapshot(&self) -> TabSnapshot {
        TabSnapshot {
            tabs: self
                .tabs
                .iter()
                .map(|(id, f)| TabInfo {
                    tab_id: id.clone(),
                    workspace_id: id.clone(),
                    focused: *f,
                })
                .collect(),
        }
    }

    fn read_memory(&self) -> Memory {
        LoadedMemory::from_state_file(self.file.clone()).memory
    }

    fn run(&mut self, subcommand: Subcommand, event_json: Option<String>) -> Result<(), PluginError> {
        let invocation = Invocation {
            subcommand,
            event_json,
            context_json: None,
        };
        let mut stage = Stage::Start;
        let mut event = Event::Started;
        loop {
            assert!(event_answers(&stage, &event));
            let (next, action) = run(&invocation, stage, event);
            stage = next;
            event = match action {
                Action::ListTabs => Event::TabsListed(Ok(self.snapshot())),
                Action::LoadState => Event::StateLoaded(Ok(self.file.clone())),
                Action::SaveState(memory) => {
                    if let Some(memory) = memory {
                        self.write_memory(&memory);
                    }
                    Event::StateSaved(Ok(()))
                }
                Action::FocusTab(tab_id) => {
                    self.focused.push(tab_id);
                    Event::TabFocused(Ok(()))
                }
                Action::Finish(outcome) => return outcome,
            };
        }
    }
}

fn event_json(tab_id: &str) -> String {
    format!(r#"{{"event":"tab_focused","data":{{"type":"tab_focused","tab_id":"{tab_id}"}}}}"#)
}

fn current(current: &str, last: Option<&str>) -> Memory {
    Memory::Current {
        current: current.to_string(),
        last: last.map(str::to_string),
    }
}

#[test]
fn focused_event_updates_current_and_last_tab_ids() {
    let mut world = World::new();
    world.set_tabs(&[("workspace-a", true), ("workspace-b", false)]);
    world
        .run(Subcommand::Focused, Some(event_json("workspace-a")))
        .expect("first focused event should succeed");
    world.set_tabs(&[("workspace-b", true), ("workspace-a", false)]);
    world
        .run(Subcommand::Focused, Some(event_json("workspace-b")))
        .expect("second focused event should succeed");
    assert_eq!(world.read_memory(), current("workspace-b", Some("workspace-a")));
}

#[test]
fn stale_focused_event_is_ignored() {
    let mut world = World::new();
    world.write_memory(&current("workspace-a", None));
    world.set_tabs(&[("workspace-a", true), ("workspace-b", false)]);
    world
        .run(Subcommand::Focused, Some(event_json("workspace-b")))
        .expect("stale event should be a clean no-op");
    assert_eq!(world.read_memory(), current("workspace-a", None));
    assert_eq!(world.writes, 1);
}

#[test]
fn toggle_focuses_remembered_tab_by_id() {
    let mut world = World::new();
    world.write_memory(&current("workspace-b", Some("workspace-a")));
    world.set_tabs(&[("workspace-b", true), ("workspace-a", false)]);
    world.run(Subcommand::Toggle, None).expect("toggle should succeed");
    assert_eq!(world.focused, vec!["workspace-a".to_string()]);
}

#[test]
fn toggle_seeds_empty_state_without_focusing() {
    let mut world = World::new();
    world.set_tabs(&[("workspace-a", true)]);
    world.run(Subcommand::Toggle, None).expect("toggle should seed state");
    assert!(world.focused.is_empty());
    assert_eq!(world.read_memory(), current("workspace-a", None));
}

#[test]
fn toggle_clears_stale_last_tab_without_focusing() {
    let mut world = World::new();
    world.write_memory(&current("workspace-b", Some("workspace-a")));
    world.set_tabs(&[("workspace-b", true)]);
    world.run(Subcommand::Toggle, None).expect("toggle should repair stale last");
    assert!(world.focused.is_empty());
    assert_eq!(world.read_memory(), current("workspace-b", None));
}

#[test]
fn closed_event_clears_remembered_tab() {
    let mut world = World::new();
    world.write_memory(&current("workspace-b", Some("workspace-a")));
    world.set_tabs(&[("workspace-b", true)]);
    world
        .run(Subcommand::Closed, Some(event_json("workspace-a")))
        .expect("closed event should succeed");
    assert_eq!(world.read_memory(), current("workspace-b", None));
}

#[test]
fn malformed_state_is_repaired() {
    let mut world = World::new();
    world.file = StateFile::Malformed;
    world.set_tabs(&[("workspace-a", true)]);
    world.run(Subcommand::Toggle, None).expect("toggle should repair malformed state");
    assert_eq!(world.read_memory(), current("workspace-a", None));
}

#[test]
fn toggles_between_last_two_tabs_by_id() {
    let mut world = World::new();
    world.set_tabs(&[("tab-a", true), ("tab-b", false)]);
    world.run(Subcommand::Focused, Some(event_json("tab-a"))).unwrap();
    world.set_tabs(&[("tab-b", true), ("tab-a", false)]);
    world.run(Subcommand::Focused, Some(event_json("tab-b"))).unwrap();
    world.run(Subcommand::Toggle, None).unwrap();
    assert_eq!(world.focused, vec!["tab-a".to_string()]);
    world.set_tabs(&[("tab-a", true), ("tab-b", false)]);
    world.run(Subcommand::Focused, Some(event_json("tab-a"))).unwrap();
    world.run(Subcommand::Toggle, None).unwrap();
    assert_eq!(world.focused, vec!["tab-a".to_string(), "tab-b".to_string()]);
}

#[test]
fn closed_remembered_tab_clears_target_and_makes_toggle_noop() {
    let mut world = World::new();
    world.set_tabs(&[("tab-a", true), ("tab-b", false)]);
    world.run(Subcommand::Focused, Some(event_json("tab-a"))).unwrap();
    world.set_tabs(&[("tab-b", true), ("tab-a", false)]);
    world.run(Subcommand::Focused, Some(event_json("tab-b"))).unwrap();
    world.set_tabs(&[("tab-b", true)]);
    world.run(Subcommand::Closed, Some(event_json("tab-a"))).unwrap();
    world.run(Subcommand::Toggle, None).unwrap();
    assert!(world.focused.is_empty());
    assert_eq!(
        world.file,
        StateFile::Parsed(PersistedState {
            current_tab_id: Some("tab-b".to_string()),
            last_tab_id: None,
            updated_unix_ms: match &world.file {
                StateFile::Parsed(state) => state.updated_unix_ms,
                _ => 0,
            },
        })
    );
}

#[test]
fn malformed_state_file_is_replaced_without_focusing() {
    let mut world = World::new();
    world.file = StateFile::Malformed;
    world.set_tabs(&[("tab-a", true)]);
    world.run(Subcommand::Toggle, None).unwrap();
    assert!(world.focused.is_empty());
    assert_eq!(world.read_memory(), current("tab-a", None));
}

#[test]
fn event_hooks_without_a_tab_finish_at_once() {
    let mut world = World::new();
    world.set_tabs(&[("tab-a", true)]);
    world.run(Subcommand::Focused, None).unwrap();
    world.run(Subcommand::Closed, Some("not json".to_string())).unwrap();
    assert_eq!(world.file, StateFile::Missing);
}

#[test]
fn failures_end_the_run() {
    let invocation = Invocation {
        subcommand: Subcommand::Toggle,
        event_json: None,
        context_json: None,
    };
    let (stage, action) = run(&invocation, Stage::Start, Event::Started);
    assert!(matches!(action, Action::ListTabs));
    let (stage, action) = run(
        &invocation,
        stage,
        Event::TabsListed(Err(PluginError::new("no herdr".to_string()))),
    );
    assert!(matches!(stage, Stage::Done));
    assert!(matches!(action, Action::Finish(Err(e)) if e.message() == "no herdr"));
}

#[test]
fn toggle_uses_context_tab_when_nothing_is_focused() {
    let tabs = TabSnapshot {
        tabs: vec![
            TabInfo { tab_id: "a".to_string(), workspace_id: "w".to_string(), focused: false },
            TabInfo { tab_id: "b".to_string(), workspace_id: "w".to_string(), focused: false },
        ],
    };
    let update = toggle(&Some(r#"{"tab_id":"b"}"#.to_string()), tabs.clone());
    assert!(matches!(update, Update::Toggle { ref current_tab_id, .. } if current_tab_id == "b"));
    let update = toggle(&Some(r#"{"tab_id":"c"}"#.to_string()), tabs.clone());
    assert!(matches!(update, Update::Keep));
    assert!(matches!(toggle(&None, tabs.clone()), Update::Keep));
    assert!(focused("a".to_string(), &tabs).is_none());
    assert!(matches!(
        closed("a".to_string(), &tabs),
        Update::Close { focused_tab_id: None, .. }
    ));
}
