//! The memory as it is stored in `state.json`, and how a stored state is loaded back,
//! repaired where it holds empty or repeated ids.
use vstd::prelude::*;
use crate::memory::{nonempty, same_id, Memory, MemoryView};

verus! {

/// The fields of `state.json`.
#[derive(Debug, Clone, PartialEq, Eq)]
pub struct PersistedState {
    pub current_tab_id: Option<String>,
    pub last_tab_id: Option<String>,
    pub updated_unix_ms: u64,
}

/// The model of the stored fields.
pub struct PersistedView {
    pub current_tab_id: Option<Seq<char>>,
    pub last_tab_id: Option<Seq<char>>,
    pub updated_unix_ms: u64,
}

impl View for PersistedState {
    type V = PersistedView;

    open spec fn view(&self) -> PersistedView {
        PersistedView {
            current_tab_id: self.current_tab_id.deep_view(),
            last_tab_id: self.last_tab_id.deep_view(),
            updated_unix_ms: self.updated_unix_ms,
        }
    }
}

/// A memory as loaded, and whether the stored state has to be rewritten.
#[derive(Debug, Clone, PartialEq, Eq)]
pub struct LoadedMemory {
    pub memory: Memory,
    pub needs_repair: bool,
}

/// The model of a loaded memory.
pub struct LoadedView {
    pub memory: MemoryView,
    pub needs_repair: bool,
}

impl View for LoadedMemory {
    type V = LoadedView;

    open spec fn view(&self) -> LoadedView {
        LoadedView { memory: self.memory@, needs_repair: self.needs_repair }
    }
}

/// What reading `state.json` found.
#[derive(Debug, Clone, PartialEq, Eq)]
pub enum StateFile {
    /// There is no state file yet.
    Missing,
    /// The file does not hold a state.
    Malformed,
    Parsed(PersistedState),
}

/// The model of what was read.
pub enum StateFileView {
    Missing,
    Malformed,
    Parsed(PersistedView),
}

impl View for StateFile {
    type V = StateFileView;

    open spec fn view(&self) -> StateFileView {
        match self {
            StateFile::Missing => StateFileView::Missing,
            StateFile::Malformed => StateFileView::Malformed,
            StateFile::Parsed(state) => StateFileView::Parsed(state@),
        }
    }
}

/// The stored form of a memory, stamped with `updated_unix_ms`.
pub open spec fn persisted(memory: MemoryView, updated_unix_ms: u64) -> PersistedView {
    match memory {
        MemoryView::Empty => PersistedView {
            current_tab_id: None,
            last_tab_id: None,
            updated_unix_ms,
        },
        MemoryView::Current { current, last } => PersistedView {
            current_tab_id: Some(current),
            last_tab_id: last,
            updated_unix_ms,
        },
    }
}

/// The memory that a stored state gives: empty ids are dropped, a last tab equal to the
/// current one is dropped, and a repair is due whenever something was dropped.
pub open spec fn loaded(state: PersistedView) -> LoadedView {
    let current = nonempty(state.current_tab_id);
    let last = nonempty(state.last_tab_id);
    match current {
        Some(c) => {
            let kept_last = match last {
                Some(l) => if l != c {
                    Some(l)
                } else {
                    None
                },
                None => None,
            };
            LoadedView {
                memory: MemoryView::Current { current: c, last: kept_last },
                needs_repair: state.current_tab_id != Some(c) || state.last_tab_id != kept_last,
            }
        },
        None => LoadedView {
            memory: MemoryView::Empty,
            needs_repair: state.current_tab_id is Some || state.last_tab_id is Some,
        },
    }
}

/// The memory that a read of the state file gives: a missing file is an empty memory,
/// a malformed one is an empty memory that must be rewritten.
pub open spec fn loaded_from_file(file: StateFileView) -> LoadedView {
    match file {
        StateFileView::Missing => LoadedView { memory: MemoryView::Empty, needs_repair: false },
        StateFileView::Malformed => LoadedView { memory: MemoryView::Empty, needs_repair: true },
        StateFileView::Parsed(state) => loaded(state),
    }
}

/// An id when it is present and not empty.
fn nonempty_id(id: &Option<String>) -> (res: Option<String>)
    ensures
        res.deep_view() == nonempty(id.deep_view()),
{
    match id {
        Some(s) => {
            if s.as_str().is_empty() {
                None
            } else {
                Some(s.clone())
            }
        },
        None => None,
    }
}

impl PersistedState {
    /// The stored form of `memory`.
    pub fn from_memory(memory: &Memory, updated_unix_ms: u64) -> (res: Self)
        ensures
            res@ == persisted(memory@, updated_unix_ms),
    {
        match memory {
            Memory::Empty => PersistedState { current_tab_id: None, last_tab_id: None, updated_unix_ms },
            Memory::Current { current, last } => PersistedState {
                current_tab_id: Some(current.clone()),
                last_tab_id: match last {
                    Some(l) => Some(l.clone()),
                    None => None,
                },
                updated_unix_ms,
            },
        }
    }

    /// The memory that this stored state gives, and whether it must be rewritten.
    pub fn into_memory(self) -> (res: LoadedMemory)
        ensures
            res@ == loaded(self@),
    {
        let current = nonempty_id(&self.current_tab_id);
        let last = nonempty_id(&self.last_tab_id);
        match current {
            Some(c) => {
                let kept_last = match last {
                    Some(l) => {
                        if l != c {
                            Some(l)
                        } else {
                            None
                        }
                    },
                    None => None,
                };
                let current_changed = match &self.current_tab_id {
                    Some(stored) => *stored != c,
                    None => true,
                };
                let needs_repair = current_changed || !same_id(&self.last_tab_id, &kept_last);
                LoadedMemory { memory: Memory::Current { current: c, last: kept_last }, needs_repair }
            },
            None => LoadedMemory {
                memory: Memory::Empty,
                needs_repair: self.current_tab_id.is_some() || self.last_tab_id.is_some(),
            },
        }
    }
}

impl LoadedMemory {
    /// The memory that a read of the state file gives.
    pub fn from_state_file(file: StateFile) -> (res: LoadedMemory)
        ensures
            res@ == loaded_from_file(file@),
    {
        match file {
            StateFile::Missing => LoadedMemory { memory: Memory::Empty, needs_repair: false },
            StateFile::Malformed => LoadedMemory { memory: Memory::Empty, needs_repair: true },
            StateFile::Parsed(state) => state.into_memory(),
        }
    }

    /// Whether `next` has to be written back: the stored state needed a repair,
    /// or the memory changed.
    pub fn needs_save(&self, next: &Memory) -> (res: bool)
        ensures
            res == (self.needs_repair || next@ != self.memory@),
    {
        self.needs_repair || !next.same_as(&self.memory)
    }
}

/// Storing a well-formed memory and loading it again gives back the same memory,
/// with nothing to repair.
pub proof fn lemma_store_then_load(memory: MemoryView, updated_unix_ms: u64)
    requires
        memory.well_formed(),
    ensures
        loaded(persisted(memory, updated_unix_ms)) == (LoadedView { memory, needs_repair: false }),
{
}

/// Whatever a stored state holds, the memory loaded from it is well formed.
pub proof fn lemma_loaded_memory_is_well_formed(state: PersistedView)
    ensures
        loaded(state).memory.well_formed(),
{
}

/// A stored state that needs no repair is exactly the stored form of the memory it gives,
/// up to its time stamp.
pub proof fn lemma_no_repair_means_stored_form(state: PersistedView)
    requires
        !loaded(state).needs_repair,
    ensures
        persisted(loaded(state).memory, state.updated_unix_ms) == state,
{
}

/// Any state file, malformed or not, loads to a well-formed memory, and once that memory
/// is written back, loading it again needs no repair.
pub proof fn lemma_repair_is_final(file: StateFileView, updated_unix_ms: u64)
    ensures
        loaded_from_file(file).memory.well_formed(),
        loaded(persisted(loaded_from_file(file).memory, updated_unix_ms)) == (LoadedView {
            memory: loaded_from_file(file).memory,
            needs_repair: false,
        }),
{
    lemma_store_then_load(loaded_from_file(file).memory, updated_unix_ms);
}

} // verus!
