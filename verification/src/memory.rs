//! The remembered tabs, how each kind of event changes them, and how they are
//! persisted and loaded again.
use vstd::prelude::*;
use crate::tabs::{has_tab, TabSnapshot, TabView};

verus! {

/// The tabs the plugin remembers: the current one and the one focused before it.
#[derive(Debug, Clone, PartialEq, Eq)]
pub enum Memory {
    Empty,
    Current { current: String, last: Option<String> },
}

/// The model of the remembered tabs.
pub enum MemoryView {
    Empty,
    Current { current: Seq<char>, last: Option<Seq<char>> },
}

impl View for Memory {
    type V = MemoryView;

    open spec fn view(&self) -> MemoryView {
        match self {
            Memory::Empty => MemoryView::Empty,
            Memory::Current { current, last } => MemoryView::Current {
                current: current@,
                last: last.deep_view(),
            },
        }
    }
}

/// `id` when it is present and not empty.
pub open spec fn nonempty(id: Option<Seq<char>>) -> Option<Seq<char>> {
    match id {
        Some(s) => if s.len() > 0 {
            Some(s)
        } else {
            None
        },
        None => None,
    }
}

impl MemoryView {
    /// No remembered id is empty, and the last tab differs from the current one.
    pub open spec fn well_formed(self) -> bool {
        match self {
            MemoryView::Empty => true,
            MemoryView::Current { current, last } => current.len() > 0 && match last {
                Some(l) => l.len() > 0 && l != current,
                None => true,
            },
        }
    }

    /// The memory after a toggle while `current_tab_id` is the current tab, and the tab
    /// to focus: the remembered last tab, when it still exists and is not the current one.
    /// A last tab that is gone or current is forgotten; an empty memory is seeded.
    pub open spec fn after_toggle(self, tabs: Seq<TabView>, current_tab_id: Seq<char>) -> (
        MemoryView,
        Option<Seq<char>>,
    ) {
        match self {
            MemoryView::Empty => (MemoryView::Current { current: current_tab_id, last: None }, None),
            MemoryView::Current { current, last } => match last {
                None => (self, None),
                Some(l) => if !has_tab(tabs, l) || l == current_tab_id {
                    (MemoryView::Current { current, last: None }, None)
                } else {
                    (self, Some(l))
                },
            },
        }
    }

    /// The memory after a focus event for `tab_id`: it becomes current and the
    /// previous current tab becomes the last one; a repeated event changes nothing.
    pub open spec fn after_focus(self, tab_id: Seq<char>) -> MemoryView {
        match self {
            MemoryView::Empty => MemoryView::Current { current: tab_id, last: None },
            MemoryView::Current { current, last } => if current == tab_id {
                self
            } else {
                MemoryView::Current { current: tab_id, last: Some(current) }
            },
        }
    }

    /// The memory after `closed` was closed while `focused` is the focused tab:
    /// a closed current tab gives way to the focused one, and a last tab that is the
    /// closed one or the new current one is forgotten.
    pub open spec fn after_close(self, closed: Seq<char>, focused: Option<Seq<char>>) -> MemoryView {
        match self {
            MemoryView::Empty => MemoryView::Empty,
            MemoryView::Current { current, last } => {
                let next_current = if current == closed {
                    focused
                } else {
                    Some(current)
                };
                match next_current {
                    Some(c) => MemoryView::Current {
                        current: c,
                        last: match last {
                            Some(l) => if l != closed && l != c {
                                Some(l)
                            } else {
                                None
                            },
                            None => None,
                        },
                    },
                    None => MemoryView::Empty,
                }
            },
        }
    }
}

/// A copy of an optional id.
fn copy_id(id: &Option<String>) -> (res: Option<String>)
    ensures
        res.deep_view() == id.deep_view(),
{
    match id {
        Some(s) => Some(s.clone()),
        None => None,
    }
}

/// Whether two optional ids are the same.
pub(crate) fn same_id(a: &Option<String>, b: &Option<String>) -> (res: bool)
    ensures
        res == (a.deep_view() == b.deep_view()),
{
    match (a, b) {
        (Some(x), Some(y)) => *x == *y,
        (None, None) => true,
        _ => false,
    }
}

impl Memory {
    /// Whether two memories remember the same tabs.
    pub fn same_as(&self, other: &Memory) -> (res: bool)
        ensures
            res == (self@ == other@),
    {
        match (self, other) {
            (Memory::Empty, Memory::Empty) => true,
            (Memory::Current { current: c1, last: l1 }, Memory::Current { current: c2, last: l2 }) => {
                *c1 == *c2 && same_id(l1, l2)
            },
            _ => false,
        }
    }

    /// A copy of this memory.
    pub fn copy(&self) -> (res: Memory)
        ensures
            res@ == self@,
    {
        match self {
            Memory::Empty => Memory::Empty,
            Memory::Current { current, last } => Memory::Current {
                current: current.clone(),
                last: copy_id(last),
            },
        }
    }

    /// The memory after a toggle, and the tab to focus (see `MemoryView::after_toggle`).
    pub fn after_toggle(&self, snapshot: &TabSnapshot, current_tab_id: &String) -> (res: (
        Memory,
        Option<String>,
    ))
        ensures
            (res.0@, res.1.deep_view()) == self@.after_toggle(snapshot@, current_tab_id@),
    {
        match self {
            Memory::Empty => (Memory::Current { current: current_tab_id.clone(), last: None }, None),
            Memory::Current { current, last } => match last {
                None => (self.copy(), None),
                Some(l) => {
                    if !snapshot.contains_tab(l.as_str()) || *l == *current_tab_id {
                        (Memory::Current { current: current.clone(), last: None }, None)
                    } else {
                        (self.copy(), Some(l.clone()))
                    }
                },
            },
        }
    }

    /// The memory after a focus event (see `MemoryView::after_focus`).
    pub fn after_focus(&self, tab_id: &String) -> (res: Memory)
        ensures
            res@ == self@.after_focus(tab_id@),
    {
        match self {
            Memory::Empty => Memory::Current { current: tab_id.clone(), last: None },
            Memory::Current { current, last: _ } => {
                if *current == *tab_id {
                    self.copy()
                } else {
                    Memory::Current { current: tab_id.clone(), last: Some(current.clone()) }
                }
            },
        }
    }

    /// The memory after a close event (see `MemoryView::after_close`).
    pub fn after_close(&self, closed: &String, focused: &Option<String>) -> (res: Memory)
        ensures
            res@ == self@.after_close(closed@, focused.deep_view()),
    {
        match self {
            Memory::Empty => Memory::Empty,
            Memory::Current { current, last } => {
                let next_current = if *current == *closed {
                    copy_id(focused)
                } else {
                    Some(current.clone())
                };
                match next_current {
                    Some(c) => {
                        let next_last = match last {
                            Some(l) => {
                                if *l != *closed && *l != c {
                                    Some(l.clone())
                                } else {
                                    None
                                }
                            },
                            None => None,
                        };
                        Memory::Current { current: c, last: next_last }
                    },
                    None => Memory::Empty,
                }
            },
        }
    }
}

/// A toggle keeps the memory well formed when the current tab has an id.
pub proof fn lemma_toggle_keeps_well_formed(memory: MemoryView, tabs: Seq<TabView>, current_tab_id: Seq<char>)
    requires
        memory.well_formed(),
        current_tab_id.len() > 0,
    ensures
        memory.after_toggle(tabs, current_tab_id).0.well_formed(),
{
}

/// A focus event keeps the memory well formed when its tab has an id.
pub proof fn lemma_focus_keeps_well_formed(memory: MemoryView, tab_id: Seq<char>)
    requires
        memory.well_formed(),
        tab_id.len() > 0,
    ensures
        memory.after_focus(tab_id).well_formed(),
{
}

/// A close event keeps the memory well formed when the focused tab, if any, has an id.
pub proof fn lemma_close_keeps_well_formed(memory: MemoryView, closed: Seq<char>, focused: Option<Seq<char>>)
    requires
        memory.well_formed(),
        focused matches Some(f) ==> f.len() > 0,
    ensures
        memory.after_close(closed, focused).well_formed(),
{
}

/// Whatever the ids, no event leaves the last tab equal to the current one
/// when it was not so before.
pub proof fn lemma_last_never_current(memory: MemoryView, tabs: Seq<TabView>, id: Seq<char>, focused: Option<Seq<char>>)
    requires
        memory matches MemoryView::Current { current, last: Some(l) } ==> l != current,
    ensures
        memory.after_toggle(tabs, id).0 matches MemoryView::Current { current, last: Some(l) } ==> l != current,
        memory.after_focus(id) matches MemoryView::Current { current, last: Some(l) } ==> l != current,
        memory.after_close(id, focused) matches MemoryView::Current { current, last: Some(l) } ==> l != current,
{
}

/// A toggle focuses a tab only when it is the remembered last tab, that tab still
/// exists and is not the current tab; the memory is then left as it was.
pub proof fn lemma_toggle_target(memory: MemoryView, tabs: Seq<TabView>, current_tab_id: Seq<char>)
    ensures
        memory.after_toggle(tabs, current_tab_id).1 matches Some(target) ==> {
            &&& memory matches MemoryView::Current { current: _, last: Some(l) }
            &&& l == target
            &&& has_tab(tabs, target)
            &&& target != current_tab_id
            &&& memory.after_toggle(tabs, current_tab_id).0 == memory
        },
        memory matches MemoryView::Current { current: _, last: Some(l) } ==> (
            has_tab(tabs, l) && l != current_tab_id <==> memory.after_toggle(tabs, current_tab_id).1 == Some(l)),
{
}

/// Focusing tab `a` and then tab `b` remembers `b` as current and `a` as last, whatever
/// was remembered before.
pub proof fn lemma_two_focus_events(memory: MemoryView, a: Seq<char>, b: Seq<char>)
    requires
        a != b,
    ensures
        memory.after_focus(a).after_focus(b) == (MemoryView::Current { current: b, last: Some(a) }),
{
}

/// After A then B were focused, a toggle goes back to A; once A is focused again,
/// the next toggle goes back to B.
pub proof fn lemma_toggle_goes_back_and_forth(
    memory: MemoryView,
    a: Seq<char>,
    b: Seq<char>,
    tabs: Seq<TabView>,
)
    requires
        a != b,
        has_tab(tabs, a),
        has_tab(tabs, b),
    ensures
        ({
            let after_b = memory.after_focus(a).after_focus(b);
            let (kept, target) = after_b.after_toggle(tabs, b);
            &&& target == Some(a)
            &&& kept == after_b
            &&& kept.after_focus(a).after_toggle(tabs, a).1 == Some(b)
        }),
{
    lemma_two_focus_events(memory, a, b);
}

/// A focus event for the tab that is already current changes nothing.
pub proof fn lemma_repeated_focus_is_ignored(memory: MemoryView, tab_id: Seq<char>)
    requires
        memory matches MemoryView::Current { current, last: _ } && current == tab_id,
    ensures
        memory.after_focus(tab_id) == memory,
{
}

/// After a tab is closed, it is never the last tab, and it stays the current tab only
/// if Herdr still reports it as focused.
pub proof fn lemma_close_forgets_closed_tab(memory: MemoryView, closed: Seq<char>, focused: Option<Seq<char>>)
    ensures
        memory.after_close(closed, focused) matches MemoryView::Current { current, last } ==> {
            &&& last != Some(closed)
            &&& current == closed ==> focused == Some(closed)
        },
{
}

/// Closing the remembered last tab leaves nothing to toggle to.
pub proof fn lemma_close_of_last_tab_makes_toggle_noop(
    memory: MemoryView,
    closed: Seq<char>,
    focused: Option<Seq<char>>,
    tabs: Seq<TabView>,
    current_tab_id: Seq<char>,
)
    requires
        memory matches MemoryView::Current { current, last: Some(l) } && l == closed && current != closed,
    ensures
        memory.after_close(closed, focused).after_toggle(tabs, current_tab_id).1 is None,
{
}

} // verus!
