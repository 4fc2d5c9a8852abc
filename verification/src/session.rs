//! One run of the plugin as a state machine: the library decides, the caller lists tabs,
//! loads and saves the state under its lock, and focuses tabs, and reports each outcome
//! back as an event.
use vstd::prelude::*;
use crate::command::Subcommand;
use crate::error::PluginError;
use crate::memory::{Memory, MemoryView};
use crate::persist::{loaded_from_file, LoadedMemory, StateFile, StateFileView};
use crate::protocol::{context_tab_id, event_tab_id, parse_context_tab_id, parse_event_tab_id};
use crate::tabs::{first_focused, has_tab, TabSnapshot, TabView};

verus! {

/// What one run was started with.
pub struct Invocation {
    pub subcommand: Subcommand,
    /// `HERDR_PLUGIN_EVENT_JSON`, when set.
    pub event_json: Option<String>,
    /// `HERDR_PLUGIN_CONTEXT_JSON`, when set.
    pub context_json: Option<String>,
}

pub struct InvocationView {
    pub subcommand: Subcommand,
    pub event_json: Option<Seq<char>>,
    pub context_json: Option<Seq<char>>,
}

impl View for Invocation {
    type V = InvocationView;

    open spec fn view(&self) -> InvocationView {
        InvocationView {
            subcommand: self.subcommand,
            event_json: self.event_json.deep_view(),
            context_json: self.context_json.deep_view(),
        }
    }
}

/// The subcommand that waits for the tab list, with the tab its event named.
pub enum Pending {
    Toggle,
    Focused { tab_id: String },
    Closed { tab_id: String },
}

pub enum PendingView {
    Toggle,
    Focused { tab_id: Seq<char> },
    Closed { tab_id: Seq<char> },
}

impl View for Pending {
    type V = PendingView;

    open spec fn view(&self) -> PendingView {
        match self {
            Pending::Toggle => PendingView::Toggle,
            Pending::Focused { tab_id } => PendingView::Focused { tab_id: tab_id@ },
            Pending::Closed { tab_id } => PendingView::Closed { tab_id: tab_id@ },
        }
    }
}

/// The change to make to the memory once it is loaded under the lock.
pub enum Update {
    /// Leave the memory as it is (only a repair may be written).
    Keep,
    /// Toggle, with the current tab and the tab list.
    Toggle { current_tab_id: String, snapshot: TabSnapshot },
    /// Record that a tab was focused.
    Focus { tab_id: String },
    /// Record that a tab was closed, with the tab that is focused now.
    Close { tab_id: String, focused_tab_id: Option<String> },
}

pub enum UpdateView {
    Keep,
    Toggle { current_tab_id: Seq<char>, tabs: Seq<TabView> },
    Focus { tab_id: Seq<char> },
    Close { tab_id: Seq<char>, focused_tab_id: Option<Seq<char>> },
}

impl View for Update {
    type V = UpdateView;

    open spec fn view(&self) -> UpdateView {
        match self {
            Update::Keep => UpdateView::Keep,
            Update::Toggle { current_tab_id, snapshot } => UpdateView::Toggle {
                current_tab_id: current_tab_id@,
                tabs: snapshot@,
            },
            Update::Focus { tab_id } => UpdateView::Focus { tab_id: tab_id@ },
            Update::Close { tab_id, focused_tab_id } => UpdateView::Close {
                tab_id: tab_id@,
                focused_tab_id: focused_tab_id.deep_view(),
            },
        }
    }
}

impl UpdateView {
    /// The next memory, and the tab to focus once it is saved.
    pub open spec fn apply(self, memory: MemoryView) -> (MemoryView, Option<Seq<char>>) {
        match self {
            UpdateView::Keep => (memory, None),
            UpdateView::Toggle { current_tab_id, tabs } => memory.after_toggle(tabs, current_tab_id),
            UpdateView::Focus { tab_id } => (memory.after_focus(tab_id), None),
            UpdateView::Close { tab_id, focused_tab_id } => (
                memory.after_close(tab_id, focused_tab_id),
                None,
            ),
        }
    }
}

impl Update {
    /// The next memory, and the tab to focus once it is saved.
    pub fn apply(&self, memory: &Memory) -> (res: (Memory, Option<String>))
        ensures
            (res.0@, res.1.deep_view()) == self@.apply(memory@),
    {
        match self {
            Update::Keep => (memory.copy(), None),
            Update::Toggle { current_tab_id, snapshot } => memory.after_toggle(snapshot, current_tab_id),
            Update::Focus { tab_id } => (memory.after_focus(tab_id), None),
            Update::Close { tab_id, focused_tab_id } => (memory.after_close(tab_id, focused_tab_id), None),
        }
    }
}

/// Where a run stands.
pub enum Stage {
    /// Nothing has happened yet.
    Start,
    /// Waiting for the tab list.
    ListingTabs(Pending),
    /// Waiting for the state to be locked and read.
    Loading(Update),
    /// Waiting for the state to be saved and unlocked; then the tab to focus, if any.
    Saving { focus: Option<String> },
    /// Waiting for Herdr to focus the tab.
    Focusing,
    /// The run is over.
    Done,
}

pub enum StageView {
    Start,
    ListingTabs(PendingView),
    Loading(UpdateView),
    Saving { focus: Option<Seq<char>> },
    Focusing,
    Done,
}

impl View for Stage {
    type V = StageView;

    open spec fn view(&self) -> StageView {
        match self {
            Stage::Start => StageView::Start,
            Stage::ListingTabs(p) => StageView::ListingTabs(p@),
            Stage::Loading(u) => StageView::Loading(u@),
            Stage::Saving { focus } => StageView::Saving { focus: focus.deep_view() },
            Stage::Focusing => StageView::Focusing,
            Stage::Done => StageView::Done,
        }
    }
}

/// What the caller reports back.
pub enum Event {
    /// The run begins.
    Started,
    /// Herdr's tab list, or why it could not be had.
    TabsListed(Result<TabSnapshot, PluginError>),
    /// The state file under the lock, or why it could not be locked or read.
    StateLoaded(Result<StateFile, PluginError>),
    /// The state was saved (if asked) and unlocked, or why saving failed.
    StateSaved(Result<(), PluginError>),
    /// Herdr focused the tab, or why it did not.
    TabFocused(Result<(), PluginError>),
}

pub enum EventView {
    Started,
    TabsListed(Result<Seq<TabView>, Seq<char>>),
    StateLoaded(Result<StateFileView, Seq<char>>),
    StateSaved(Result<(), Seq<char>>),
    TabFocused(Result<(), Seq<char>>),
}

/// The model of an outcome that carries nothing.
pub open spec fn done_view(r: Result<(), PluginError>) -> Result<(), Seq<char>> {
    match r {
        Ok(()) => Ok(()),
        Err(e) => Err(e@),
    }
}

impl View for Event {
    type V = EventView;

    open spec fn view(&self) -> EventView {
        match self {
            Event::Started => EventView::Started,
            Event::TabsListed(r) => EventView::TabsListed(
                match r {
                    Ok(s) => Ok(s@),
                    Err(e) => Err(e@),
                },
            ),
            Event::StateLoaded(r) => EventView::StateLoaded(
                match r {
                    Ok(f) => Ok(f@),
                    Err(e) => Err(e@),
                },
            ),
            Event::StateSaved(r) => EventView::StateSaved(done_view(*r)),
            Event::TabFocused(r) => EventView::TabFocused(done_view(*r)),
        }
    }
}

/// What the caller is to do next.
pub enum Action {
    /// Run `tab list`.
    ListTabs,
    /// Create the state directory, take the lock, and read the state file.
    LoadState,
    /// Write this memory (if any) atomically, then release the lock.
    SaveState(Option<Memory>),
    /// Run `tab focus` for this tab.
    FocusTab(String),
    /// End the run with this outcome.
    Finish(Result<(), PluginError>),
}

pub enum ActionView {
    ListTabs,
    LoadState,
    SaveState(Option<MemoryView>),
    FocusTab(Seq<char>),
    Finish(Result<(), Seq<char>>),
}

impl View for Action {
    type V = ActionView;

    open spec fn view(&self) -> ActionView {
        match self {
            Action::ListTabs => ActionView::ListTabs,
            Action::LoadState => ActionView::LoadState,
            Action::SaveState(m) => ActionView::SaveState(
                match m {
                    Some(memory) => Some(memory@),
                    None => None,
                },
            ),
            Action::FocusTab(t) => ActionView::FocusTab(t@),
            Action::Finish(r) => ActionView::Finish(done_view(*r)),
        }
    }
}

/// Whether `event` is the report that `stage` waits for.
pub open spec fn answers(stage: &Stage, event: &Event) -> bool {
    match (stage, event) {
        (Stage::Start, Event::Started) => true,
        (Stage::ListingTabs(_), Event::TabsListed(_)) => true,
        (Stage::Loading(_), Event::StateLoaded(_)) => true,
        (Stage::Saving { .. }, Event::StateSaved(_)) => true,
        (Stage::Focusing, Event::TabFocused(_)) => true,
        _ => false,
    }
}

/// Whether `event` is the report that `stage` waits for.
pub fn event_answers(stage: &Stage, event: &Event) -> (res: bool)
    ensures
        res == answers(stage, event),
{
    match (stage, event) {
        (Stage::Start, Event::Started) => true,
        (Stage::ListingTabs(_), Event::TabsListed(_)) => true,
        (Stage::Loading(_), Event::StateLoaded(_)) => true,
        (Stage::Saving { .. }, Event::StateSaved(_)) => true,
        (Stage::Focusing, Event::TabFocused(_)) => true,
        _ => false,
    }
}

/// The tab that counts as current for a toggle: the focused one, else the tab of the
/// action's context when the list has it.
pub open spec fn toggle_current_tab(context_json: Option<Seq<char>>, tabs: Seq<TabView>) -> Option<Seq<char>> {
    match first_focused(tabs) {
        Some(f) => Some(f),
        None => match context_json {
            Some(raw) => match context_tab_id(raw) {
                Some(c) => if has_tab(tabs, c) {
                    Some(c)
                } else {
                    None
                },
                None => None,
            },
            None => None,
        },
    }
}

/// The update a toggle makes: none without a current tab.
pub open spec fn toggle_update(context_json: Option<Seq<char>>, tabs: Seq<TabView>) -> UpdateView {
    match toggle_current_tab(context_json, tabs) {
        Some(c) => UpdateView::Toggle { current_tab_id: c, tabs },
        None => UpdateView::Keep,
    }
}

/// The update a focus event makes: none when the event is stale, that is, when its tab is
/// not the one Herdr reports as focused.
pub open spec fn focused_update(tab_id: Seq<char>, tabs: Seq<TabView>) -> Option<UpdateView> {
    if first_focused(tabs) == Some(tab_id) {
        Some(UpdateView::Focus { tab_id })
    } else {
        None
    }
}

/// The update a close event makes.
pub open spec fn closed_update(tab_id: Seq<char>, tabs: Seq<TabView>) -> UpdateView {
    UpdateView::Close { tab_id, focused_tab_id: first_focused(tabs) }
}

/// One step of a run: from where it stands and what was reported, where it goes and what
/// the caller does next.
pub open spec fn step(invocation: InvocationView, stage: StageView, event: EventView) -> (StageView, ActionView) {
    match (stage, event) {
        (StageView::Start, EventView::Started) => match invocation.subcommand {
            Subcommand::Toggle => (StageView::ListingTabs(PendingView::Toggle), ActionView::ListTabs),
            _ => {
                let tab_id = match invocation.event_json {
                    Some(raw) => event_tab_id(raw),
                    None => None,
                };
                match tab_id {
                    None => (StageView::Done, ActionView::Finish(Ok(()))),
                    Some(id) => (
                        StageView::ListingTabs(
                            if invocation.subcommand == Subcommand::Focused {
                                PendingView::Focused { tab_id: id }
                            } else {
                                PendingView::Closed { tab_id: id }
                            },
                        ),
                        ActionView::ListTabs,
                    ),
                }
            },
        },
        (StageView::ListingTabs(_), EventView::TabsListed(Err(e))) => (
            StageView::Done,
            ActionView::Finish(Err(e)),
        ),
        (StageView::ListingTabs(pending), EventView::TabsListed(Ok(tabs))) => match pending {
            PendingView::Toggle => (
                StageView::Loading(toggle_update(invocation.context_json, tabs)),
                ActionView::LoadState,
            ),
            PendingView::Focused { tab_id } => match focused_update(tab_id, tabs) {
                Some(u) => (StageView::Loading(u), ActionView::LoadState),
                None => (StageView::Done, ActionView::Finish(Ok(()))),
            },
            PendingView::Closed { tab_id } => (
                StageView::Loading(closed_update(tab_id, tabs)),
                ActionView::LoadState,
            ),
        },
        (StageView::Loading(_), EventView::StateLoaded(Err(e))) => (
            StageView::Done,
            ActionView::Finish(Err(e)),
        ),
        (StageView::Loading(update), EventView::StateLoaded(Ok(file))) => {
            let loaded = loaded_from_file(file);
            let (next, target) = update.apply(loaded.memory);
            let save = loaded.needs_repair || next != loaded.memory;
            (
                StageView::Saving { focus: target },
                ActionView::SaveState(
                    if save {
                        Some(next)
                    } else {
                        None
                    },
                ),
            )
        },
        (StageView::Saving { focus: _ }, EventView::StateSaved(Err(e))) => (
            StageView::Done,
            ActionView::Finish(Err(e)),
        ),
        (StageView::Saving { focus }, EventView::StateSaved(Ok(()))) => match focus {
            Some(target) => (StageView::Focusing, ActionView::FocusTab(target)),
            None => (StageView::Done, ActionView::Finish(Ok(()))),
        },
        (StageView::Focusing, EventView::TabFocused(r)) => (StageView::Done, ActionView::Finish(r)),
        _ => (StageView::Done, ActionView::Finish(Ok(()))),
    }
}

/// The update a toggle makes, from the action's context and the tab list.
pub fn toggle(context_json: &Option<String>, snapshot: TabSnapshot) -> (res: Update)
    ensures
        res@ == toggle_update(context_json.deep_view(), snapshot@),
{
    let current = match snapshot.focused_tab_id() {
        Some(id) => Some(id.to_owned()),
        None => {
            let context_id = match context_json {
                Some(raw) => parse_context_tab_id(raw.as_str()),
                None => None,
            };
            match context_id {
                Some(id) => {
                    if snapshot.contains_tab(id.as_str()) {
                        Some(id)
                    } else {
                        None
                    }
                },
                None => None,
            }
        },
    };
    match current {
        Some(current_tab_id) => Update::Toggle { current_tab_id, snapshot },
        None => Update::Keep,
    }
}

/// The update a focus event for `event_tab_id` makes, or nothing when the event is stale.
pub fn focused(event_tab_id: String, snapshot: &TabSnapshot) -> (res: Option<Update>)
    ensures
        match res {
            Some(u) => focused_update(event_tab_id@, snapshot@) == Some(u@),
            None => focused_update(event_tab_id@, snapshot@) is None,
        },
{
    let is_focused = match snapshot.focused_tab_id() {
        Some(id) => event_tab_id == id.to_owned(),
        None => false,
    };
    if is_focused {
        Some(Update::Focus { tab_id: event_tab_id })
    } else {
        None
    }
}

/// The update a close event for `closed_tab_id` makes.
pub fn closed(closed_tab_id: String, snapshot: &TabSnapshot) -> (res: Update)
    ensures
        res@ == closed_update(closed_tab_id@, snapshot@),
{
    let focused_tab_id = match snapshot.focused_tab_id() {
        Some(id) => Some(id.to_owned()),
        None => None,
    };
    Update::Close { tab_id: closed_tab_id, focused_tab_id }
}

/// Takes one step of a run. An event that does not answer the stage (see `answers`)
/// ends the run with success.
pub fn run(invocation: &Invocation, stage: Stage, event: Event) -> (res: (Stage, Action))
    ensures
        (res.0@, res.1@) == step(invocation@, stage@, event@),
{
    match (stage, event) {
        (Stage::Start, Event::Started) => match invocation.subcommand {
            Subcommand::Toggle => (Stage::ListingTabs(Pending::Toggle), Action::ListTabs),
            Subcommand::Focused | Subcommand::Closed => {
                let tab_id = match &invocation.event_json {
                    Some(raw) => parse_event_tab_id(raw.as_str()),
                    None => None,
                };
                match tab_id {
                    None => (Stage::Done, Action::Finish(Ok(()))),
                    Some(id) => {
                        let pending = match invocation.subcommand {
                            Subcommand::Focused => Pending::Focused { tab_id: id },
                            _ => Pending::Closed { tab_id: id },
                        };
                        (Stage::ListingTabs(pending), Action::ListTabs)
                    },
                }
            },
        },
        (Stage::ListingTabs(pending), Event::TabsListed(listed)) => match listed {
            Err(e) => (Stage::Done, Action::Finish(Err(e))),
            Ok(snapshot) => match pending {
                Pending::Toggle => (
                    Stage::Loading(toggle(&invocation.context_json, snapshot)),
                    Action::LoadState,
                ),
                Pending::Focused { tab_id } => match focused(tab_id, &snapshot) {
                    Some(u) => (Stage::Loading(u), Action::LoadState),
                    None => (Stage::Done, Action::Finish(Ok(()))),
                },
                Pending::Closed { tab_id } => (
                    Stage::Loading(closed(tab_id, &snapshot)),
                    Action::LoadState,
                ),
            },
        },
        (Stage::Loading(update), Event::StateLoaded(read)) => match read {
            Err(e) => (Stage::Done, Action::Finish(Err(e))),
            Ok(file) => {
                let loaded = LoadedMemory::from_state_file(file);
                let (next, target) = update.apply(&loaded.memory);
                let save = loaded.needs_save(&next);
                let to_write = if save {
                    Some(next)
                } else {
                    None
                };
                (Stage::Saving { focus: target }, Action::SaveState(to_write))
            },
        },
        (Stage::Saving { focus }, Event::StateSaved(saved)) => match saved {
            Err(e) => (Stage::Done, Action::Finish(Err(e))),
            Ok(()) => match focus {
                Some(target) => (Stage::Focusing, Action::FocusTab(target)),
                None => (Stage::Done, Action::Finish(Ok(()))),
            },
        },
        (Stage::Focusing, Event::TabFocused(r)) => (Stage::Done, Action::Finish(r)),
        _ => (Stage::Done, Action::Finish(Ok(()))),
    }
}

/// A focus event whose tab is not the one Herdr reports as focused ends the run at once,
/// without loading or writing the state.
pub proof fn lemma_stale_focus_event_is_ignored(invocation: InvocationView, tab_id: Seq<char>, tabs: Seq<TabView>)
    requires
        first_focused(tabs) != Some(tab_id),
    ensures
        step(
            invocation,
            StageView::ListingTabs(PendingView::Focused { tab_id }),
            EventView::TabsListed(Ok(tabs)),
        ) == (StageView::Done, ActionView::Finish(Ok(()))),
{
}

/// An event hook whose event names no tab ends at once with success, before asking
/// Herdr for anything.
pub proof fn lemma_event_without_tab_is_noop(invocation: InvocationView)
    requires
        invocation.subcommand != Subcommand::Toggle,
        match invocation.event_json {
            Some(raw) => event_tab_id(raw) is None,
            None => true,
        },
    ensures
        step(invocation, StageView::Start, EventView::Started) == (StageView::Done, ActionView::Finish(Ok(()))),
{
}

/// Whatever the step, a reported failure ends the run with that failure.
pub proof fn lemma_failure_ends_run(invocation: InvocationView, stage: StageView, e: Seq<char>)
    ensures
        stage is ListingTabs ==> step(invocation, stage, EventView::TabsListed(Err(e))) == (
        StageView::Done, ActionView::Finish(Err(e))),
        stage is Loading ==> step(invocation, stage, EventView::StateLoaded(Err(e))) == (
        StageView::Done, ActionView::Finish(Err(e))),
        stage is Saving ==> step(invocation, stage, EventView::StateSaved(Err(e))) == (
        StageView::Done, ActionView::Finish(Err(e))),
        stage is Focusing ==> step(invocation, stage, EventView::TabFocused(Err(e))) == (
        StageView::Done, ActionView::Finish(Err(e))),
{
}

/// The state is written exactly when the stored state needed a repair or the update
/// changed the memory, and the only tab ever focused is the target of a toggle.
pub proof fn lemma_save_and_focus(invocation: InvocationView, update: UpdateView, file: StateFileView)
    ensures
        ({
            let loaded = loaded_from_file(file);
            let (next, target) = update.apply(loaded.memory);
            let (stage, action) = step(invocation, StageView::Loading(update), EventView::StateLoaded(Ok(file)));
            &&& stage == StageView::Saving { focus: target }
            &&& (action matches ActionView::SaveState(Some(m)) ==> m == next)
            &&& (action is SaveState && (action->SaveState_0 is Some <==> (loaded.needs_repair || next != loaded.memory)))
            &&& (target is Some ==> update is Toggle)
        }),
{
}

/// A toggle run, with `current` focused and `last` remembered and still open, saves
/// nothing and then focuses `last`.
pub proof fn lemma_toggle_run_focuses_last_tab(
    invocation: InvocationView,
    tabs: Seq<TabView>,
    current: Seq<char>,
    last: Seq<char>,
    updated_unix_ms: u64,
)
    requires
        invocation.subcommand == Subcommand::Toggle,
        first_focused(tabs) == Some(current),
        has_tab(tabs, last),
        current.len() > 0,
        last.len() > 0,
        last != current,
    ensures
        ({
            let memory = MemoryView::Current { current, last: Some(last) };
            let file = StateFileView::Parsed(crate::persist::persisted(memory, updated_unix_ms));
            let (s1, a1) = step(invocation, StageView::Start, EventView::Started);
            let (s2, a2) = step(invocation, s1, EventView::TabsListed(Ok(tabs)));
            let (s3, a3) = step(invocation, s2, EventView::StateLoaded(Ok(file)));
            let (s4, a4) = step(invocation, s3, EventView::StateSaved(Ok(())));
            &&& a1 == ActionView::ListTabs
            &&& a2 == ActionView::LoadState
            &&& a3 == ActionView::SaveState(None)
            &&& a4 == ActionView::FocusTab(last)
            &&& step(invocation, s4, EventView::TabFocused(Ok(()))) == (StageView::Done, ActionView::Finish(Ok(())))
        }),
{
    let memory = MemoryView::Current { current, last: Some(last) };
    crate::persist::lemma_store_then_load(memory, updated_unix_ms);
}

/// A focus event that is not stale makes its tab the current one in what is saved: the
/// memory that is written, or the loaded memory when nothing needs writing.
pub proof fn lemma_focus_run_records_focused_tab(
    invocation: InvocationView,
    tab_id: Seq<char>,
    tabs: Seq<TabView>,
    file: StateFileView,
)
    requires
        first_focused(tabs) == Some(tab_id),
    ensures
        ({
            let (s1, a1) = step(
                invocation,
                StageView::ListingTabs(PendingView::Focused { tab_id }),
                EventView::TabsListed(Ok(tabs)),
            );
            let (s2, a2) = step(invocation, s1, EventView::StateLoaded(Ok(file)));
            let saved = match a2 {
                ActionView::SaveState(Some(m)) => m,
                _ => loaded_from_file(file).memory,
            };
            &&& a1 == ActionView::LoadState
            &&& a2 is SaveState
            &&& saved matches MemoryView::Current { current, last: _ } && current == tab_id
        }),
{
}

/// The subcommand picks the handler: a toggle lists the tabs and then makes the toggle's
/// update; a focus or close event with a tab id lists the tabs and then makes the focus
/// or close update for that tab `id` (a stale focus event makes none).
pub proof fn lemma_run_dispatches_by_subcommand(invocation: InvocationView, tabs: Seq<TabView>, id: Seq<char>)
    ensures
        invocation.subcommand == Subcommand::Toggle ==> ({
            let (s1, a1) = step(invocation, StageView::Start, EventView::Started);
            &&& s1 == StageView::ListingTabs(PendingView::Toggle)
            &&& a1 == ActionView::ListTabs
            &&& step(invocation, s1, EventView::TabsListed(Ok(tabs))) == (
            StageView::Loading(toggle_update(invocation.context_json, tabs)), ActionView::LoadState)
        }),
        (invocation.subcommand != Subcommand::Toggle && invocation.event_json is Some
            && event_tab_id(invocation.event_json->0) == Some(id)) ==> ({
            let (s1, a1) = step(invocation, StageView::Start, EventView::Started);
            let (s2, a2) = step(invocation, s1, EventView::TabsListed(Ok(tabs)));
            &&& a1 == ActionView::ListTabs
            &&& invocation.subcommand == Subcommand::Focused ==> match focused_update(id, tabs) {
                Some(u) => s2 == StageView::Loading(u) && a2 == ActionView::LoadState,
                None => s2 == StageView::Done && a2 == ActionView::Finish(Ok(())),
            }
            &&& invocation.subcommand == Subcommand::Closed ==> s2 == StageView::Loading(
                closed_update(id, tabs),
            ) && a2 == ActionView::LoadState
        }),
{
}

/// Whether `stage` and `event` are of matching kinds: each stage waits for one kind of
/// report, whatever it carries.
pub open spec fn kinds_match(stage: &Stage, event: &Event) -> bool {
    ||| stage is Start && event is Started
    ||| stage is ListingTabs && event is TabsListed
    ||| stage is Loading && event is StateLoaded
    ||| stage is Saving && event is StateSaved
    ||| stage is Focusing && event is TabFocused
}

/// An event answers a stage exactly when it is the kind of report that stage waits for,
/// whatever update, tabs, memory or outcome either carries; nothing answers a finished run.
pub proof fn lemma_answers_only_by_kind(stage: &Stage, event: &Event)
    ensures
        answers(stage, event) <==> kinds_match(stage, event),
        stage is Done ==> !answers(stage, event),
{
}

/// The focused tab of a list is the first tab marked focused: it is in the list, marked
/// focused, and no tab before it is; with no tab marked focused there is none.
pub proof fn lemma_first_focused_is_first_marked(tabs: Seq<TabView>)
    ensures
        first_focused(tabs) matches Some(id) ==> exists|i: int|
            0 <= i < tabs.len() && #[trigger] tabs[i].focused && tabs[i].tab_id == id && forall|j: int|
                0 <= j < i ==> !(#[trigger] tabs[j]).focused,
        first_focused(tabs) is None <==> forall|i: int| 0 <= i < tabs.len() ==> !(#[trigger] tabs[i]).focused,
    decreases tabs.len(),
{
    if tabs.len() > 0 {
        let rest = tabs.drop_first();
        lemma_first_focused_is_first_marked(rest);
        if !tabs[0].focused {
            match first_focused(rest) {
                Some(id) => {
                    let k = choose|k: int|
                        0 <= k < rest.len() && #[trigger] rest[k].focused && rest[k].tab_id == id
                            && forall|j: int| 0 <= j < k ==> !(#[trigger] rest[j]).focused;
                    assert(tabs[k + 1] == rest[k]);
                    assert forall|j: int| 0 <= j < k + 1 implies !(#[trigger] tabs[j]).focused by {
                        if j > 0 {
                            assert(tabs[j] == rest[j - 1]);
                        }
                    }
                },
                None => {
                    assert forall|i: int| 0 <= i < tabs.len() implies !(#[trigger] tabs[i]).focused by {
                        if i > 0 {
                            assert(tabs[i] == rest[i - 1]);
                        }
                    }
                },
            }
            if forall|i: int| 0 <= i < tabs.len() ==> !(#[trigger] tabs[i]).focused {
                assert forall|i: int| 0 <= i < rest.len() implies !(#[trigger] rest[i]).focused by {
                    assert(rest[i] == tabs[i + 1]);
                }
            }
        }
    }
}

/// The memory a run loads and then saves or keeps: the one it writes, or the loaded one
/// when it writes nothing.
pub open spec fn saved_memory(action: ActionView, file: StateFileView) -> MemoryView {
    match action {
        ActionView::SaveState(Some(m)) => m,
        _ => loaded_from_file(file).memory,
    }
}

/// A focus event for `tab_id` that is not stale, after the state was loaded: from an empty
/// memory the tab becomes current with no last tab; when another tab `c` was current, the
/// tab becomes current and `c` becomes the last tab (the one the next toggle goes back to),
/// whatever the last tab was before; when the tab was already current nothing changes.
/// Nothing is focused afterwards.
pub proof fn lemma_focus_event_remembers_tab_left(
    invocation: InvocationView,
    tab_id: Seq<char>,
    tabs: Seq<TabView>,
    file: StateFileView,
)
    requires
        first_focused(tabs) == Some(tab_id),
    ensures
        ({
            let (s1, a1) = step(
                invocation,
                StageView::ListingTabs(PendingView::Focused { tab_id }),
                EventView::TabsListed(Ok(tabs)),
            );
            let (s2, a2) = step(invocation, s1, EventView::StateLoaded(Ok(file)));
            let loaded = loaded_from_file(file).memory;
            &&& a1 == ActionView::LoadState
            &&& s2 == StageView::Saving { focus: None }
            &&& a2 is SaveState
            &&& (loaded is Empty ==> saved_memory(a2, file) == MemoryView::Current {
                current: tab_id,
                last: None,
            })
            &&& (loaded matches MemoryView::Current { current: c, last: _ } ==> (c != tab_id
                ==> a2 == ActionView::SaveState(
                Some(MemoryView::Current { current: tab_id, last: Some(c) }),
            )))
            &&& (loaded matches MemoryView::Current { current: c, last: _ } ==> (c == tab_id
                ==> saved_memory(a2, file) == loaded))
        }),
{
}

/// A close event for the current tab `c`, while Herdr reports `f` as focused: `f` becomes
/// current, and a last tab that is neither `c` nor `f` is kept; with no focused tab the
/// memory becomes empty.
pub proof fn lemma_close_of_current_follows_focus(
    invocation: InvocationView,
    tabs: Seq<TabView>,
    file: StateFileView,
    c: Seq<char>,
    last: Option<Seq<char>>,
)
    requires
        loaded_from_file(file).memory == (MemoryView::Current { current: c, last }),
    ensures
        ({
            let (s1, _) = step(
                invocation,
                StageView::ListingTabs(PendingView::Closed { tab_id: c }),
                EventView::TabsListed(Ok(tabs)),
            );
            let (s2, a2) = step(invocation, s1, EventView::StateLoaded(Ok(file)));
            &&& s2 == StageView::Saving { focus: None }
            &&& (first_focused(tabs) matches Some(f) ==> (f != c ==> a2 == ActionView::SaveState(
                Some(
                    MemoryView::Current {
                        current: f,
                        last: match last {
                            Some(l) => if l != c && l != f {
                                Some(l)
                            } else {
                                None
                            },
                            None => None,
                        },
                    },
                ),
            )))
            &&& (forall|i: int| 0 <= i < tabs.len() ==> !(#[trigger] tabs[i]).focused) ==> a2
                == ActionView::SaveState(Some(MemoryView::Empty))
        }),
{
    lemma_first_focused_is_first_marked(tabs);
}

/// Closing a tab that is neither the current nor the last tab leaves the memory as it was,
/// whatever tab is focused: only a repair of the stored state is written.
pub proof fn lemma_close_of_other_tab_changes_nothing(
    invocation: InvocationView,
    closed: Seq<char>,
    tabs: Seq<TabView>,
    file: StateFileView,
    c: Seq<char>,
    last: Option<Seq<char>>,
)
    requires
        loaded_from_file(file).memory == (MemoryView::Current { current: c, last }),
        c != closed,
        last != Some(closed),
        last != Some(c),
    ensures
        ({
            let (s1, _) = step(
                invocation,
                StageView::ListingTabs(PendingView::Closed { tab_id: closed }),
                EventView::TabsListed(Ok(tabs)),
            );
            let (s2, a2) = step(invocation, s1, EventView::StateLoaded(Ok(file)));
            let loaded = loaded_from_file(file);
            &&& s2 == StageView::Saving { focus: None }
            &&& a2 == ActionView::SaveState(
                if loaded.needs_repair {
                    Some(loaded.memory)
                } else {
                    None
                },
            )
        }),
{
}

/// A toggle while no tab is focused and there is no context leaves the memory as it was and
/// focuses nothing: only a repair of the stored state is written, and the run ends well.
pub proof fn lemma_toggle_without_current_tab_is_noop(
    invocation: InvocationView,
    tabs: Seq<TabView>,
    file: StateFileView,
)
    requires
        invocation.subcommand == Subcommand::Toggle,
        invocation.context_json is None,
        forall|i: int| 0 <= i < tabs.len() ==> !(#[trigger] tabs[i]).focused,
    ensures
        ({
            let (s1, _) = step(invocation, StageView::Start, EventView::Started);
            let (s2, a2) = step(invocation, s1, EventView::TabsListed(Ok(tabs)));
            let (s3, a3) = step(invocation, s2, EventView::StateLoaded(Ok(file)));
            let loaded = loaded_from_file(file);
            &&& a2 == ActionView::LoadState
            &&& a3 == ActionView::SaveState(
                if loaded.needs_repair {
                    Some(loaded.memory)
                } else {
                    None
                },
            )
            &&& step(invocation, s3, EventView::StateSaved(Ok(()))) == (
            StageView::Done, ActionView::Finish(Ok(())))
        }),
{
    lemma_first_focused_is_first_marked(tabs);
}

/// Leaving the memory as it is changes nothing and focuses nothing.
pub proof fn lemma_keep_changes_nothing(memory: MemoryView)
    ensures
        UpdateView::Keep.apply(memory) == (memory, None::<Seq<char>>),
{
}

} // verus!
