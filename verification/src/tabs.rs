//! The tabs that `herdr tab list` reports.
use vstd::prelude::*;

verus! {

/// One tab of the list.
#[derive(Debug, Clone, PartialEq, Eq)]
pub struct TabInfo {
    pub tab_id: String,
    pub workspace_id: String,
    pub focused: bool,
}

/// The model of a tab.
pub struct TabView {
    pub tab_id: Seq<char>,
    pub workspace_id: Seq<char>,
    pub focused: bool,
}

impl View for TabInfo {
    type V = TabView;

    open spec fn view(&self) -> TabView {
        TabView { tab_id: self.tab_id@, workspace_id: self.workspace_id@, focused: self.focused }
    }
}

/// The tabs that Herdr reported, in its order.
#[derive(Debug, Clone, PartialEq, Eq)]
pub struct TabSnapshot {
    pub tabs: Vec<TabInfo>,
}

impl View for TabSnapshot {
    type V = Seq<TabView>;

    open spec fn view(&self) -> Seq<TabView> {
        self.tabs@.map_values(|t: TabInfo| t@)
    }
}

/// The id of the first focused tab, if any tab is focused.
pub open spec fn first_focused(tabs: Seq<TabView>) -> Option<Seq<char>>
    decreases tabs.len(),
{
    if tabs.len() == 0 {
        None
    } else if tabs[0].focused {
        Some(tabs[0].tab_id)
    } else {
        first_focused(tabs.drop_first())
    }
}

/// Whether some tab has this id.
pub open spec fn has_tab(tabs: Seq<TabView>, tab_id: Seq<char>) -> bool {
    exists|i: int| 0 <= i < tabs.len() && #[trigger] tabs[i].tab_id == tab_id
}

impl TabSnapshot {
    /// The id of the focused tab (the first one marked focused).
    pub fn focused_tab_id(&self) -> (res: Option<&str>)
        ensures
            match res {
                Some(id) => first_focused(self@) == Some(id@),
                None => first_focused(self@) is None,
            },
    {
        let ghost model = self@;
        let mut i: usize = 0;
        assert(model.skip(0) =~= model);
        while i < self.tabs.len()
            invariant
                i <= self.tabs@.len(),
                model == self@,
                model.len() == self.tabs@.len(),
                first_focused(model) == first_focused(model.skip(i as int)),
            decreases self.tabs@.len() - i,
        {
            assert(model[i as int] == self.tabs@[i as int]@);
            if self.tabs[i].focused {
                return Some(self.tabs[i].tab_id.as_str());
            }
            assert(model.skip(i as int).drop_first() =~= model.skip(i + 1));
            i = i + 1;
        }
        None
    }

    /// Whether a tab with this id is in the list.
    pub fn contains_tab(&self, tab_id: &str) -> (res: bool)
        ensures
            res == has_tab(self@, tab_id@),
    {
        let wanted = tab_id.to_owned();
        let mut i: usize = 0;
        while i < self.tabs.len()
            invariant
                i <= self.tabs@.len(),
                wanted@ == tab_id@,
                forall|j: int| 0 <= j < i ==> self@[j].tab_id != tab_id@,
            decreases self.tabs@.len() - i,
        {
            if self.tabs[i].tab_id == wanted {
                assert(self@[i as int].tab_id == tab_id@);
                return true;
            }
            i = i + 1;
        }
        false
    }
}

} // verus!
