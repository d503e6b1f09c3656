//! The sidebar of the terminal interface: its panels, which one is selected,
//! which are expanded, and the state each panel keeps.
use vstd::prelude::*;
use crate::models::NativeModelInfo;

verus! {

/// The panels of the sidebar.
#[derive(Debug, Clone, Copy, PartialEq, Eq, Hash, Structural)]
pub enum SidebarPanel {
    Tasks,
    Sessions,
    Models,
    Memory,
}

impl SidebarPanel {
    /// The panel's heading, icon first.
    pub fn name(&self) -> (r: &'static str)
        ensures
            *self == SidebarPanel::Tasks ==> r@ == "\u{1f4cb} Tasks"@,
            *self == SidebarPanel::Sessions ==> r@ == "\u{1f4bb} Sessions"@,
            *self == SidebarPanel::Models ==> r@ == "\u{1f916} Models"@,
            *self == SidebarPanel::Memory ==> r@ == "\u{1f9e0} Memory"@,
    {
        match self {
            SidebarPanel::Tasks => "\u{1f4cb} Tasks",
            SidebarPanel::Sessions => "\u{1f4bb} Sessions",
            SidebarPanel::Models => "\u{1f916} Models",
            SidebarPanel::Memory => "\u{1f9e0} Memory",
        }
    }

    /// The panel's icon.
    pub fn icon(&self) -> (r: &'static str)
        ensures
            *self == SidebarPanel::Tasks ==> r@ == "\u{1f4cb}"@,
            *self == SidebarPanel::Sessions ==> r@ == "\u{1f4bb}"@,
            *self == SidebarPanel::Models ==> r@ == "\u{1f916}"@,
            *self == SidebarPanel::Memory ==> r@ == "\u{1f9e0}"@,
    {
        match self {
            SidebarPanel::Tasks => "\u{1f4cb}",
            SidebarPanel::Sessions => "\u{1f4bb}",
            SidebarPanel::Models => "\u{1f916}",
            SidebarPanel::Memory => "\u{1f9e0}",
        }
    }
}

/// Which tasks the tasks panel lists.
#[derive(Debug, Clone, Copy, Default, PartialEq, Eq, Structural)]
pub enum TaskFilter {
    #[default]
    All,
    InProgress,
    Pending,
    Completed,
}

/// The order of the tasks panel.
#[derive(Debug, Clone, Copy, Default, PartialEq, Eq, Structural)]
pub enum TaskSort {
    #[default]
    Created,
    Updated,
    Priority,
    Title,
}

/// The state of the tasks panel.
#[derive(Debug, Clone, Default)]
pub struct TasksPanelState {
    pub filter: TaskFilter,
    pub sort: TaskSort,
    pub selected_task: Option<String>,
}

/// The state of the sessions panel.
#[derive(Debug, Clone, Default)]
pub struct SessionsPanelState {
    pub selected_session: Option<String>,
}

/// The state of the models panel.
#[derive(Debug, Clone, Default)]
pub struct ModelsPanelState {
    pub loaded_model: Option<String>,
    pub models: Vec<NativeModelInfo>,
}

/// The state of the memory panel.
#[derive(Debug, Clone, Default)]
pub struct MemoryPanelState {
    pub short_term_count: usize,
    pub long_term_count: usize,
    pub tokens_used: u64,
    pub tokens_limit: u64,
    pub cache_size: String,
}

/// The whole sidebar.
#[derive(Debug, Clone)]
pub struct SidebarState {
    pub panels: Vec<SidebarPanel>,
    pub selected_panel: SidebarPanel,
    pub expanded_panels: Vec<SidebarPanel>,
    pub tasks_state: TasksPanelState,
    pub sessions_state: SessionsPanelState,
    pub models_state: ModelsPanelState,
    pub memory_state: MemoryPanelState,
}

/// The first position of `p` in `s`, or 0 where `p` does not occur.
pub open spec fn position_or_first(s: Seq<SidebarPanel>, p: SidebarPanel) -> int {
    if exists|i: int| 0 <= i < s.len() && s[i] == p {
        choose|i: int| 0 <= i < s.len() && s[i] == p && forall|j: int| 0 <= j < i ==> s[j] != p
    } else {
        0
    }
}

/// `s` without any occurrence of `p`, the rest in order.
pub open spec fn without(s: Seq<SidebarPanel>, p: SidebarPanel) -> Seq<SidebarPanel>
    decreases s.len(),
{
    if s.len() == 0 {
        s
    } else if s.last() == p {
        without(s.drop_last(), p)
    } else {
        without(s.drop_last(), p).push(s.last())
    }
}

/// The position of the first occurrence of `p` in `panels`, or 0.
fn find_panel(panels: &Vec<SidebarPanel>, p: SidebarPanel) -> (r: usize)
    ensures
        r == position_or_first(panels@, p),
        panels@.len() > 0 ==> r < panels@.len(),
{
    let mut i: usize = 0;
    while i < panels.len()
        invariant
            i <= panels@.len(),
            forall|j: int| 0 <= j < i ==> panels@[j] != p,
        decreases panels@.len() - i,
    {
        if panels[i] == p {
            proof {
                let c = choose|c: int| 0 <= c < panels@.len() && panels@[c] == p && forall|j: int| 0 <= j < c ==> panels@[j] != p;
                if c < i {
                } else if c > i {
                    assert(panels@[i as int] == p);
                }
            }
            return i;
        }
        i = i + 1;
    }
    0
}

impl SidebarState {
    /// The four panels, the tasks panel selected, tasks and sessions expanded.
    pub fn new() -> (r: SidebarState)
        ensures
            r.panels@ == seq![SidebarPanel::Tasks, SidebarPanel::Sessions, SidebarPanel::Models, SidebarPanel::Memory],
            r.selected_panel == SidebarPanel::Tasks,
            r.expanded_panels@ == seq![SidebarPanel::Tasks, SidebarPanel::Sessions],
    {
        let panels = vec![SidebarPanel::Tasks, SidebarPanel::Sessions, SidebarPanel::Models, SidebarPanel::Memory];
        let expanded = vec![SidebarPanel::Tasks, SidebarPanel::Sessions];
        assert(panels@ =~= seq![SidebarPanel::Tasks, SidebarPanel::Sessions, SidebarPanel::Models, SidebarPanel::Memory]);
        assert(expanded@ =~= seq![SidebarPanel::Tasks, SidebarPanel::Sessions]);
        SidebarState {
            panels,
            selected_panel: SidebarPanel::Tasks,
            expanded_panels: expanded,
            tasks_state: TasksPanelState { filter: TaskFilter::All, sort: TaskSort::Created, selected_task: None },
            sessions_state: SessionsPanelState { selected_session: None },
            models_state: ModelsPanelState { loaded_model: None, models: Vec::new() },
            memory_state: MemoryPanelState {
                short_term_count: 0,
                long_term_count: 0,
                tokens_used: 0,
                tokens_limit: 0,
                cache_size: String::new(),
            },
        }
    }

    /// Selects the panel after the selected one, wrapping around; from a
    /// selection that is not among the panels, the second panel.
    pub fn next_panel(&mut self)
        requires
            old(self).panels@.len() > 0,
        ensures
            final(self).selected_panel == old(self).panels@[(position_or_first(old(self).panels@, old(self).selected_panel) + 1)
                % old(self).panels@.len() as int],
            final(self).panels == old(self).panels,
            final(self).expanded_panels == old(self).expanded_panels,
    {
        let current = find_panel(&self.panels, self.selected_panel);
        let count = self.panels.len();
        assert(current < count);
        let next = (current + 1) % count;
        self.selected_panel = self.panels[next];
    }

    /// Selects the panel before the selected one, wrapping around; from a
    /// selection that is not among the panels, the last panel.
    pub fn prev_panel(&mut self)
        requires
            old(self).panels@.len() > 0,
        ensures
            final(self).selected_panel == old(self).panels@[if position_or_first(old(self).panels@, old(self).selected_panel) == 0 {
                old(self).panels@.len() - 1
            } else {
                position_or_first(old(self).panels@, old(self).selected_panel) - 1
            }],
            final(self).panels == old(self).panels,
            final(self).expanded_panels == old(self).expanded_panels,
    {
        let current = find_panel(&self.panels, self.selected_panel);
        let prev = if current == 0 {
            self.panels.len() - 1
        } else {
            current - 1
        };
        self.selected_panel = self.panels[prev];
    }

    /// Collapses `panel` where it is expanded, else expands it.
    pub fn toggle_panel_expand(&mut self, panel: SidebarPanel)
        ensures
            old(self).expanded_panels@.contains(panel) ==> final(self).expanded_panels@ == without(
                old(self).expanded_panels@,
                panel,
            ),
            !old(self).expanded_panels@.contains(panel) ==> final(self).expanded_panels@ == old(
                self,
            ).expanded_panels@.push(panel),
            final(self).panels == old(self).panels,
            final(self).selected_panel == old(self).selected_panel,
    {
        if self.is_panel_expanded(&panel) {
            let mut kept: Vec<SidebarPanel> = Vec::new();
            let mut i: usize = 0;
            while i < self.expanded_panels.len()
                invariant
                    i <= self.expanded_panels@.len(),
                    self.expanded_panels == old(self).expanded_panels,
                    kept@ == without(self.expanded_panels@.subrange(0, i as int), panel),
                decreases self.expanded_panels@.len() - i,
            {
                let ghost before = self.expanded_panels@.subrange(0, i as int + 1);
                assert(before.drop_last() =~= self.expanded_panels@.subrange(0, i as int));
                if self.expanded_panels[i] != panel {
                    kept.push(self.expanded_panels[i]);
                }
                i = i + 1;
            }
            assert(self.expanded_panels@.subrange(0, self.expanded_panels@.len() as int) =~= self.expanded_panels@);
            self.expanded_panels = kept;
        } else {
            self.expanded_panels.push(panel);
        }
    }

    /// Whether `panel` is expanded.
    pub fn is_panel_expanded(&self, panel: &SidebarPanel) -> (r: bool)
        ensures
            r == self.expanded_panels@.contains(*panel),
    {
        let mut i: usize = 0;
        while i < self.expanded_panels.len()
            invariant
                i <= self.expanded_panels@.len(),
                forall|j: int| 0 <= j < i ==> self.expanded_panels@[j] != *panel,
            decreases self.expanded_panels@.len() - i,
        {
            if self.expanded_panels[i] == *panel {
                return true;
            }
            i = i + 1;
        }
        false
    }
}

} // verus!
