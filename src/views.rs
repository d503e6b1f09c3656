//! The views of the terminal workbench and the state each keeps between
//! frames. Drawing them is left to the interface.
use vstd::prelude::*;
use vstd::string::*;
use crate::text::{lowercase, lower_of, texts};
use crate::theme::{theme_of_lowercase, ThemeName};

verus! {

/// The views of the workbench, in tab order.
#[derive(Debug, Clone, Copy, PartialEq, Eq, Structural)]
pub enum ViewId {
    Dashboard,
    Agents,
    Models,
    Tasks,
    Settings,
}

impl ViewId {
    /// Every view, in tab order.
    pub fn all() -> (r: [ViewId; 5])
        ensures
            r@ == seq![ViewId::Dashboard, ViewId::Agents, ViewId::Models, ViewId::Tasks, ViewId::Settings],
    {
        let r = [ViewId::Dashboard, ViewId::Agents, ViewId::Models, ViewId::Tasks, ViewId::Settings];
        assert(r@ =~= seq![ViewId::Dashboard, ViewId::Agents, ViewId::Models, ViewId::Tasks, ViewId::Settings]);
        r
    }

    /// The view after `self` in tab order, the first after the last.
    pub open spec fn following(self) -> ViewId {
        match self {
            ViewId::Dashboard => ViewId::Agents,
            ViewId::Agents => ViewId::Models,
            ViewId::Models => ViewId::Tasks,
            ViewId::Tasks => ViewId::Settings,
            ViewId::Settings => ViewId::Dashboard,
        }
    }

    /// The next view in tab order, wrapping around.
    pub fn next(self) -> (r: ViewId)
        ensures
            r == self.following(),
    {
        match self {
            ViewId::Dashboard => ViewId::Agents,
            ViewId::Agents => ViewId::Models,
            ViewId::Models => ViewId::Tasks,
            ViewId::Tasks => ViewId::Settings,
            ViewId::Settings => ViewId::Dashboard,
        }
    }

    /// The heading shown for the view.
    pub fn title(self) -> (r: &'static str)
        ensures
            self == ViewId::Dashboard ==> r@ == "Mission Control"@,
            self == ViewId::Agents ==> r@ == "Agents"@,
            self == ViewId::Models ==> r@ == "Models"@,
            self == ViewId::Tasks ==> r@ == "Tasks"@,
            self == ViewId::Settings ==> r@ == "Settings"@,
    {
        match self {
            ViewId::Dashboard => "Mission Control",
            ViewId::Agents => "Agents",
            ViewId::Models => "Models",
            ViewId::Tasks => "Tasks",
            ViewId::Settings => "Settings",
        }
    }

    /// The identifier of the view, in lower case.
    pub fn name(self) -> (r: &'static str)
        ensures
            self == ViewId::Dashboard ==> r@ == "dashboard"@,
            self == ViewId::Agents ==> r@ == "agents"@,
            self == ViewId::Models ==> r@ == "models"@,
            self == ViewId::Tasks ==> r@ == "tasks"@,
            self == ViewId::Settings ==> r@ == "settings"@,
    {
        match self {
            ViewId::Dashboard => "dashboard",
            ViewId::Agents => "agents",
            ViewId::Models => "models",
            ViewId::Tasks => "tasks",
            ViewId::Settings => "settings",
        }
    }
}

/// The panels of the first layout.
#[derive(Debug, Clone, Copy, PartialEq, Eq, Structural)]
pub enum Panel {
    Graph,
    Conversation,
    Logs,
}

impl Panel {
    /// The panel titles, in order.
    pub fn titles() -> (r: [&'static str; 3])
        ensures
            r@.len() == 3,
            r@[0]@ == "Graph"@,
            r@[1]@ == "Conversation"@,
            r@[2]@ == "Logs"@,
    {
        ["Graph", "Conversation", "Logs"]
    }
}

/// A list of owned strings made from literals, in order.
fn strings(items: &[&str]) -> (r: Vec<String>)
    ensures
        r@.len() == items@.len(),
        forall|i: int| 0 <= i < items@.len() ==> #[trigger] r@[i]@ == items@[i]@,
{
    let mut r: Vec<String> = Vec::new();
    let mut i: usize = 0;
    while i < items.len()
        invariant
            i <= items@.len(),
            r@.len() == i,
            forall|j: int| 0 <= j < i ==> #[trigger] r@[j]@ == items@[j]@,
        decreases items@.len() - i,
    {
        r.push(String::from_str(items[i]));
        i = i + 1;
    }
    r
}

/// The agents of the agent studio.
pub struct AgentsView {
    agents: Vec<String>,
}

impl Default for AgentsView {
    /// No agents yet.
    fn default() -> (r: AgentsView)
        ensures
            r.entries().len() == 0,
    {
        AgentsView { agents: Vec::new() }
    }
}

impl AgentsView {
    /// The registered agents, in order.
    pub closed spec fn entries(&self) -> Seq<Seq<char>> {
        texts(self.agents@)
    }

    /// The registered agents.
    pub fn agents(&self) -> (r: &Vec<String>)
        ensures
            texts(r@) == self.entries(),
    {
        &self.agents
    }

    /// Fills in the four built-in agents while the list is empty.
    pub fn tick(&mut self)
        ensures
            old(self).entries().len() > 0 ==> final(self).entries() == old(self).entries(),
            old(self).entries().len() == 0 ==> final(self).entries() == seq![
                "Planner \u{2022} Strategy"@,
                "Executor \u{2022} Tool runner"@,
                "Critic \u{2022} QA review"@,
                "MicroAgent \u{2022} Summarizer"@,
            ],
    {
        if self.agents.len() == 0 {
            self.agents = strings(&[
                "Planner \u{2022} Strategy",
                "Executor \u{2022} Tool runner",
                "Critic \u{2022} QA review",
                "MicroAgent \u{2022} Summarizer",
            ]);
            assert(self.entries() =~= seq![
                "Planner \u{2022} Strategy"@,
                "Executor \u{2022} Tool runner"@,
                "Critic \u{2022} QA review"@,
                "MicroAgent \u{2022} Summarizer"@,
            ]);
        }
    }
}

/// The mission-control dashboard and its feed of recent highlights.
pub struct DashboardView {
    highlights: Vec<String>,
}

impl Default for DashboardView {
    /// An empty feed.
    fn default() -> (r: DashboardView)
        ensures
            r.entries().len() == 0,
    {
        DashboardView { highlights: Vec::new() }
    }
}

impl DashboardView {
    /// The highlights, newest last.
    pub closed spec fn entries(&self) -> Seq<Seq<char>> {
        texts(self.highlights@)
    }

    /// The highlights.
    pub fn highlights(&self) -> (r: &Vec<String>)
        ensures
            texts(r@) == self.entries(),
    {
        &self.highlights
    }

    /// Keeps at most the first six highlights.
    pub fn tick(&mut self)
        ensures
            old(self).entries().len() <= 6 ==> final(self).entries() == old(self).entries(),
            old(self).entries().len() > 6 ==> final(self).entries() == old(self).entries().take(6),
    {
        if self.highlights.len() > 6 {
            self.highlights.truncate(6);
            assert(self.entries() =~= old(self).entries().take(6));
        }
    }
}

/// The model catalog: providers and models.
pub struct ModelsView {
    providers: Vec<String>,
    models: Vec<String>,
}

impl Default for ModelsView {
    /// No providers and no models yet.
    fn default() -> (r: ModelsView)
        ensures
            r.provider_entries().len() == 0,
            r.model_entries().len() == 0,
    {
        ModelsView { providers: Vec::new(), models: Vec::new() }
    }
}

impl ModelsView {
    /// The providers, in order.
    pub closed spec fn provider_entries(&self) -> Seq<Seq<char>> {
        texts(self.providers@)
    }

    /// The models, in order.
    pub closed spec fn model_entries(&self) -> Seq<Seq<char>> {
        texts(self.models@)
    }

    /// The providers.
    pub fn providers(&self) -> (r: &Vec<String>)
        ensures
            texts(r@) == self.provider_entries(),
    {
        &self.providers
    }

    /// The models.
    pub fn models(&self) -> (r: &Vec<String>)
        ensures
            texts(r@) == self.model_entries(),
    {
        &self.models
    }

    /// Fills in the three built-in providers and the three built-in models,
    /// each list only while it is empty.
    pub fn tick(&mut self)
        ensures
            old(self).provider_entries().len() > 0 ==> final(self).provider_entries() == old(self).provider_entries(),
            old(self).provider_entries().len() == 0 ==> final(self).provider_entries() == seq![
                "llama.cpp \u{2022} localhost"@,
                "Ollama \u{2022} local"@,
                "LM Studio \u{2022} local"@,
            ],
            old(self).model_entries().len() > 0 ==> final(self).model_entries() == old(self).model_entries(),
            old(self).model_entries().len() == 0 ==> final(self).model_entries() == seq![
                "local.gguf \u{2022} offline"@,
                "mixtral-8x7b \u{2022} remote"@,
                "codellama-13b \u{2022} staged"@,
            ],
    {
        if self.providers.len() == 0 {
            self.providers = strings(&["llama.cpp \u{2022} localhost", "Ollama \u{2022} local", "LM Studio \u{2022} local"]);
            assert(self.provider_entries() =~= seq![
                "llama.cpp \u{2022} localhost"@,
                "Ollama \u{2022} local"@,
                "LM Studio \u{2022} local"@,
            ]);
        }
        if self.models.len() == 0 {
            self.models = strings(&["local.gguf \u{2022} offline", "mixtral-8x7b \u{2022} remote", "codellama-13b \u{2022} staged"]);
            assert(self.model_entries() =~= seq![
                "local.gguf \u{2022} offline"@,
                "mixtral-8x7b \u{2022} remote"@,
                "codellama-13b \u{2022} staged"@,
            ]);
        }
    }
}

/// The task workspace: queues and active tasks.
pub struct TasksView {
    queues: Vec<String>,
    active: Vec<String>,
}

impl Default for TasksView {
    /// No queues and no active tasks yet.
    fn default() -> (r: TasksView)
        ensures
            r.queue_entries().len() == 0,
            r.active_entries().len() == 0,
    {
        TasksView { queues: Vec::new(), active: Vec::new() }
    }
}

impl TasksView {
    /// The queues, in order.
    pub closed spec fn queue_entries(&self) -> Seq<Seq<char>> {
        texts(self.queues@)
    }

    /// The active tasks, in order.
    pub closed spec fn active_entries(&self) -> Seq<Seq<char>> {
        texts(self.active@)
    }

    /// The queues.
    pub fn queues(&self) -> (r: &Vec<String>)
        ensures
            texts(r@) == self.queue_entries(),
    {
        &self.queues
    }

    /// The active tasks.
    pub fn active(&self) -> (r: &Vec<String>)
        ensures
            texts(r@) == self.active_entries(),
    {
        &self.active
    }

    /// Fills in the three built-in queues and the three built-in active
    /// tasks, each list only while it is empty.
    pub fn tick(&mut self)
        ensures
            old(self).queue_entries().len() > 0 ==> final(self).queue_entries() == old(self).queue_entries(),
            old(self).queue_entries().len() == 0 ==> final(self).queue_entries() == seq![
                "Backlog \u{2022} 12"@,
                "Today \u{2022} 4"@,
                "Waiting \u{2022} 2"@,
            ],
            old(self).active_entries().len() > 0 ==> final(self).active_entries() == old(self).active_entries(),
            old(self).active_entries().len() == 0 ==> final(self).active_entries() == seq![
                "Design agent workflow"@,
                "Implement vector memory"@,
                "Model registry sync"@,
            ],
    {
        if self.queues.len() == 0 {
            self.queues = strings(&["Backlog \u{2022} 12", "Today \u{2022} 4", "Waiting \u{2022} 2"]);
            assert(self.queue_entries() =~= seq![
                "Backlog \u{2022} 12"@,
                "Today \u{2022} 4"@,
                "Waiting \u{2022} 2"@,
            ]);
        }
        if self.active.len() == 0 {
            self.active = strings(&["Design agent workflow", "Implement vector memory", "Model registry sync"]);
            assert(self.active_entries() =~= seq![
                "Design agent workflow"@,
                "Implement vector memory"@,
                "Model registry sync"@,
            ]);
        }
    }
}

/// The settings view.
#[derive(Debug, Clone, Copy, Default)]
pub struct SettingsView;

impl SettingsView {
    /// The theme named `input`, in any case.
    pub fn parse_theme(input: &str) -> (r: Option<ThemeName>)
        ensures
            r == theme_of_lowercase(lower_of(input@)),
    {
        let s = lowercase(input);
        if s == String::from_str("darkplus") {
            Some(ThemeName::DarkPlus)
        } else if s == String::from_str("light") {
            Some(ThemeName::Light)
        } else if s == String::from_str("monokai") {
            Some(ThemeName::Monokai)
        } else if s == String::from_str("solarizeddark") {
            Some(ThemeName::SolarizedDark)
        } else if s == String::from_str("solarizedlight") {
            Some(ThemeName::SolarizedLight)
        } else if s == String::from_str("dracula") {
            Some(ThemeName::Dracula)
        } else if s == String::from_str("onedark") {
            Some(ThemeName::OneDark)
        } else if s == String::from_str("nord") {
            Some(ThemeName::Nord)
        } else if s == String::from_str("gruvbox") {
            Some(ThemeName::Gruvbox)
        } else if s == String::from_str("peacocks") {
            Some(ThemeName::Peacocks)
        } else {
            None
        }
    }
}

} // verus!
