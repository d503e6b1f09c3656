//! Parallel work sessions: their tabs, settings, events and counters.
use vstd::prelude::*;
use vstd::string::*;
use crate::tasks::SessionState;
use crate::text::{owned, texts};
use crate::types::{local_timestamp, new_id};

verus! {

/// Something that happened in one session that others may react to.
#[derive(Debug, Clone)]
pub enum SessionEvent {
    Message { from_session: String, to_session: Option<String>, content: String },
    TaskUpdate { session: String, task_id: String, status: String },
    VariableChange { key: String, old_value: Option<String>, new_value: Option<String> },
    FileChange { session: String, file: String, action: String },
    AgentAction { session: String, agent: String, action: String },
}

/// How a session saves and isolates its work.
#[derive(Debug, Clone, Copy, Default, PartialEq, Eq, Structural)]
pub struct SessionSettings {
    pub auto_save: bool,
    /// Seconds between automatic saves.
    pub save_interval: u64,
    pub context_limit: usize,
    pub output_capture: bool,
    pub agent_isolation: bool,
}

/// One tab of a session.
#[derive(Debug, Clone)]
pub struct SessionTab {
    pub id: String,
    pub name: String,
    pub tab_type: TabType,
    pub content: String,
    pub modified: bool,
}

impl SessionTab {
    /// A chat tab named `name`, with a fresh id.
    pub fn new_chat(name: &str) -> (r: SessionTab)
        ensures
            r.name@ == name@,
            r.tab_type == TabType::Chat,
            r.content@.len() == 0,
            !r.modified,
    {
        SessionTab { id: new_id(), name: owned(name), tab_type: TabType::Chat, content: String::new(), modified: false }
    }

    /// A terminal tab named `name` behind a lightning sign, with a fresh id.
    pub fn new_terminal(name: &str) -> (r: SessionTab)
        ensures
            r.name@ == "\u{26a1} "@ + name@,
            r.tab_type == TabType::Terminal,
            r.content@.len() == 0,
            !r.modified,
    {
        let mut title = String::from_str("\u{26a1} ");
        title.append(name);
        SessionTab { id: new_id(), name: title, tab_type: TabType::Terminal, content: String::new(), modified: false }
    }
}

impl Default for SessionTab {
    /// An empty chat tab with no name and a fresh id.
    fn default() -> (r: SessionTab)
        ensures
            r.name@.len() == 0,
            r.tab_type == TabType::Chat,
            r.content@.len() == 0,
            !r.modified,
    {
        SessionTab { id: new_id(), name: String::new(), tab_type: TabType::Chat, content: String::new(), modified: false }
    }
}

/// What a tab shows.
#[derive(Debug, Clone, Copy, PartialEq, Eq, Structural)]
pub enum TabType {
    Chat,
    Terminal,
    FileEditor,
    TaskView,
    MemoryView,
    Logs,
}

/// Counts of sessions by state, and of their messages, commands and tabs.
#[derive(Debug, Clone, Copy, Default, PartialEq, Eq, Structural)]
pub struct SessionStats {
    pub total_sessions: usize,
    pub active: usize,
    pub background: usize,
    pub paused: usize,
    pub terminated: usize,
    pub total_messages: usize,
    pub total_commands: usize,
    pub total_tabs: usize,
}

/// The last `n` entries of `s`, or all of them where there are fewer.
pub open spec fn keep_last<T>(s: Seq<T>, n: nat) -> Seq<T> {
    if s.len() > n {
        s.skip(s.len() - n)
    } else {
        s
    }
}

/// Drops entries from the front of `v` until at most `n` are left.
fn trim_front<T>(v: &mut Vec<T>, n: usize)
    ensures
        final(v)@ == keep_last(old(v)@, n as nat),
{
    if v.len() > n {
        let at = v.len() - n;
        let kept = v.split_off(at);
        *v = kept;
        assert(final(v)@ =~= old(v)@.skip(at as int)) by {
            assert(v@ == old(v)@.subrange(at as int, old(v)@.len() as int));
        }
    }
}

/// One chat message of a session's history, with the time it was recorded in
/// seconds since the Unix epoch.
#[derive(Debug, Clone)]
pub struct HistoryEntry {
    pub id: String,
    pub role: String,
    pub content: String,
    pub timestamp: i64,
}

/// The recent messages, commands and outputs of a session: at most
/// `max_entries` messages, and half as many commands and outputs.
#[derive(Debug, Clone)]
pub struct SessionHistory {
    pub messages: Vec<HistoryEntry>,
    pub commands: Vec<String>,
    pub outputs: Vec<String>,
    pub max_entries: usize,
}

impl SessionHistory {
    /// An empty history keeping `max_entries` messages.
    pub fn new(max_entries: usize) -> (r: SessionHistory)
        ensures
            r.messages@.len() == 0,
            r.commands@.len() == 0,
            r.outputs@.len() == 0,
            r.max_entries == max_entries,
    {
        SessionHistory { messages: Vec::new(), commands: Vec::new(), outputs: Vec::new(), max_entries }
    }

    /// Drops the oldest entries beyond the limits.
    fn trim(&mut self)
        ensures
            final(self).max_entries == old(self).max_entries,
            final(self).messages@ == keep_last(old(self).messages@, old(self).max_entries as nat),
            final(self).commands@ == keep_last(old(self).commands@, (old(self).max_entries / 2) as nat),
            final(self).outputs@ == keep_last(old(self).outputs@, (old(self).max_entries / 2) as nat),
    {
        let limit = self.max_entries;
        let half = self.max_entries / 2;
        trim_front(&mut self.messages, limit);
        trim_front(&mut self.commands, half);
        trim_front(&mut self.outputs, half);
    }

    /// Records a message from `role` and trims the history.
    pub fn add_message(&mut self, role: &str, content: &str)
        ensures
            final(self).max_entries == old(self).max_entries,
            exists|e: HistoryEntry|
                e.role@ == role@ && e.content@ == content@ && #[trigger] keep_last(old(self).messages@.push(e), old(self).max_entries as nat)
                    == final(self).messages@,
            final(self).commands@ == keep_last(old(self).commands@, (old(self).max_entries / 2) as nat),
            final(self).outputs@ == keep_last(old(self).outputs@, (old(self).max_entries / 2) as nat),
    {
        let entry = HistoryEntry { id: new_id(), role: owned(role), content: owned(content), timestamp: local_timestamp() };
        let ghost e = entry;
        self.messages.push(entry);
        self.trim();
        assert(keep_last(old(self).messages@.push(e), old(self).max_entries as nat) == self.messages@);
    }

    /// Records a command and trims the history.
    pub fn add_command(&mut self, command: &str)
        ensures
            final(self).max_entries == old(self).max_entries,
            texts(final(self).commands@) == keep_last(texts(old(self).commands@).push(command@), (old(self).max_entries / 2) as nat),
            final(self).messages@ == keep_last(old(self).messages@, old(self).max_entries as nat),
            final(self).outputs@ == keep_last(old(self).outputs@, (old(self).max_entries / 2) as nat),
    {
        let c = owned(command);
        let ghost before = self.commands@;
        self.commands.push(c);
        self.trim();
        proof { lemma_texts_keep_last(before.push(c), (old(self).max_entries / 2) as nat); }
    }

    /// Records an output and trims the history.
    pub fn add_output(&mut self, output: &str)
        ensures
            final(self).max_entries == old(self).max_entries,
            texts(final(self).outputs@) == keep_last(texts(old(self).outputs@).push(output@), (old(self).max_entries / 2) as nat),
            final(self).messages@ == keep_last(old(self).messages@, old(self).max_entries as nat),
            final(self).commands@ == keep_last(old(self).commands@, (old(self).max_entries / 2) as nat),
    {
        let o = owned(output);
        let ghost before = self.outputs@;
        self.outputs.push(o);
        self.trim();
        proof { lemma_texts_keep_last(before.push(o), (old(self).max_entries / 2) as nat); }
    }
}

proof fn lemma_texts_keep_last(v: Seq<String>, n: nat)
    ensures
        texts(keep_last(v, n)) == keep_last(texts(v), n),
{
    if v.len() > n {
        assert(texts(keep_last(v, n)) =~= keep_last(texts(v), n));
    }
}

/// A work session: its name, state, current task and model, and when it was
/// created and last active, in seconds since the Unix epoch.
#[derive(Debug, Clone)]
pub struct Session {
    pub id: String,
    pub name: String,
    pub state: SessionState,
    pub current_task: Option<String>,
    pub model_name: String,
    pub created_at: i64,
    pub last_active: i64,
}

impl Session {
    /// An active session named `name` on the model `model`, with a fresh id.
    pub fn new(name: &str, model: &str) -> (r: Session)
        ensures
            r.name@ == name@,
            r.model_name@ == model@,
            r.state == SessionState::Active,
            r.current_task is None,
            r.created_at == r.last_active,
    {
        let now = local_timestamp();
        Session {
            id: new_id(),
            name: owned(name),
            state: SessionState::Active,
            current_task: None,
            model_name: owned(model),
            created_at: now,
            last_active: now,
        }
    }

    /// A copy of the session.
    fn copy(&self) -> (r: Session)
        ensures
            r == *self,
    {
        Session {
            id: self.id.clone(),
            name: self.name.clone(),
            state: self.state,
            current_task: match &self.current_task {
                Some(t) => Some(t.clone()),
                None => None,
            },
            model_name: self.model_name.clone(),
            created_at: self.created_at,
            last_active: self.last_active,
        }
    }
}

impl Default for Session {
    /// An active session with no name, no task and no model, and a fresh id.
    fn default() -> (r: Session)
        ensures
            r.name@.len() == 0,
            r.model_name@.len() == 0,
            r.state == SessionState::Active,
            r.current_task is None,
            r.created_at == r.last_active,
    {
        let now = local_timestamp();
        Session {
            id: new_id(),
            name: String::new(),
            state: SessionState::Active,
            current_task: None,
            model_name: String::new(),
            created_at: now,
            last_active: now,
        }
    }
}

/// `b` is `a` with possibly another time of last activity.
pub open spec fn same_but_activity(a: Session, b: Session) -> bool {
    b == Session { last_active: b.last_active, ..a }
}

/// The sessions, each id at most once, and the active one.
#[derive(Debug, Clone)]
pub struct SessionManager {
    sessions: Vec<Session>,
    active_session: Option<String>,
}

impl SessionManager {
    /// The sessions, in the order they were added.
    pub closed spec fn session_list(&self) -> Seq<Session> {
        self.sessions@
    }

    /// The id of the active session, if one is set.
    pub closed spec fn active_id(&self) -> Option<Seq<char>> {
        match self.active_session {
            Some(id) => Some(id@),
            None => None,
        }
    }

    /// No two sessions share an id.
    pub closed spec fn well_formed(&self) -> bool {
        forall|i: int, j: int|
            0 <= i < self.sessions@.len() && 0 <= j < self.sessions@.len() && i != j ==> (#[trigger] self.sessions@[i]).id@
                != (#[trigger] self.sessions@[j]).id@
    }

    /// No sessions, none active.
    pub fn new() -> (r: SessionManager)
        ensures
            r.well_formed(),
            r.session_list().len() == 0,
            r.active_id() is None,
    {
        SessionManager { sessions: Vec::new(), active_session: None }
    }

    /// The position of the session with id `id`, if any.
    fn position(&self, id: &str) -> (r: Option<usize>)
        ensures
            match r {
                Some(i) => i < self.sessions@.len() && self.sessions@[i as int].id@ == id@,
                None => forall|k: int| 0 <= k < self.sessions@.len() ==> (#[trigger] self.sessions@[k]).id@ != id@,
            },
    {
        let key = owned(id);
        let mut i: usize = 0;
        while i < self.sessions.len()
            invariant
                i <= self.sessions@.len(),
                key@ == id@,
                forall|k: int| 0 <= k < i ==> (#[trigger] self.sessions@[k]).id@ != id@,
            decreases self.sessions@.len() - i,
        {
            if self.sessions[i].id == key {
                return Some(i);
            }
            i = i + 1;
        }
        None
    }

    /// Adds `session`, replacing the session of the same id if there is one.
    pub fn add_session(&mut self, session: Session)
        requires
            old(self).well_formed(),
        ensures
            final(self).well_formed(),
            final(self).active_id() == old(self).active_id(),
            match old(self).index_of(session.id@) {
                Some(k) => final(self).session_list() == old(self).session_list().update(k, session),
                None => final(self).session_list() == old(self).session_list().push(session),
            },
    {
        match self.position(session.id.as_str()) {
            Some(i) => {
                proof { self.lemma_index_of(i as int); }
                self.sessions.set(i, session);
            },
            None => {
                proof { self.lemma_index_of_none(session.id@); }
                self.sessions.push(session);
            },
        }
    }

    /// The position of the session with id `id`, if any.
    pub closed spec fn index_of(&self, id: Seq<char>) -> Option<int> {
        if exists|k: int| 0 <= k < self.sessions@.len() && (#[trigger] self.sessions@[k]).id@ == id {
            Some(choose|k: int| 0 <= k < self.sessions@.len() && (#[trigger] self.sessions@[k]).id@ == id)
        } else {
            None
        }
    }

    proof fn lemma_index_of(&self, i: int)
        requires
            self.well_formed(),
            0 <= i < self.sessions@.len(),
        ensures
            self.index_of(self.sessions@[i].id@) == Some(i),
    {
        let id = self.sessions@[i].id@;
        assert(self.sessions@[i].id@ == id);
        let k = choose|k: int| 0 <= k < self.sessions@.len() && (#[trigger] self.sessions@[k]).id@ == id;
        if k != i {
            assert(self.sessions@[k].id@ != self.sessions@[i].id@);
        }
    }

    proof fn lemma_index_of_none(&self, id: Seq<char>)
        requires
            forall|k: int| 0 <= k < self.sessions@.len() ==> (#[trigger] self.sessions@[k]).id@ != id,
        ensures
            self.index_of(id) is None,
    {
    }

    /// A copy of the session with id `id`, if there is one.
    pub fn get_session(&self, id: &str) -> (r: Option<Session>)
        requires
            self.well_formed(),
        ensures
            match self.index_of(id@) {
                Some(k) => r == Some(self.session_list()[k]),
                None => r is None,
            },
    {
        match self.position(id) {
            Some(i) => {
                proof { self.lemma_index_of(i as int); }
                Some(self.sessions[i].copy())
            },
            None => {
                proof { self.lemma_index_of_none(id@); }
                None
            },
        }
    }

    /// Copies of all sessions, in the order they were added.
    pub fn get_all_sessions(&self) -> (r: Vec<Session>)
        ensures
            r@ == self.session_list(),
    {
        let mut r: Vec<Session> = Vec::new();
        let mut i: usize = 0;
        while i < self.sessions.len()
            invariant
                i <= self.sessions@.len(),
                r@ == self.sessions@.subrange(0, i as int),
            decreases self.sessions@.len() - i,
        {
            r.push(self.sessions[i].copy());
            i = i + 1;
            assert(r@ =~= self.sessions@.subrange(0, i as int));
        }
        assert(self.sessions@.subrange(0, self.sessions@.len() as int) =~= self.sessions@);
        r
    }

    /// Marks the session at `i` as active now.
    fn touch(&mut self, i: usize)
        requires
            i < old(self).sessions@.len(),
        ensures
            final(self).sessions@.len() == old(self).sessions@.len(),
            final(self).active_session == old(self).active_session,
            same_but_activity(old(self).sessions@[i as int], final(self).sessions@[i as int]),
            forall|k: int| 0 <= k < old(self).sessions@.len() && k != i ==> final(self).sessions@[k] == old(self).sessions@[k],
    {
        let mut s = self.sessions[i].copy();
        s.last_active = local_timestamp();
        self.sessions.set(i, s);
    }

    /// Sets the active session; the session of that id, if any, becomes
    /// active now.
    pub fn set_active_session(&mut self, id: Option<&str>)
        requires
            old(self).well_formed(),
        ensures
            final(self).well_formed(),
            final(self).active_id() == match id {
                Some(s) => Some(s@),
                None => None::<Seq<char>>,
            },
            final(self).session_list().len() == old(self).session_list().len(),
            forall|k: int| 0 <= k < old(self).session_list().len() ==> same_but_activity(
                #[trigger] old(self).session_list()[k],
                final(self).session_list()[k],
            ),
    {
        self.active_session = match id {
            Some(s) => Some(owned(s)),
            None => None,
        };
        if let Some(s) = id {
            if let Some(i) = self.position(s) {
                self.touch(i);
            }
        }
        assert forall|i: int, j: int|
            0 <= i < self.sessions@.len() && 0 <= j < self.sessions@.len() && i != j implies (#[trigger] self.sessions@[i]).id@
                != (#[trigger] self.sessions@[j]).id@ by {
            assert(old(self).sessions@[i].id@ != old(self).sessions@[j].id@);
        }
    }

    /// The active session, if one is set and registered.
    pub fn get_active_session(&self) -> (r: Option<Session>)
        requires
            self.well_formed(),
        ensures
            match self.active_id() {
                Some(id) => match self.index_of(id) {
                    Some(k) => r == Some(self.session_list()[k]),
                    None => r is None,
                },
                None => r is None,
            },
    {
        match &self.active_session {
            Some(id) => self.get_session(id.as_str()),
            None => None,
        }
    }

    /// Pauses the session `from_id`, activates the session `to_id` now, and
    /// makes `to_id` the active session.
    pub fn switch_session(&mut self, from_id: &str, to_id: &str)
        requires
            old(self).well_formed(),
        ensures
            final(self).well_formed(),
            final(self).active_id() == Some(to_id@),
            final(self).session_list().len() == old(self).session_list().len(),
            forall|k: int| 0 <= k < old(self).session_list().len() ==> {
                let before = #[trigger] old(self).session_list()[k];
                let after = final(self).session_list()[k];
                if before.id@ == to_id@ {
                    same_but_activity(Session { state: SessionState::Active, ..before }, after)
                } else if before.id@ == from_id@ {
                    after == Session { state: SessionState::Paused, ..before }
                } else {
                    after == before
                }
            },
    {
        if let Some(i) = self.position(from_id) {
            let mut s = self.sessions[i].copy();
            s.state = SessionState::Paused;
            self.sessions.set(i, s);
        }
        let ghost paused = self.sessions@;
        if let Some(j) = self.position(to_id) {
            let mut s = self.sessions[j].copy();
            s.state = SessionState::Active;
            s.last_active = local_timestamp();
            self.sessions.set(j, s);
        }
        self.active_session = Some(owned(to_id));
        assert forall|i: int, j: int|
            0 <= i < self.sessions@.len() && 0 <= j < self.sessions@.len() && i != j implies (#[trigger] self.sessions@[i]).id@
                != (#[trigger] self.sessions@[j]).id@ by {
            assert(old(self).sessions@[i].id@ != old(self).sessions@[j].id@);
        }
    }
}

} // verus!
