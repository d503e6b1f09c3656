//! The command palette: the commands it offers, its query, its selection and
//! the recently used commands.
use vstd::prelude::*;
use crate::text::{contains_text, lower_of, lowercase, owned, text_contains, text_less, text_lt, texts};

verus! {

/// The groups that commands belong to.
#[derive(Debug, Clone, Copy, PartialEq, Eq, Hash, Structural)]
pub enum CommandCategory {
    Navigation,
    Editor,
    Agent,
    Session,
    System,
    Settings,
    Help,
    Models,
    Tasks,
}

impl CommandCategory {
    /// The category's heading, icon first.
    pub fn name(&self) -> (r: &'static str)
        ensures
            *self == CommandCategory::Navigation ==> r@ == "\u{1f697} Navigation"@,
            *self == CommandCategory::Editor ==> r@ == "\u{270f}\u{fe0f} Editor"@,
            *self == CommandCategory::Agent ==> r@ == "\u{1f916} Agent"@,
            *self == CommandCategory::Session ==> r@ == "\u{1f4bb} Session"@,
            *self == CommandCategory::System ==> r@ == "\u{2699}\u{fe0f} System"@,
            *self == CommandCategory::Settings ==> r@ == "\u{1f527} Settings"@,
            *self == CommandCategory::Help ==> r@ == "\u{2753} Help"@,
            *self == CommandCategory::Models ==> r@ == "\u{1f916} Models"@,
            *self == CommandCategory::Tasks ==> r@ == "\u{1f4cb} Tasks"@,
    {
        match self {
            CommandCategory::Navigation => "\u{1f697} Navigation",
            CommandCategory::Editor => "\u{270f}\u{fe0f} Editor",
            CommandCategory::Agent => "\u{1f916} Agent",
            CommandCategory::Session => "\u{1f4bb} Session",
            CommandCategory::System => "\u{2699}\u{fe0f} System",
            CommandCategory::Settings => "\u{1f527} Settings",
            CommandCategory::Help => "\u{2753} Help",
            CommandCategory::Models => "\u{1f916} Models",
            CommandCategory::Tasks => "\u{1f4cb} Tasks",
        }
    }

    /// The category's icon.
    pub fn icon(&self) -> (r: &'static str)
        ensures
            *self == CommandCategory::Navigation ==> r@ == "\u{1f697}"@,
            *self == CommandCategory::Editor ==> r@ == "\u{270f}\u{fe0f}"@,
            *self == CommandCategory::Agent ==> r@ == "\u{1f916}"@,
            *self == CommandCategory::Session ==> r@ == "\u{1f4bb}"@,
            *self == CommandCategory::System ==> r@ == "\u{2699}\u{fe0f}"@,
            *self == CommandCategory::Settings ==> r@ == "\u{1f527}"@,
            *self == CommandCategory::Help ==> r@ == "\u{2753}"@,
            *self == CommandCategory::Models ==> r@ == "\u{1f916}"@,
            *self == CommandCategory::Tasks ==> r@ == "\u{1f4cb}"@,
    {
        match self {
            CommandCategory::Navigation => "\u{1f697}",
            CommandCategory::Editor => "\u{270f}\u{fe0f}",
            CommandCategory::Agent => "\u{1f916}",
            CommandCategory::Session => "\u{1f4bb}",
            CommandCategory::System => "\u{2699}\u{fe0f}",
            CommandCategory::Settings => "\u{1f527}",
            CommandCategory::Help => "\u{2753}",
            CommandCategory::Models => "\u{1f916}",
            CommandCategory::Tasks => "\u{1f4cb}",
        }
    }
}

/// A command of the palette.
#[derive(Debug, Clone)]
pub struct Command {
    pub id: String,
    pub title: String,
    pub category: CommandCategory,
    pub shortcut: Option<String>,
    pub description: String,
    pub keywords: Vec<String>,
    pub action: CommandAction,
}

/// What running a command does.
#[derive(Debug, Clone)]
pub enum CommandAction {
    OpenCommandPalette,
    QuickOpen,
    GoToLine,
    NewTask,
    ListTasks,
    NewSession,
    SwitchSession,
    CloseSession,
    SaveFile,
    SaveAll,
    ToggleSidebar,
    ToggleTerminal,
    OpenSettings,
    OpenHelp,
    ImportModel,
    ListModels,
    SwitchModel,
    ViewHistory,
    ViewMemory,
    /// A command defined by the user, by name.
    Custom(String),
}

/// The most recent commands the palette remembers.
pub const MAX_RECENT: usize = 10;

/// `ids` without any occurrence of `id`, the rest in order.
pub open spec fn other_ids(ids: Seq<Seq<char>>, id: Seq<char>) -> Seq<Seq<char>>
    decreases ids.len(),
{
    if ids.len() == 0 {
        ids
    } else if ids.last() == id {
        other_ids(ids.drop_last(), id)
    } else {
        other_ids(ids.drop_last(), id).push(ids.last())
    }
}

/// The recent list after using `id`: `id` first, then the others in order,
/// at most `MAX_RECENT` in all.
pub open spec fn recent_after(ids: Seq<Seq<char>>, id: Seq<char>) -> Seq<Seq<char>> {
    let all = seq![id] + other_ids(ids, id);
    if all.len() > MAX_RECENT {
        all.take(MAX_RECENT as int)
    } else {
        all
    }
}

/// The most commands the palette lists at once.
pub const MAX_LISTED: usize = 20;

/// Whether the lower-case query `q` occurs in the lower-cased title,
/// description or one of the keywords of `c`.
pub open spec fn matches_query(c: Command, q: Seq<char>) -> bool {
    ||| text_contains(lower_of(c.title@), q)
    ||| text_contains(lower_of(c.description@), q)
    ||| exists|k: int| 0 <= k < c.keywords@.len() && text_contains(lower_of(#[trigger] c.keywords@[k]@), q)
}

/// The positions of the commands that the lower-case query `q` selects, in
/// order: all of them for an empty query.
pub open spec fn matching(cmds: Seq<Command>, q: Seq<char>) -> Seq<usize>
    decreases cmds.len(),
{
    if cmds.len() == 0 {
        Seq::empty()
    } else if q.len() == 0 || matches_query(cmds.last(), q) {
        matching(cmds.drop_last(), q).push((cmds.len() - 1) as usize)
    } else {
        matching(cmds.drop_last(), q)
    }
}

/// Whether command `i` of `cmds` is listed before command `j`: commands with
/// a shortcut first, then by title.
pub open spec fn listed_before(cmds: Seq<Command>, i: usize, j: usize) -> bool {
    let a = cmds[i as int];
    let b = cmds[j as int];
    (a.shortcut is Some && b.shortcut is None) || ((a.shortcut is Some) == (b.shortcut is Some) && text_less(
        a.title@,
        b.title@,
    ))
}

/// `x` placed into the listing `s`: after every entry it does not come
/// before, so that entries that compare equal keep their order.
pub open spec fn place(cmds: Seq<Command>, s: Seq<usize>, x: usize) -> Seq<usize>
    decreases s.len(),
{
    if s.len() == 0 {
        seq![x]
    } else if listed_before(cmds, x, s.last()) {
        place(cmds, s.drop_last(), x).push(s.last())
    } else {
        s.push(x)
    }
}

/// The positions `s` in listing order, equal entries in their given order.
pub open spec fn listing_order(cmds: Seq<Command>, s: Seq<usize>) -> Seq<usize>
    decreases s.len(),
{
    if s.len() == 0 {
        s
    } else {
        place(cmds, listing_order(cmds, s.drop_last()), s.last())
    }
}

/// `s` is in listing order: no entry is listed before the one ahead of it.
pub open spec fn in_listing_order(cmds: Seq<Command>, s: Seq<usize>) -> bool {
    forall|k: int| 0 <= k < s.len() - 1 ==> !listed_before(cmds, #[trigger] s[k + 1], s[k])
}

proof fn lemma_text_less_asymmetric(a: Seq<char>, b: Seq<char>)
    ensures
        text_less(a, b) ==> !text_less(b, a),
    decreases a.len(),
{
    if a.len() > 0 && b.len() > 0 && a[0] == b[0] {
        lemma_text_less_asymmetric(a.drop_first(), b.drop_first());
    }
}

proof fn lemma_listed_before_asymmetric(cmds: Seq<Command>, i: usize, j: usize)
    ensures
        listed_before(cmds, i, j) ==> !listed_before(cmds, j, i),
{
    lemma_text_less_asymmetric(cmds[i as int].title@, cmds[j as int].title@);
}

proof fn lemma_place_sorted(cmds: Seq<Command>, s: Seq<usize>, x: usize)
    requires
        in_listing_order(cmds, s),
    ensures
        in_listing_order(cmds, place(cmds, s, x)),
        place(cmds, s, x).len() == s.len() + 1,
        forall|y: usize| #[trigger] place(cmds, s, x).contains(y) <==> (s.contains(y) || y == x),
        place(cmds, s, x).last() == (if s.len() == 0 || !listed_before(cmds, x, s.last()) {
            x
        } else {
            s.last()
        }),
    decreases s.len(),
{
    if s.len() == 0 {
        assert(place(cmds, s, x) =~= seq![x]);
        assert forall|y: usize| place(cmds, s, x).contains(y) <==> (s.contains(y) || y == x) by {
            if y == x {
                assert(place(cmds, s, x)[0] == x);
            }
        }
    } else if listed_before(cmds, x, s.last()) {
        let d = s.drop_last();
        assert(in_listing_order(cmds, d)) by {
            assert forall|k: int| 0 <= k < d.len() - 1 implies !listed_before(cmds, #[trigger] d[k + 1], d[k]) by {
                assert(d[k + 1] == s[k + 1] && d[k] == s[k]);
            }
        }
        lemma_place_sorted(cmds, d, x);
        let p = place(cmds, d, x);
        let r = p.push(s.last());
        assert(place(cmds, s, x) == r);
        assert(in_listing_order(cmds, r)) by {
            assert forall|k: int| 0 <= k < r.len() - 1 implies !listed_before(cmds, #[trigger] r[k + 1], r[k]) by {
                if k + 1 == r.len() - 1 {
                    assert(r[k + 1] == s.last());
                    assert(r[k] == p.last());
                    if d.len() == 0 || !listed_before(cmds, x, d.last()) {
                        lemma_listed_before_asymmetric(cmds, x, s.last());
                    } else {
                        assert(d.last() == s[s.len() - 2]);
                        assert(!listed_before(cmds, s[s.len() - 2 + 1], s[s.len() - 2]));
                    }
                } else {
                    assert(r[k + 1] == p[k + 1] && r[k] == p[k]);
                }
            }
        }
        assert forall|y: usize| r.contains(y) <==> (s.contains(y) || y == x) by {
            if s.contains(y) && y != s.last() {
                let k = choose|k: int| 0 <= k < s.len() && s[k] == y;
                assert(d.contains(y)) by {
                    assert(d[k] == y);
                }
                assert(p.contains(y));
                let m = choose|m: int| 0 <= m < p.len() && p[m] == y;
                assert(r[m] == y);
            }
            if y == x {
                assert(p.contains(y));
                let m = choose|m: int| 0 <= m < p.len() && p[m] == y;
                assert(r[m] == y);
            }
            if y == s.last() {
                assert(r[r.len() - 1] == y);
            }
            if r.contains(y) {
                let m = choose|m: int| 0 <= m < r.len() && r[m] == y;
                if m < p.len() {
                    assert(p[m] == y);
                    assert(p.contains(y));
                    if d.contains(y) {
                        let k = choose|k: int| 0 <= k < d.len() && d[k] == y;
                        assert(s[k] == y);
                    }
                } else {
                    assert(s[s.len() - 1] == y);
                }
            }
        }
    } else {
        let r = s.push(x);
        assert(place(cmds, s, x) == r);
        assert(in_listing_order(cmds, r)) by {
            assert forall|k: int| 0 <= k < r.len() - 1 implies !listed_before(cmds, #[trigger] r[k + 1], r[k]) by {
                if k + 1 == r.len() - 1 {
                    assert(r[k] == s.last());
                } else {
                    assert(r[k + 1] == s[k + 1] && r[k] == s[k]);
                }
            }
        }
        assert forall|y: usize| r.contains(y) <==> (s.contains(y) || y == x) by {
            if s.contains(y) {
                let k = choose|k: int| 0 <= k < s.len() && s[k] == y;
                assert(r[k] == y);
            }
            if y == x {
                assert(r[r.len() - 1] == y);
            }
            if r.contains(y) {
                let m = choose|m: int| 0 <= m < r.len() && r[m] == y;
                if m < s.len() {
                    assert(s[m] == y);
                }
            }
        }
    }
}

/// Listing order sorts: its result is in listing order and holds the same
/// positions as its input.
pub proof fn lemma_listing_order_sorted(cmds: Seq<Command>, s: Seq<usize>)
    ensures
        in_listing_order(cmds, listing_order(cmds, s)),
        listing_order(cmds, s).len() == s.len(),
        forall|y: usize| #[trigger] listing_order(cmds, s).contains(y) <==> s.contains(y),
    decreases s.len(),
{
    if s.len() > 0 {
        let d = s.drop_last();
        lemma_listing_order_sorted(cmds, d);
        lemma_place_sorted(cmds, listing_order(cmds, d), s.last());
        assert forall|y: usize| listing_order(cmds, s).contains(y) <==> s.contains(y) by {
            if d.contains(y) {
                let k = choose|k: int| 0 <= k < d.len() && d[k] == y;
                assert(s[k] == y);
            }
            if s.contains(y) && y != s.last() {
                let k = choose|k: int| 0 <= k < s.len() && s[k] == y;
                assert(k != s.len() - 1);
                assert(d[k] == y);
            }
            if y == s.last() {
                assert(s[s.len() - 1] == y);
            }
        }
    }
}

/// The commands the palette lists for the lower-case query `q`, by position.
pub open spec fn listed(cmds: Seq<Command>, q: Seq<char>) -> Seq<usize> {
    let all = listing_order(cmds, matching(cmds, q));
    if all.len() > MAX_LISTED {
        all.take(MAX_LISTED as int)
    } else {
        all
    }
}

/// `a` is a copy of `b`.
pub open spec fn same_command(a: Command, b: Command) -> bool {
    &&& a.id == b.id
    &&& a.title == b.title
    &&& a.category == b.category
    &&& a.shortcut == b.shortcut
    &&& a.description == b.description
    &&& a.keywords@ == b.keywords@
    &&& a.action == b.action
}

proof fn lemma_place(cmds: Seq<Command>, s: Seq<usize>, x: usize, j: int)
    requires
        0 <= j <= s.len(),
        forall|m: int| j <= m < s.len() ==> listed_before(cmds, x, #[trigger] s[m]),
        j == 0 || !listed_before(cmds, x, s[j - 1]),
    ensures
        place(cmds, s, x) == s.take(j) + seq![x] + s.skip(j),
    decreases s.len(),
{
    if j == s.len() {
        assert(s.take(j) + seq![x] + s.skip(j) =~= s.push(x));
    } else {
        assert(listed_before(cmds, x, s[s.len() - 1]));
        let d = s.drop_last();
        lemma_place(cmds, d, x, j);
        assert(d.take(j) + seq![x] + d.skip(j) + seq![s.last()] =~= s.take(j) + seq![x] + s.skip(j));
    }
}

proof fn lemma_matching_in_range(cmds: Seq<Command>, q: Seq<char>)
    requires
        cmds.len() <= usize::MAX,
    ensures
        forall|m: int| 0 <= m < matching(cmds, q).len() ==> (#[trigger] matching(cmds, q)[m]) < cmds.len(),
    decreases cmds.len(),
{
    if cmds.len() > 0 {
        let prev = matching(cmds.drop_last(), q);
        lemma_matching_in_range(cmds.drop_last(), q);
        assert forall|m: int| 0 <= m < matching(cmds, q).len() implies (#[trigger] matching(cmds, q)[m]) < cmds.len() by {
            if m < prev.len() {
                assert(matching(cmds, q)[m] == prev[m]);
            }
        }
    }
}

/// Whether `c` matches the lower-case query `q`.
fn command_matches(c: &Command, q: &str) -> (r: bool)
    ensures
        r == matches_query(*c, q@),
{
    if contains_text(lowercase(c.title.as_str()).as_str(), q) {
        return true;
    }
    if contains_text(lowercase(c.description.as_str()).as_str(), q) {
        return true;
    }
    let mut k: usize = 0;
    while k < c.keywords.len()
        invariant
            k <= c.keywords@.len(),
            !text_contains(lower_of(c.title@), q@),
            !text_contains(lower_of(c.description@), q@),
            forall|m: int| 0 <= m < k ==> !text_contains(lower_of(#[trigger] c.keywords@[m]@), q@),
        decreases c.keywords@.len() - k,
    {
        if contains_text(lowercase(c.keywords[k].as_str()).as_str(), q) {
            return true;
        }
        k = k + 1;
    }
    false
}

/// Whether command `i` is listed before command `j`.
fn is_listed_before(cmds: &[Command], i: usize, j: usize) -> (r: bool)
    requires
        i < cmds@.len(),
        j < cmds@.len(),
    ensures
        r == listed_before(cmds@, i, j),
{
    let a = &cmds[i];
    let b = &cmds[j];
    let sa = a.shortcut.is_some();
    let sb = b.shortcut.is_some();
    if sa && !sb {
        true
    } else if sa == sb {
        text_lt(a.title.as_str(), b.title.as_str())
    } else {
        false
    }
}

/// A copy of an optional string.
fn copy_option(o: &Option<String>) -> (r: Option<String>)
    ensures
        r == *o,
{
    match o {
        Some(s) => Some(s.clone()),
        None => None,
    }
}

/// A copy of a list of strings.
fn copy_strings(v: &Vec<String>) -> (r: Vec<String>)
    ensures
        r@ == v@,
{
    let mut r: Vec<String> = Vec::new();
    let mut i: usize = 0;
    while i < v.len()
        invariant
            i <= v@.len(),
            r@ == v@.subrange(0, i as int),
        decreases v@.len() - i,
    {
        r.push(v[i].clone());
        i = i + 1;
        assert(r@ =~= v@.subrange(0, i as int));
    }
    assert(v@.subrange(0, v@.len() as int) =~= v@);
    r
}

impl CommandAction {
    /// A copy of the action.
    pub(crate) fn copy(&self) -> (r: CommandAction)
        ensures
            r == *self,
    {
        match self {
            CommandAction::OpenCommandPalette => CommandAction::OpenCommandPalette,
            CommandAction::QuickOpen => CommandAction::QuickOpen,
            CommandAction::GoToLine => CommandAction::GoToLine,
            CommandAction::NewTask => CommandAction::NewTask,
            CommandAction::ListTasks => CommandAction::ListTasks,
            CommandAction::NewSession => CommandAction::NewSession,
            CommandAction::SwitchSession => CommandAction::SwitchSession,
            CommandAction::CloseSession => CommandAction::CloseSession,
            CommandAction::SaveFile => CommandAction::SaveFile,
            CommandAction::SaveAll => CommandAction::SaveAll,
            CommandAction::ToggleSidebar => CommandAction::ToggleSidebar,
            CommandAction::ToggleTerminal => CommandAction::ToggleTerminal,
            CommandAction::OpenSettings => CommandAction::OpenSettings,
            CommandAction::OpenHelp => CommandAction::OpenHelp,
            CommandAction::ImportModel => CommandAction::ImportModel,
            CommandAction::ListModels => CommandAction::ListModels,
            CommandAction::SwitchModel => CommandAction::SwitchModel,
            CommandAction::ViewHistory => CommandAction::ViewHistory,
            CommandAction::ViewMemory => CommandAction::ViewMemory,
            CommandAction::Custom(name) => CommandAction::Custom(name.clone()),
        }
    }
}

impl Command {
    /// A copy of the command.
    pub(crate) fn copy(&self) -> (r: Command)
        ensures
            same_command(r, *self),
    {
        Command {
            id: self.id.clone(),
            title: self.title.clone(),
            category: self.category,
            shortcut: copy_option(&self.shortcut),
            description: self.description.clone(),
            keywords: copy_strings(&self.keywords),
            action: self.action.copy(),
        }
    }
}

/// The state of the palette.
#[derive(Debug, Clone)]
pub struct CommandPaletteState {
    pub is_open: bool,
    pub query: String,
    pub selected_index: usize,
    pub filtered_commands: Vec<Command>,
    /// Ids of the recently used commands, the latest first.
    pub recent_commands: Vec<String>,
    pub categories: Vec<CommandCategory>,
    pub selected_category: Option<CommandCategory>,
}

impl Default for CommandPaletteState {
    /// A closed palette with an empty query, nothing listed or recent, and the
    /// categories in display order.
    fn default() -> (r: CommandPaletteState)
        ensures
            !r.is_open,
            r.query@.len() == 0,
            r.selected_index == 0,
            r.filtered_commands@.len() == 0,
            r.recent_commands@.len() == 0,
            r.categories@ == seq![
                CommandCategory::Navigation,
                CommandCategory::Editor,
                CommandCategory::Agent,
                CommandCategory::Session,
                CommandCategory::Tasks,
                CommandCategory::Models,
                CommandCategory::Settings,
                CommandCategory::Help,
            ],
            r.selected_category is None,
    {
        let categories = vec![
            CommandCategory::Navigation,
            CommandCategory::Editor,
            CommandCategory::Agent,
            CommandCategory::Session,
            CommandCategory::Tasks,
            CommandCategory::Models,
            CommandCategory::Settings,
            CommandCategory::Help,
        ];
        CommandPaletteState {
            is_open: false,
            query: String::new(),
            selected_index: 0,
            filtered_commands: Vec::new(),
            recent_commands: Vec::new(),
            categories,
            selected_category: None,
        }
    }
}

impl CommandPaletteState {
    /// The default palette.
    pub fn new() -> (r: CommandPaletteState)
        ensures
            !r.is_open,
            r.query@.len() == 0,
            r.selected_index == 0,
            r.filtered_commands@.len() == 0,
            r.recent_commands@.len() == 0,
            r.categories@.len() == 8,
            r.selected_category is None,
    {
        Self::default()
    }

    /// Lists the commands whose title, description or a keyword contains the
    /// query, ignoring case (all of them for an empty query): those with a
    /// shortcut first, then by title, at most `MAX_LISTED`; the selection
    /// returns to the first entry.
    pub fn filter_commands(&mut self, commands: &[Command])
        ensures
            final(self).filtered_commands@.len() == listed(commands@, lower_of(old(self).query@)).len(),
            forall|k: int| 0 <= k < final(self).filtered_commands@.len() ==> same_command(
                #[trigger] final(self).filtered_commands@[k],
                commands@[listed(commands@, lower_of(old(self).query@))[k] as int],
            ),
            in_listing_order(commands@, listed(commands@, lower_of(old(self).query@))),
            forall|k: int| 0 <= k < listed(commands@, lower_of(old(self).query@)).len() ==> matching(
                commands@,
                lower_of(old(self).query@),
            ).contains(#[trigger] listed(commands@, lower_of(old(self).query@))[k]),
            listed(commands@, lower_of(old(self).query@)).len() == if matching(commands@, lower_of(old(self).query@)).len() > MAX_LISTED {
                MAX_LISTED as int
            } else {
                matching(commands@, lower_of(old(self).query@)).len() as int
            },
            final(self).selected_index == 0,
            final(self).query == old(self).query,
            final(self).recent_commands == old(self).recent_commands,
            final(self).is_open == old(self).is_open,
            final(self).categories == old(self).categories,
            final(self).selected_category == old(self).selected_category,
    {
        let query = lowercase(self.query.as_str());
        let ghost q = query@;
        let ghost cmds = commands@;
        let empty_query = query.unicode_len() == 0;
        let mut picked: Vec<usize> = Vec::new();
        let mut i: usize = 0;
        while i < commands.len()
            invariant
                i <= cmds.len(),
                cmds == commands@,
                q == query@,
                empty_query == (q.len() == 0),
                picked@ == matching(cmds.subrange(0, i as int), q),
            decreases cmds.len() - i,
        {
            let ghost upto = cmds.subrange(0, i as int + 1);
            assert(upto.drop_last() =~= cmds.subrange(0, i as int));
            assert(upto.last() == cmds[i as int]);
            if empty_query || command_matches(&commands[i], query.as_str()) {
                picked.push(i);
            }
            i = i + 1;
        }
        assert(cmds.subrange(0, cmds.len() as int) =~= cmds);
        proof { lemma_matching_in_range(cmds, q); }
        let mut order: Vec<usize> = Vec::new();
        let mut k: usize = 0;
        while k < picked.len()
            invariant
                k <= picked@.len(),
                cmds == commands@,
                picked@ == matching(cmds, q),
                forall|m: int| 0 <= m < picked@.len() ==> (#[trigger] picked@[m]) < cmds.len(),
                forall|m: int| 0 <= m < order@.len() ==> (#[trigger] order@[m]) < cmds.len(),
                order@ == listing_order(cmds, picked@.subrange(0, k as int)),
                order@.len() == k,
            decreases picked@.len() - k,
        {
            let x = picked[k];
            let mut j: usize = order.len();
            while j > 0 && is_listed_before(commands, x, order[j - 1])
                invariant
                    j <= order@.len(),
                    x < cmds.len(),
                    cmds == commands@,
                    forall|m: int| 0 <= m < order@.len() ==> (#[trigger] order@[m]) < cmds.len(),
                    forall|m: int| j <= m < order@.len() ==> listed_before(cmds, x, #[trigger] order@[m]),
                decreases j,
            {
                j = j - 1;
            }
            proof {
                lemma_place(cmds, order@, x, j as int);
                let upto = picked@.subrange(0, k as int + 1);
                assert(upto.drop_last() =~= picked@.subrange(0, k as int));
                assert(upto.last() == x);
                assert(order@.insert(j as int, x) =~= order@.take(j as int) + seq![x] + order@.skip(j as int));
            }
            order.insert(j, x);
            k = k + 1;
        }
        assert(picked@.subrange(0, picked@.len() as int) =~= picked@);
        let ghost full = order@;
        let mut listed_cmds: Vec<Command> = Vec::new();
        let mut n: usize = 0;
        while n < order.len() && n < MAX_LISTED
            invariant
                n <= order@.len(),
                n <= MAX_LISTED,
                cmds == commands@,
                full == order@,
                full == listing_order(cmds, matching(cmds, q)),
                forall|m: int| 0 <= m < order@.len() ==> (#[trigger] order@[m]) < cmds.len(),
                listed_cmds@.len() == n,
                forall|m: int| 0 <= m < n ==> same_command(#[trigger] listed_cmds@[m], cmds[order@[m] as int]),
            decreases order@.len() - n,
        {
            listed_cmds.push(commands[order[n]].copy());
            n = n + 1;
        }
        proof {
            let l = listed(cmds, q);
            lemma_listing_order_sorted(cmds, matching(cmds, q));
            assert forall|k: int| 0 <= k < l.len() - 1 implies !listed_before(cmds, #[trigger] l[k + 1], l[k]) by {
                assert(l[k + 1] == full[k + 1] && l[k] == full[k]);
            }
            assert forall|k: int| 0 <= k < l.len() implies matching(cmds, q).contains(#[trigger] l[k]) by {
                assert(l[k] == full[k]);
                assert(full.contains(full[k]));
            }
            if full.len() > MAX_LISTED {
                assert(l == full.take(MAX_LISTED as int));
            } else {
                assert(l == full);
            }
            assert forall|m: int| 0 <= m < listed_cmds@.len() implies same_command(
                #[trigger] listed_cmds@[m],
                cmds[l[m] as int],
            ) by {
                assert(l[m] == full[m]);
            }
        }
        self.filtered_commands = listed_cmds;
        self.selected_index = 0;
    }

    /// Records `command_id` as the latest command: it moves to the front, and
    /// only the latest `MAX_RECENT` are kept.
    pub fn add_recent(&mut self, command_id: &str)
        ensures
            texts(final(self).recent_commands@) == recent_after(texts(old(self).recent_commands@), command_id@),
            final(self).recent_commands@.len() > 0,
            final(self).recent_commands@[0]@ == command_id@,
            final(self).filtered_commands == old(self).filtered_commands,
            final(self).is_open == old(self).is_open,
            final(self).selected_index == old(self).selected_index,
    {
        let ghost id = command_id@;
        let ghost ids = texts(self.recent_commands@);
        let mut others: Vec<String> = Vec::new();
        let mut i: usize = 0;
        while i < self.recent_commands.len()
            invariant
                i <= self.recent_commands@.len(),
                self.recent_commands == old(self).recent_commands,
                self.filtered_commands == old(self).filtered_commands,
                self.selected_index == old(self).selected_index,
                ids == texts(self.recent_commands@),
                id == command_id@,
                texts(others@) == other_ids(ids.subrange(0, i as int), id),
            decreases self.recent_commands@.len() - i,
        {
            assert(ids.subrange(0, i as int + 1).drop_last() =~= ids.subrange(0, i as int));
            let candidate = owned(self.recent_commands[i].as_str());
            let key = owned(command_id);
            let ghost before = others@;
            let ghost upto = ids.subrange(0, i as int + 1);
            assert(upto.last() == candidate@);
            if !(candidate == key) {
                others.push(candidate);
                assert(candidate@ != id);
                assert(upto.drop_last() == ids.subrange(0, i as int));
                assert(other_ids(upto, id) == other_ids(upto.drop_last(), id).push(upto.last()));
                assert(texts(others@) =~= texts(before).push(upto.last()));
            } else {
                assert(candidate@ == id);
                assert(upto.drop_last() == ids.subrange(0, i as int));
                assert(other_ids(upto, id) == other_ids(upto.drop_last(), id));
            }
            i = i + 1;
        }
        assert(ids.subrange(0, ids.len() as int) =~= ids);
        let mut recent: Vec<String> = Vec::new();
        recent.push(owned(command_id));
        assert(texts(recent@) =~= seq![id] + texts(others@).subrange(0, 0));
        let mut j: usize = 0;
        while j < others.len() && recent.len() < MAX_RECENT
            invariant
                j <= others@.len(),
                texts(others@) == other_ids(ids, id),
                ids == texts(old(self).recent_commands@),
                self.recent_commands == old(self).recent_commands,
                self.filtered_commands == old(self).filtered_commands,
                self.selected_index == old(self).selected_index,
                recent@.len() == j + 1,
                recent@.len() <= MAX_RECENT,
                texts(recent@) == seq![id] + texts(others@).subrange(0, j as int),
            decreases others@.len() - j,
        {
            let ghost before = recent@;
            let next = owned(others[j].as_str());
            recent.push(next);
            j = j + 1;
            assert(texts(recent@) =~= texts(before).push(next@));
            assert(texts(others@).subrange(0, j as int) =~= texts(others@).subrange(0, j - 1).push(texts(others@)[j - 1]));
            assert(texts(recent@) =~= seq![id] + texts(others@).subrange(0, j as int));
        }
        proof {
            let all = seq![id] + other_ids(ids, id);
            assert(texts(recent@)[0] == recent@[0]@);
            if all.len() > MAX_RECENT {
                assert(texts(recent@) =~= all.take(MAX_RECENT as int));
            } else {
                assert(texts(others@).subrange(0, j as int) =~= texts(others@));
                assert(texts(recent@) =~= all);
            }
        }
        self.recent_commands = recent;
    }

    /// Moves the selection one entry down, unless it is on the last entry.
    pub fn select_next(&mut self)
        ensures
            old(self).selected_index + 1 < old(self).filtered_commands@.len() ==> final(self).selected_index
                == old(self).selected_index + 1,
            old(self).selected_index + 1 >= old(self).filtered_commands@.len() ==> final(self).selected_index
                == old(self).selected_index,
            final(self).filtered_commands == old(self).filtered_commands,
            final(self).recent_commands == old(self).recent_commands,
            final(self).query == old(self).query,
            final(self).is_open == old(self).is_open,
            final(self).categories == old(self).categories,
            final(self).selected_category == old(self).selected_category,
    {
        let count = self.filtered_commands.len();
        if count > 0 && self.selected_index < count - 1 {
            self.selected_index = self.selected_index + 1;
        }
    }

    /// Moves the selection one entry up, unless it is on the first entry.
    pub fn select_prev(&mut self)
        ensures
            old(self).selected_index > 0 ==> final(self).selected_index == old(self).selected_index - 1,
            old(self).selected_index == 0 ==> final(self).selected_index == 0,
            final(self).filtered_commands == old(self).filtered_commands,
            final(self).recent_commands == old(self).recent_commands,
            final(self).query == old(self).query,
            final(self).is_open == old(self).is_open,
            final(self).categories == old(self).categories,
            final(self).selected_category == old(self).selected_category,
    {
        if self.selected_index > 0 {
            self.selected_index = self.selected_index - 1;
        }
    }

    /// The selected command, if the selection is on a listed command.
    pub fn get_selected_command(&self) -> (r: Option<&Command>)
        ensures
            self.selected_index < self.filtered_commands@.len() ==> r == Some(
                &self.filtered_commands@[self.selected_index as int],
            ),
            self.selected_index >= self.filtered_commands@.len() ==> r is None,
    {
        if self.selected_index < self.filtered_commands.len() {
            Some(&self.filtered_commands[self.selected_index])
        } else {
            None
        }
    }
}

} // verus!
