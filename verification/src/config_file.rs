use vstd::prelude::*;
use crate::actions::{AppAction, ViewAction};
use crate::config::{spec_app_action, spec_view_action, map_of_entries, Bindings, ColumnAction, Config, GlobalAction, Intervals, Keybindings, WatcherConfig};
use crate::keys::{has_readable_text, key_text, lemma_key_text_reads_back, spec_parse_key, Key, KeyParseError, KeyTextError};
use crate::text::str_equal;

verus! {

/// What a configuration file says of the watcher's polling intervals; an
/// interval it leaves out takes its default.
#[derive(Clone, Copy, Debug, PartialEq, Eq, Structural)]
pub struct IntervalsInput {
    pub preferences: Option<u64>,
    pub feed: Option<u64>,
    pub post_thread: Option<u64>,
}

/// What a configuration file says of the watcher: its intervals, where the
/// file has them.
#[derive(Clone, Copy, Debug, PartialEq, Eq, Structural)]
pub struct WatcherInput {
    pub intervals: Option<IntervalsInput>,
}

/// What a configuration file says of the key bindings: the global and the
/// column bindings, each as (key, action name) pairs in file order, where
/// the file has them.
#[derive(Debug)]
pub struct KeybindingsInput {
    pub global: Option<Vec<(String, String)>>,
    pub column: Option<Vec<(String, String)>>,
}

/// A configuration file as plain values: each table where the file has it.
#[derive(Debug)]
pub struct ConfigInput {
    pub num_columns: Option<usize>,
    pub keybindings: Option<KeybindingsInput>,
    pub watcher: Option<WatcherInput>,
}

/// A field that a table of the configuration must have.
#[derive(Clone, Copy, Debug, PartialEq, Eq, Structural)]
pub enum Field {
    Global,
    Column,
    Intervals,
}

/// Why a configuration file is refused.
#[derive(Clone, Copy, Debug, PartialEq, Eq, Structural)]
pub enum ConfigError {
    /// A binding's key is not a key (see `Key::parse`).
    InvalidKey(KeyParseError),
    /// A binding's action is not one of the actions.
    UnknownAction,
    /// A table lacks a field it must have.
    MissingField(Field),
}

/// The global action of this name, if any.
pub open spec fn global_action_named(s: Seq<char>) -> Option<GlobalAction> {
    if s == "NextFocus"@ {
        Some(GlobalAction::NextFocus)
    } else if s == "PrevFocus"@ {
        Some(GlobalAction::PrevFocus)
    } else if s == "Quit"@ {
        Some(GlobalAction::Quit)
    } else if s == "Suspend"@ {
        Some(GlobalAction::Suspend)
    } else {
        None
    }
}

/// The column action of this name, if any.
pub open spec fn column_action_named(s: Seq<char>) -> Option<ColumnAction> {
    if s == "NextItem"@ {
        Some(ColumnAction::NextItem)
    } else if s == "PrevItem"@ {
        Some(ColumnAction::PrevItem)
    } else if s == "Enter"@ {
        Some(ColumnAction::Enter)
    } else if s == "Back"@ {
        Some(ColumnAction::Back)
    } else if s == "Refresh"@ {
        Some(ColumnAction::Refresh)
    } else if s == "NewPost"@ {
        Some(ColumnAction::NewPost)
    } else if s == "Menu"@ {
        Some(ColumnAction::Menu)
    } else {
        None
    }
}

/// The name of a global action.
pub open spec fn global_action_name(a: GlobalAction) -> Seq<char> {
    match a {
        GlobalAction::NextFocus => "NextFocus"@,
        GlobalAction::PrevFocus => "PrevFocus"@,
        GlobalAction::Quit => "Quit"@,
        GlobalAction::Suspend => "Suspend"@,
    }
}

/// The name of a column action.
pub open spec fn column_action_name(a: ColumnAction) -> Seq<char> {
    match a {
        ColumnAction::NextItem => "NextItem"@,
        ColumnAction::PrevItem => "PrevItem"@,
        ColumnAction::Enter => "Enter"@,
        ColumnAction::Back => "Back"@,
        ColumnAction::Refresh => "Refresh"@,
        ColumnAction::NewPost => "NewPost"@,
        ColumnAction::Menu => "Menu"@,
    }
}

/// The name of an application action that a global binding can trigger.
pub open spec fn app_action_name(a: AppAction) -> Option<Seq<char>> {
    match a {
        AppAction::NextFocus => Some("NextFocus"@),
        AppAction::PrevFocus => Some("PrevFocus"@),
        AppAction::Quit => Some("Quit"@),
        AppAction::Suspend => Some("Suspend"@),
        _ => None,
    }
}

/// The name of a view action that a column binding can trigger.
pub open spec fn view_action_name(a: ViewAction) -> Option<Seq<char>> {
    match a {
        ViewAction::NextItem => Some("NextItem"@),
        ViewAction::PrevItem => Some("PrevItem"@),
        ViewAction::Enter => Some("Enter"@),
        ViewAction::Back => Some("Back"@),
        ViewAction::Refresh => Some("Refresh"@),
        ViewAction::NewPost => Some("NewPost"@),
        ViewAction::Menu => Some("Menu"@),
        _ => None,
    }
}

/// A global binding triggers the application action of the same name as
/// the one the configuration file gives it, and two different global
/// actions never trigger the same application action.
pub proof fn lemma_global_binding_triggers_its_action(a: GlobalAction, b: GlobalAction)
    ensures
        app_action_name(spec_app_action(a)) == Some(global_action_name(a)),
        spec_app_action(a) == spec_app_action(b) ==> a == b,
{
}

/// A column binding triggers the view action of the same name as the one
/// the configuration file gives it, and two different column actions never
/// trigger the same view action.
pub proof fn lemma_column_binding_triggers_its_action(a: ColumnAction, b: ColumnAction)
    ensures
        view_action_name(spec_view_action(a)) == Some(column_action_name(a)),
        spec_view_action(a) == spec_view_action(b) ==> a == b,
{
}

impl GlobalAction {
    /// The action of this name, if any (see `global_action_named`).
    pub fn from_name(s: &str) -> (r: Option<GlobalAction>)
        ensures
            r == global_action_named(s@),
    {
        if str_equal(s, "NextFocus") {
            Some(GlobalAction::NextFocus)
        } else if str_equal(s, "PrevFocus") {
            Some(GlobalAction::PrevFocus)
        } else if str_equal(s, "Quit") {
            Some(GlobalAction::Quit)
        } else if str_equal(s, "Suspend") {
            Some(GlobalAction::Suspend)
        } else {
            None
        }
    }

    /// The name of this action, as configuration files write it.
    pub fn name(&self) -> (r: String)
        ensures
            r@ == global_action_name(*self),
    {
        match self {
            GlobalAction::NextFocus => String::from_str("NextFocus"),
            GlobalAction::PrevFocus => String::from_str("PrevFocus"),
            GlobalAction::Quit => String::from_str("Quit"),
            GlobalAction::Suspend => String::from_str("Suspend"),
        }
    }
}

impl ColumnAction {
    /// The action of this name, if any (see `column_action_named`).
    pub fn from_name(s: &str) -> (r: Option<ColumnAction>)
        ensures
            r == column_action_named(s@),
    {
        if str_equal(s, "NextItem") {
            Some(ColumnAction::NextItem)
        } else if str_equal(s, "PrevItem") {
            Some(ColumnAction::PrevItem)
        } else if str_equal(s, "Enter") {
            Some(ColumnAction::Enter)
        } else if str_equal(s, "Back") {
            Some(ColumnAction::Back)
        } else if str_equal(s, "Refresh") {
            Some(ColumnAction::Refresh)
        } else if str_equal(s, "NewPost") {
            Some(ColumnAction::NewPost)
        } else if str_equal(s, "Menu") {
            Some(ColumnAction::Menu)
        } else {
            None
        }
    }

    /// The name of this action, as configuration files write it.
    pub fn name(&self) -> (r: String)
        ensures
            r@ == column_action_name(*self),
    {
        match self {
            ColumnAction::NextItem => String::from_str("NextItem"),
            ColumnAction::PrevItem => String::from_str("PrevItem"),
            ColumnAction::Enter => String::from_str("Enter"),
            ColumnAction::Back => String::from_str("Back"),
            ColumnAction::Refresh => String::from_str("Refresh"),
            ColumnAction::NewPost => String::from_str("NewPost"),
            ColumnAction::Menu => String::from_str("Menu"),
        }
    }
}

pub open spec fn pair_views(s: Seq<(String, String)>) -> Seq<(Seq<char>, Seq<char>)> {
    s.map_values(|p: (String, String)| (p.0@, p.1@))
}

/// The global bindings of (key, action name) pairs, read in order, a later
/// pair for the same key winning; the first pair whose key or action is
/// wrong refuses them all.
pub open spec fn global_bindings_of(pairs: Seq<(Seq<char>, Seq<char>)>) -> Result<Map<Key, GlobalAction>, ConfigError>
    decreases pairs.len(),
{
    if pairs.len() == 0 {
        Ok(Map::empty())
    } else {
        match global_bindings_of(pairs.drop_last()) {
            Err(e) => Err(e),
            Ok(m) => match spec_parse_key(pairs.last().0) {
                Err(e) => Err(ConfigError::InvalidKey(e)),
                Ok(k) => match global_action_named(pairs.last().1) {
                    Some(a) => Ok(m.insert(k, a)),
                    None => Err(ConfigError::UnknownAction),
                },
            },
        }
    }
}

/// The column bindings of (key, action name) pairs (see
/// `global_bindings_of`).
pub open spec fn column_bindings_of(pairs: Seq<(Seq<char>, Seq<char>)>) -> Result<Map<Key, ColumnAction>, ConfigError>
    decreases pairs.len(),
{
    if pairs.len() == 0 {
        Ok(Map::empty())
    } else {
        match column_bindings_of(pairs.drop_last()) {
            Err(e) => Err(e),
            Ok(m) => match spec_parse_key(pairs.last().0) {
                Err(e) => Err(ConfigError::InvalidKey(e)),
                Ok(k) => match column_action_named(pairs.last().1) {
                    Some(a) => Ok(m.insert(k, a)),
                    None => Err(ConfigError::UnknownAction),
                },
            },
        }
    }
}

/// The global bindings of the pairs (see `global_bindings_of`).
pub fn read_global_bindings(pairs: &Vec<(String, String)>) -> (r: Result<Bindings<GlobalAction>, ConfigError>)
    ensures
        match global_bindings_of(pair_views(pairs@)) {
            Ok(m) => r matches Ok(b) && b.view() == m,
            Err(e) => r == Err::<Bindings<GlobalAction>, ConfigError>(e),
        },
{
    let mut b: Bindings<GlobalAction> = Bindings::new();
    let mut i: usize = 0;
    while i < pairs.len()
        invariant
            i <= pairs@.len(),
            global_bindings_of(pair_views(pairs@).take(i as int)) == Ok::<Map<Key, GlobalAction>, ConfigError>(b.view()),
        decreases pairs@.len() - i,
    {
        proof {
            assert(pair_views(pairs@).take(i + 1).drop_last() =~= pair_views(pairs@).take(i as int));
            assert(pair_views(pairs@).take(i + 1).last() == (pairs@[i as int].0@, pairs@[i as int].1@));
        }
        let key = match Key::parse(pairs[i].0.as_str()) {
            Ok(k) => k,
            Err(e) => {
                proof {
                    lemma_global_error_sticks(pair_views(pairs@), i + 1);
                }
                return Err(ConfigError::InvalidKey(e));
            },
        };
        let action = match GlobalAction::from_name(pairs[i].1.as_str()) {
            Some(a) => a,
            None => {
                proof {
                    lemma_global_error_sticks(pair_views(pairs@), i + 1);
                }
                return Err(ConfigError::UnknownAction);
            },
        };
        b.bind(key, action);
        i = i + 1;
    }
    proof {
        assert(pair_views(pairs@).take(pairs@.len() as int) =~= pair_views(pairs@));
    }
    Ok(b)
}

/// The column bindings of the pairs (see `column_bindings_of`).
pub fn read_column_bindings(pairs: &Vec<(String, String)>) -> (r: Result<Bindings<ColumnAction>, ConfigError>)
    ensures
        match column_bindings_of(pair_views(pairs@)) {
            Ok(m) => r matches Ok(b) && b.view() == m,
            Err(e) => r == Err::<Bindings<ColumnAction>, ConfigError>(e),
        },
{
    let mut b: Bindings<ColumnAction> = Bindings::new();
    let mut i: usize = 0;
    while i < pairs.len()
        invariant
            i <= pairs@.len(),
            column_bindings_of(pair_views(pairs@).take(i as int)) == Ok::<Map<Key, ColumnAction>, ConfigError>(b.view()),
        decreases pairs@.len() - i,
    {
        proof {
            assert(pair_views(pairs@).take(i + 1).drop_last() =~= pair_views(pairs@).take(i as int));
            assert(pair_views(pairs@).take(i + 1).last() == (pairs@[i as int].0@, pairs@[i as int].1@));
        }
        let key = match Key::parse(pairs[i].0.as_str()) {
            Ok(k) => k,
            Err(e) => {
                proof {
                    lemma_column_error_sticks(pair_views(pairs@), i + 1);
                }
                return Err(ConfigError::InvalidKey(e));
            },
        };
        let action = match ColumnAction::from_name(pairs[i].1.as_str()) {
            Some(a) => a,
            None => {
                proof {
                    lemma_column_error_sticks(pair_views(pairs@), i + 1);
                }
                return Err(ConfigError::UnknownAction);
            },
        };
        b.bind(key, action);
        i = i + 1;
    }
    proof {
        assert(pair_views(pairs@).take(pairs@.len() as int) =~= pair_views(pairs@));
    }
    Ok(b)
}

/// Once a prefix of the pairs is refused, the whole list is refused with
/// the same error.
proof fn lemma_global_error_sticks(pairs: Seq<(Seq<char>, Seq<char>)>, n: int)
    requires
        0 <= n <= pairs.len(),
        global_bindings_of(pairs.take(n)) is Err,
    ensures
        global_bindings_of(pairs) == global_bindings_of(pairs.take(n)),
    decreases pairs.len() - n,
{
    if n < pairs.len() {
        assert(pairs.take(n + 1).drop_last() =~= pairs.take(n));
        lemma_global_error_sticks(pairs, n + 1);
    } else {
        assert(pairs.take(n) =~= pairs);
    }
}

proof fn lemma_column_error_sticks(pairs: Seq<(Seq<char>, Seq<char>)>, n: int)
    requires
        0 <= n <= pairs.len(),
        column_bindings_of(pairs.take(n)) is Err,
    ensures
        column_bindings_of(pairs) == column_bindings_of(pairs.take(n)),
    decreases pairs.len() - n,
{
    if n < pairs.len() {
        assert(pairs.take(n + 1).drop_last() =~= pairs.take(n));
        lemma_column_error_sticks(pairs, n + 1);
    } else {
        assert(pairs.take(n) =~= pairs);
    }
}

/// The intervals a file gives: each one it names, the default for the
/// others (preferences 600, feeds 30, post threads 60 seconds).
pub open spec fn spec_intervals(i: IntervalsInput) -> Intervals {
    Intervals {
        preferences: match i.preferences {
            Some(v) => v,
            None => 600,
        },
        feed: match i.feed {
            Some(v) => v,
            None => 30,
        },
        post_thread: match i.post_thread {
            Some(v) => v,
            None => 60,
        },
    }
}

/// The watcher settings a file gives: the defaults where it has no watcher
/// table; its intervals where it has one, which must have an intervals table.
pub open spec fn spec_watcher(w: Option<WatcherInput>) -> Result<Intervals, ConfigError> {
    match w {
        None => Ok(Intervals { preferences: 600, feed: 30, post_thread: 60 }),
        Some(WatcherInput { intervals: Some(i) }) => Ok(spec_intervals(i)),
        Some(WatcherInput { intervals: None }) => Err(ConfigError::MissingField(Field::Intervals)),
    }
}

/// The key bindings a file gives, or why they are refused: none where it has
/// no key-bindings table; otherwise the table's global and column bindings,
/// which it must both have. Wrong bindings are reported first (global, then
/// column), then missing ones (global, then column).
pub open spec fn spec_keybindings(k: Option<KeybindingsInput>) -> Result<(Map<Key, GlobalAction>, Map<Key, ColumnAction>), ConfigError> {
    match k {
        None => Ok((Map::empty(), Map::empty())),
        Some(kb) => {
            let g = match kb.global {
                Some(p) => global_bindings_of(pair_views(p@)),
                None => Ok(Map::empty()),
            };
            let c = match kb.column {
                Some(p) => column_bindings_of(pair_views(p@)),
                None => Ok(Map::empty()),
            };
            if g is Err {
                Err(g->Err_0)
            } else if c is Err {
                Err(c->Err_0)
            } else if kb.global is None {
                Err(ConfigError::MissingField(Field::Global))
            } else if kb.column is None {
                Err(ConfigError::MissingField(Field::Column))
            } else {
                Ok((g->Ok_0, c->Ok_0))
            }
        },
    }
}

/// The configuration a file gives (see `spec_keybindings` and
/// `spec_watcher`; bindings are checked before the watcher), without the
/// default bindings, which are added afterwards.
pub fn config_from_input(input: ConfigInput) -> (r: Result<Config, ConfigError>)
    ensures
        match spec_keybindings(input.keybindings) {
            Err(e) => r == Err::<Config, ConfigError>(e),
            Ok((g, c)) => match spec_watcher(input.watcher) {
                Err(e) => r == Err::<Config, ConfigError>(e),
                Ok(i) => r matches Ok(cfg) && cfg.num_columns == input.num_columns && cfg.keybindings.global.view() == g
                    && cfg.keybindings.column.view() == c && cfg.watcher.intervals == i,
            },
        },
{
    let keybindings = match &input.keybindings {
        None => Keybindings::empty(),
        Some(kb) => {
            let global = match &kb.global {
                Some(p) => match read_global_bindings(p) {
                    Ok(b) => Some(b),
                    Err(e) => return Err(e),
                },
                None => None,
            };
            let column = match &kb.column {
                Some(p) => match read_column_bindings(p) {
                    Ok(b) => Some(b),
                    Err(e) => return Err(e),
                },
                None => None,
            };
            match (global, column) {
                (Some(g), Some(c)) => Keybindings { global: g, column: c },
                (None, _) => return Err(ConfigError::MissingField(Field::Global)),
                (_, None) => return Err(ConfigError::MissingField(Field::Column)),
            }
        },
    };
    let intervals = match input.watcher {
        None => Intervals::default_intervals(),
        Some(WatcherInput { intervals: Some(i) }) => Intervals {
            preferences: match i.preferences {
                Some(v) => v,
                None => 600,
            },
            feed: match i.feed {
                Some(v) => v,
                None => 30,
            },
            post_thread: match i.post_thread {
                Some(v) => v,
                None => 60,
            },
        },
        Some(WatcherInput { intervals: None }) => return Err(ConfigError::MissingField(Field::Intervals)),
    };
    Ok(Config { num_columns: input.num_columns, keybindings, watcher: WatcherConfig { intervals } })
}

/// The text pairs of bindings, in the bindings' order, or the error of the
/// first key without a text form.
pub open spec fn global_pairs_of(entries: Seq<(Key, GlobalAction)>) -> Option<Seq<(Seq<char>, Seq<char>)>>
    decreases entries.len(),
{
    if entries.len() == 0 {
        Some(Seq::empty())
    } else {
        match global_pairs_of(entries.drop_last()) {
            None => None,
            Some(s) => match key_text(entries.last().0) {
                Some(t) => Some(s.push((t, global_action_name(entries.last().1)))),
                None => None,
            },
        }
    }
}

/// The text pairs of column bindings (see `global_pairs_of`).
pub open spec fn column_pairs_of(entries: Seq<(Key, ColumnAction)>) -> Option<Seq<(Seq<char>, Seq<char>)>>
    decreases entries.len(),
{
    if entries.len() == 0 {
        Some(Seq::empty())
    } else {
        match column_pairs_of(entries.drop_last()) {
            None => None,
            Some(s) => match key_text(entries.last().0) {
                Some(t) => Some(s.push((t, column_action_name(entries.last().1)))),
                None => None,
            },
        }
    }
}

fn global_pairs(entries: &Vec<(Key, GlobalAction)>) -> (r: Result<Vec<(String, String)>, KeyTextError>)
    ensures
        match global_pairs_of(entries@) {
            Some(s) => r matches Ok(v) && pair_views(v@) == s,
            None => r is Err,
        },
{
    let mut out: Vec<(String, String)> = Vec::new();
    let mut i: usize = 0;
    while i < entries.len()
        invariant
            i <= entries@.len(),
            global_pairs_of(entries@.take(i as int)) == Some(pair_views(out@)),
        decreases entries@.len() - i,
    {
        proof {
            assert(entries@.take(i + 1).drop_last() =~= entries@.take(i as int));
            assert(entries@.take(i + 1).last() == entries@[i as int]);
        }
        let (k, a) = entries[i];
        match k.to_text() {
            Ok(t) => {
                let ghost before = out@;
                out.push((t, a.name()));
                assert(pair_views(out@) =~= pair_views(before).push((out@.last().0@, out@.last().1@)));
            },
            Err(e) => {
                proof {
                    lemma_global_pairs_none(entries@, i + 1);
                }
                return Err(e);
            },
        }
        i = i + 1;
    }
    assert(entries@.take(entries@.len() as int) =~= entries@);
    Ok(out)
}

proof fn lemma_global_pairs_none(entries: Seq<(Key, GlobalAction)>, n: int)
    requires
        0 <= n <= entries.len(),
        global_pairs_of(entries.take(n)) is None,
    ensures
        global_pairs_of(entries) is None,
    decreases entries.len() - n,
{
    if n < entries.len() {
        assert(entries.take(n + 1).drop_last() =~= entries.take(n));
        lemma_global_pairs_none(entries, n + 1);
    } else {
        assert(entries.take(n) =~= entries);
    }
}

fn column_pairs(entries: &Vec<(Key, ColumnAction)>) -> (r: Result<Vec<(String, String)>, KeyTextError>)
    ensures
        match column_pairs_of(entries@) {
            Some(s) => r matches Ok(v) && pair_views(v@) == s,
            None => r is Err,
        },
{
    let mut out: Vec<(String, String)> = Vec::new();
    let mut i: usize = 0;
    while i < entries.len()
        invariant
            i <= entries@.len(),
            column_pairs_of(entries@.take(i as int)) == Some(pair_views(out@)),
        decreases entries@.len() - i,
    {
        proof {
            assert(entries@.take(i + 1).drop_last() =~= entries@.take(i as int));
            assert(entries@.take(i + 1).last() == entries@[i as int]);
        }
        let (k, a) = entries[i];
        match k.to_text() {
            Ok(t) => {
                let ghost before = out@;
                out.push((t, a.name()));
                assert(pair_views(out@) =~= pair_views(before).push((out@.last().0@, out@.last().1@)));
            },
            Err(e) => {
                proof {
                    lemma_column_pairs_none(entries@, i + 1);
                }
                return Err(e);
            },
        }
        i = i + 1;
    }
    assert(entries@.take(entries@.len() as int) =~= entries@);
    Ok(out)
}

proof fn lemma_column_pairs_none(entries: Seq<(Key, ColumnAction)>, n: int)
    requires
        0 <= n <= entries.len(),
        column_pairs_of(entries.take(n)) is None,
    ensures
        column_pairs_of(entries) is None,
    decreases entries.len() - n,
{
    if n < entries.len() {
        assert(entries.take(n + 1).drop_last() =~= entries.take(n));
        lemma_column_pairs_none(entries, n + 1);
    } else {
        assert(entries.take(n) =~= entries);
    }
}

proof fn lemma_global_names(a: GlobalAction)
    ensures
        global_action_named(global_action_name(a)) == Some(a),
{
    reveal_strlit("NextFocus");
    assert("NextFocus"@.len() == 9 && "NextFocus"@[0] == 'N');
    reveal_strlit("PrevFocus");
    assert("PrevFocus"@.len() == 9 && "PrevFocus"@[0] == 'P');
    reveal_strlit("Quit");
    assert("Quit"@.len() == 4 && "Quit"@[0] == 'Q');
    reveal_strlit("Suspend");
    assert("Suspend"@.len() == 7 && "Suspend"@[0] == 'S');
}

proof fn lemma_column_names(a: ColumnAction)
    ensures
        column_action_named(column_action_name(a)) == Some(a),
{
    reveal_strlit("NextItem");
    assert("NextItem"@.len() == 8 && "NextItem"@[0] == 'N');
    reveal_strlit("PrevItem");
    assert("PrevItem"@.len() == 8 && "PrevItem"@[0] == 'P');
    reveal_strlit("Enter");
    assert("Enter"@.len() == 5 && "Enter"@[0] == 'E');
    reveal_strlit("Back");
    assert("Back"@.len() == 4 && "Back"@[0] == 'B');
    reveal_strlit("Refresh");
    assert("Refresh"@.len() == 7 && "Refresh"@[0] == 'R');
    reveal_strlit("NewPost");
    assert("NewPost"@.len() == 7 && "NewPost"@[0] == 'N');
    reveal_strlit("Menu");
    assert("Menu"@.len() == 4 && "Menu"@[0] == 'M');
}

/// Every key of the pairs is bound in the map they give.
proof fn lemma_entries_bound<A>(e: Seq<(Key, A)>)
    ensures
        forall|i: int| 0 <= i < e.len() ==> map_of_entries(e).contains_key(#[trigger] e[i].0),
    decreases e.len(),
{
    if e.len() > 0 {
        lemma_entries_bound(e.drop_last());
        assert forall|i: int| 0 <= i < e.len() implies map_of_entries(e).contains_key(#[trigger] e[i].0) by {
            if i < e.len() - 1 {
                assert(e.drop_last()[i] == e[i]);
            }
        }
    }
}

/// Global bindings written out as text pairs read back as the same map.
proof fn lemma_global_read_back(e: Seq<(Key, GlobalAction)>)
    requires
        forall|i: int| 0 <= i < e.len() ==> has_readable_text(#[trigger] e[i].0),
    ensures
        global_pairs_of(e) is Some,
        global_bindings_of(global_pairs_of(e)->0) == Ok::<Map<Key, GlobalAction>, ConfigError>(map_of_entries(e)),
    decreases e.len(),
{
    if e.len() > 0 {
        let r = e.drop_last();
        assert forall|i: int| 0 <= i < r.len() implies has_readable_text(#[trigger] r[i].0) by {
            assert(r[i] == e[i]);
        }
        lemma_global_read_back(r);
        assert(has_readable_text(e[e.len() - 1].0));
        lemma_key_text_reads_back(e.last().0);
        lemma_global_names(e.last().1);
        let p = global_pairs_of(e)->0;
        assert(p.drop_last() =~= global_pairs_of(r)->0);
    }
}

/// Column bindings written out as text pairs read back as the same map.
proof fn lemma_column_read_back(e: Seq<(Key, ColumnAction)>)
    requires
        forall|i: int| 0 <= i < e.len() ==> has_readable_text(#[trigger] e[i].0),
    ensures
        column_pairs_of(e) is Some,
        column_bindings_of(column_pairs_of(e)->0) == Ok::<Map<Key, ColumnAction>, ConfigError>(map_of_entries(e)),
    decreases e.len(),
{
    if e.len() > 0 {
        let r = e.drop_last();
        assert forall|i: int| 0 <= i < r.len() implies has_readable_text(#[trigger] r[i].0) by {
            assert(r[i] == e[i]);
        }
        lemma_column_read_back(r);
        assert(has_readable_text(e[e.len() - 1].0));
        lemma_key_text_reads_back(e.last().0);
        lemma_column_names(e.last().1);
        let p = column_pairs_of(e)->0;
        assert(p.drop_last() =~= column_pairs_of(r)->0);
    }
}

/// The configuration as a file writes it: every table present, bindings as
/// (key text, action name) pairs in binding order, every interval. A key
/// without a text form (a modifier other than Ctrl or Shift alone) makes it
/// fail.
pub fn config_to_input(config: &Config) -> (r: Result<ConfigInput, KeyTextError>)
    ensures
        match (global_pairs_of(config.keybindings.global.entries_view()), column_pairs_of(config.keybindings.column.entries_view())) {
            (Some(g), Some(c)) => r is Ok && {
                let input = r->Ok_0;
                &&& input.num_columns == config.num_columns
                &&& input.keybindings is Some
                &&& input.keybindings->0.global is Some
                &&& pair_views(input.keybindings->0.global->0@) == g
                &&& input.keybindings->0.column is Some
                &&& pair_views(input.keybindings->0.column->0@) == c
                &&& input.watcher == Some(WatcherInput { intervals: Some(IntervalsInput {
                    preferences: Some(config.watcher.intervals.preferences),
                    feed: Some(config.watcher.intervals.feed),
                    post_thread: Some(config.watcher.intervals.post_thread),
                }) })
            },
            _ => r is Err,
        },
        // written out and read back, a configuration whose keys all have a
        // readable text form gives the same bindings and intervals
        ((forall|k: Key| config.keybindings.global.view().contains_key(k) ==> #[trigger] has_readable_text(k))
            && (forall|k: Key| config.keybindings.column.view().contains_key(k) ==> #[trigger] has_readable_text(k)))
            ==> r is Ok && spec_keybindings(r->Ok_0.keybindings) == Ok::<(Map<Key, GlobalAction>, Map<Key, ColumnAction>), ConfigError>(
                (config.keybindings.global.view(), config.keybindings.column.view()),
            ) && spec_watcher(r->Ok_0.watcher) == Ok::<Intervals, ConfigError>(config.watcher.intervals),
{
    let ge = config.keybindings.global.entries();
    let ce = config.keybindings.column.entries();
    proof {
        if (forall|k: Key| config.keybindings.global.view().contains_key(k) ==> #[trigger] has_readable_text(k))
            && (forall|k: Key| config.keybindings.column.view().contains_key(k) ==> #[trigger] has_readable_text(k)) {
            lemma_entries_bound(ge@);
            lemma_entries_bound(ce@);
            assert forall|i: int| 0 <= i < ge@.len() implies has_readable_text(#[trigger] ge@[i].0) by {
                assert(map_of_entries(ge@).contains_key(ge@[i].0));
            }
            assert forall|i: int| 0 <= i < ce@.len() implies has_readable_text(#[trigger] ce@[i].0) by {
                assert(map_of_entries(ce@).contains_key(ce@[i].0));
            }
            lemma_global_read_back(ge@);
            lemma_column_read_back(ce@);
        }
    }
    let g = match global_pairs(&ge) {
        Ok(g) => g,
        Err(e) => return Err(e),
    };
    let c = match column_pairs(&ce) {
        Ok(c) => c,
        Err(e) => return Err(e),
    };
    let i = config.watcher.intervals;
    Ok(ConfigInput {
        num_columns: config.num_columns,
        keybindings: Some(KeybindingsInput { global: Some(g), column: Some(c) }),
        watcher: Some(WatcherInput { intervals: Some(IntervalsInput {
            preferences: Some(i.preferences),
            feed: Some(i.feed),
            post_thread: Some(i.post_thread),
        }) }),
    })
}

} // verus!
