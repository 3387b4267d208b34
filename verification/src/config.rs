use std::collections::HashMap;
use vstd::prelude::*;
use crate::actions::{AppAction, ViewAction};
use crate::keys::{key_less, key_number, key_order, lemma_key_number_injective, Key, KeyCode, KeyOrder, CONTROL, NONE};

verus! {

broadcast use vstd::std_specs::hash::group_hash_axioms;

/// What a global key binding does.
#[derive(Clone, Copy, Debug, PartialEq, Eq, Structural)]
pub enum GlobalAction {
    NextFocus,
    PrevFocus,
    Quit,
    Suspend,
}

/// What a column key binding does.
#[derive(Clone, Copy, Debug, PartialEq, Eq, Structural)]
pub enum ColumnAction {
    NextItem,
    PrevItem,
    Enter,
    Back,
    Refresh,
    NewPost,
    Menu,
}

/// Polling intervals of the background watchers, in seconds.
#[derive(Clone, Copy, Debug, PartialEq, Eq, Structural)]
pub struct Intervals {
    pub preferences: u64,
    pub feed: u64,
    pub post_thread: u64,
}

impl Intervals {
    /// Preferences every ten minutes, feeds every half minute, post threads
    /// every minute.
    pub fn default_intervals() -> (r: Intervals)
        ensures
            r == (Intervals { preferences: 600, feed: 30, post_thread: 60 }),
    {
        Intervals { preferences: 600, feed: 30, post_thread: 60 }
    }
}

impl Default for Intervals {
    fn default() -> (r: Intervals)
        ensures
            r == (Intervals { preferences: 600, feed: 30, post_thread: 60 }),
    {
        Intervals::default_intervals()
    }
}

/// Settings of the background watchers.
#[derive(Clone, Copy, Debug, PartialEq, Eq, Structural)]
pub struct WatcherConfig {
    pub intervals: Intervals,
}

impl WatcherConfig {
    pub fn default_config() -> (r: WatcherConfig)
        ensures
            r.intervals == (Intervals { preferences: 600, feed: 30, post_thread: 60 }),
    {
        WatcherConfig { intervals: Intervals::default_intervals() }
    }
}

/// The map that binding each (key, action) pair in turn gives, a later pair
/// for the same key winning.
pub open spec fn map_of_entries<A>(e: Seq<(Key, A)>) -> Map<Key, A>
    decreases e.len(),
{
    if e.len() == 0 {
        Map::empty()
    } else {
        map_of_entries(e.drop_last()).insert(e.last().0, e.last().1)
    }
}

/// Each key paired with its action in `m`.
pub open spec fn pairs_with<A>(keys: Seq<Key>, m: Map<Key, A>) -> Seq<(Key, A)> {
    keys.map_values(|k: Key| (k, m[k]))
}

/// A set of key bindings: at most one action per key, keys kept in the order
/// in which they were first bound.
pub struct Bindings<A> {
    map: HashMap<u64, A>,
    keys: Vec<Key>,
}

impl<A> Bindings<A> {
    #[verifier::type_invariant]
    spec fn consistent(self) -> bool {
        &&& self.keys@.no_duplicates()
        &&& forall|k: Key| #[trigger] self.map@.contains_key(key_number(k) as u64) <==> self.keys@.contains(k)
        &&& forall|n: u64| #[trigger] self.map@.contains_key(n) ==> exists|k: Key| #[trigger] key_number(k) == n && self.keys@.contains(k)
    }

    /// The bindings as a map from keys to actions.
    pub closed spec fn view(self) -> Map<Key, A> {
        Map::new(|k: Key| self.keys@.contains(k), |k: Key| self.map@[key_number(k) as u64])
    }

    /// The bound keys, in the order in which they were first bound.
    pub closed spec fn key_order_seq(self) -> Seq<Key> {
        self.keys@
    }

    /// The bindings as (key, action) pairs, in the order in which their
    /// keys were first bound.
    pub open spec fn entries_view(self) -> Seq<(Key, A)> {
        pairs_with(self.key_order_seq(), self.view())
    }
}

impl<A: Copy> Bindings<A> {
    /// No bindings.
    pub fn new() -> (r: Self)
        ensures
            r.view() == Map::<Key, A>::empty(),
    {
        let r = Bindings { map: HashMap::new(), keys: Vec::new() };
        assert(r.view() =~= Map::<Key, A>::empty());
        r
    }

    /// The action bound to `key`, if any.
    pub fn action_for(&self, key: &Key) -> (r: Option<A>)
        ensures
            r == (if self.view().contains_key(*key) { Some(self.view()[*key]) } else { None }),
    {
        proof {
            use_type_invariant(self);
            lemma_key_number_bound(*key);
        }
        let n = key.number();
        match self.map.get(&n) {
            Some(a) => Some(*a),
            None => None,
        }
    }

    /// Whether `key` is bound.
    pub fn is_bound(&self, key: &Key) -> (r: bool)
        ensures
            r == self.view().contains_key(*key),
    {
        proof {
            use_type_invariant(self);
            lemma_key_number_bound(*key);
        }
        let n = key.number();
        self.map.contains_key(&n)
    }

    /// Binds `key` to `action`, replacing what it was bound to.
    pub fn bind(&mut self, key: Key, action: A)
        ensures
            final(self).view() == old(self).view().insert(key, action),
    {
        proof {
            use_type_invariant(&*self);
            lemma_key_number_bound(key);
        }
        let n = key.number();
        let ghost old_keys = self.keys@;
        let ghost old_map = self.map@;
        let mut taken = Bindings { map: HashMap::new(), keys: Vec::new() };
        std::mem::swap(&mut taken, self);
        let Bindings { map: mut map, keys: mut keys } = taken;
        if !map.contains_key(&n) {
            keys.push(key);
        }
        map.insert(n, action);
        proof {
            assert forall|k: Key| #[trigger] map@.contains_key(key_number(k) as u64) <==> keys@.contains(k) by {
                if key_number(k) as u64 == n {
                    lemma_key_number_bound(k);
                    lemma_key_number_injective(k, key);
                    if !old_map.contains_key(n) {
                        assert(keys@[keys@.len() - 1] == key);
                    }
                } else {
                    if keys@.contains(k) && k != key {
                        let i = choose|i: int| 0 <= i < keys@.len() && keys@[i] == k;
                        if !old_map.contains_key(n) && i == keys@.len() - 1 {
                        } else {
                            assert(old_keys[i] == k);
                        }
                    }
                    if old_keys.contains(k) {
                        let i = choose|i: int| 0 <= i < old_keys.len() && old_keys[i] == k;
                        assert(keys@[i] == k);
                    }
                }
            }
            assert forall|m: u64| #[trigger] map@.contains_key(m) implies exists|k: Key| #[trigger] key_number(k) == m && keys@.contains(k) by {
                if m == n {
                    lemma_key_number_bound(key);
                    if old_map.contains_key(n) {
                        let k2 = choose|k: Key| #[trigger] key_number(k) == n && old_keys.contains(k);
                        let i = choose|i: int| 0 <= i < old_keys.len() && old_keys[i] == k2;
                        assert(keys@[i] == k2);
                    } else {
                        assert(keys@[keys@.len() - 1] == key);
                    }
                } else {
                    let k2 = choose|k: Key| #[trigger] key_number(k) == m && old_keys.contains(k);
                    let i = choose|i: int| 0 <= i < old_keys.len() && old_keys[i] == k2;
                    assert(keys@[i] == k2);
                }
            }
            if !old_map.contains_key(n) {
                assert(!old_keys.contains(key));
            }
            assert forall|k: Key| #[trigger] keys@.contains(k) <==> (old_keys.contains(k) || k == key) by {
                if keys@.contains(k) {
                    let i = choose|i: int| 0 <= i < keys@.len() && keys@[i] == k;
                    if i < old_keys.len() {
                        assert(old_keys[i] == k);
                    }
                }
                if old_keys.contains(k) {
                    let i = choose|i: int| 0 <= i < old_keys.len() && old_keys[i] == k;
                    assert(keys@[i] == k);
                }
                if k == key {
                    if old_map.contains_key(n) {
                        assert(old_keys.contains(key));
                    } else {
                        assert(keys@[keys@.len() - 1] == key);
                    }
                }
            }
        }
        *self = Bindings { map, keys };
        proof {
            assert forall|k: Key| #[trigger] self.view().contains_key(k) implies self.view()[k] == old(self).view().insert(key, action)[k] by {
                lemma_key_number_bound(k);
                if k != key && key_number(k) == key_number(key) {
                    lemma_key_number_injective(k, key);
                }
            }
            assert(self.view() =~= old(self).view().insert(key, action));
        }
    }

    /// Binds `key` to `action` unless `key` is bound already.
    pub fn bind_if_unbound(&mut self, key: Key, action: A)
        ensures
            final(self).view() == (if old(self).view().contains_key(key) {
                old(self).view()
            } else {
                old(self).view().insert(key, action)
            }),
    {
        if !self.is_bound(&key) {
            self.bind(key, action);
        }
    }

    /// All bindings, in the order in which their keys were first bound.
    pub fn entries(&self) -> (r: Vec<(Key, A)>)
        ensures
            r@ == self.entries_view(),
            map_of_entries(r@) == self.view(),
            r@.len() == self.key_order_seq().len(),
            forall|i: int| 0 <= i < r@.len() ==> #[trigger] r@[i] == (self.key_order_seq()[i], self.view()[self.key_order_seq()[i]]),
    {
        proof {
            use_type_invariant(self);
        }
        let mut r: Vec<(Key, A)> = Vec::new();
        let mut i: usize = 0;
        while i < self.keys.len()
            invariant
                i <= self.keys@.len(),
                r@.len() == i,
                forall|j: int| 0 <= j < i ==> #[trigger] r@[j] == (self.keys@[j], self.view()[self.keys@[j]]),
            decreases self.keys@.len() - i,
        {
            let k = self.keys[i];
            assert(self.keys@.contains(k));
            let a = self.action_for(&k);
            r.push((k, a.unwrap()));
            i = i + 1;
        }
        assert(r@ =~= self.entries_view());
        proof {
            lemma_map_of_entries(self.keys@, self.view(), self.keys@.len() as int);
            assert(self.keys@.take(self.keys@.len() as int) =~= self.keys@);
            assert(pairs_with(self.keys@.take(self.keys@.len() as int), self.view()) =~= self.entries_view());
            assert(map_of_entries(self.entries_view()) =~= self.view());
        }
        r
    }
}

/// Binding the keys of a prefix, each to its action in `m`, gives `m` on
/// those keys.
proof fn lemma_map_of_entries<A>(keys: Seq<Key>, m: Map<Key, A>, n: int)
    requires
        0 <= n <= keys.len(),
    ensures
        map_of_entries(pairs_with(keys.take(n), m)).dom() =~= keys.take(n).to_set(),
        forall|k: Key| keys.take(n).contains(k) ==> #[trigger] map_of_entries(pairs_with(keys.take(n), m))[k] == m[k],
    decreases n,
{
    let e = pairs_with(keys.take(n), m);
    if n > 0 {
        lemma_map_of_entries(keys, m, n - 1);
        assert(e.drop_last() =~= pairs_with(keys.take(n - 1), m));
        assert forall|x: Key| keys.take(n).contains(x) <==> (keys.take(n - 1).contains(x) || x == keys[n - 1]) by {
            if keys.take(n).contains(x) {
                let t = keys.take(n);
                let j = choose|j: int| 0 <= j < t.len() && t[j] == x;
                if j < n - 1 {
                    assert(keys.take(n - 1)[j] == x);
                }
            }
            if keys.take(n - 1).contains(x) {
                let t = keys.take(n - 1);
                let j = choose|j: int| 0 <= j < t.len() && t[j] == x;
                assert(keys.take(n)[j] == x);
            }
            if x == keys[n - 1] {
                assert(keys.take(n)[n - 1] == x);
            }
        }
        assert(keys.take(n).to_set() =~= keys.take(n - 1).to_set().insert(keys[n - 1]));
        assert forall|k: Key| keys.take(n).contains(k) implies #[trigger] map_of_entries(e)[k] == m[k] by {
            if k != keys[n - 1] {
                let j = choose|j: int| 0 <= j < n && keys.take(n)[j] == k;
                assert(keys.take(n - 1)[j] == k);
            }
        }
    } else {
        assert(keys.take(0).to_set() =~= Set::<Key>::empty());
    }
}

proof fn lemma_key_number_bound(k: Key)
    ensures
        key_number(k) < 0x1_0000_0000_0000_0000,
        key_number(k) as u64 == key_number(k),
{
    let v = crate::keys::code_variant(k.0);
    let p = crate::keys::code_payload(k.0);
    assert(p < 0x1_0000_0000 && v < 0x100) by {
        match k.0 {
            KeyCode::Media(m) => {},
            _ => {},
        }
    }
    assert(k.1 as nat * 0x100_0000_0000 + v * 0x1_0000_0000 + p < 0x1_0000_0000_0000_0000) by (nonlinear_arith)
        requires
            k.1 < 0x100,
            v < 0x100,
            p < 0x1_0000_0000,
    ;
}


impl GlobalAction {
    /// The application action that a global binding triggers.
    pub fn app_action(&self) -> (r: AppAction)
        ensures
            r == spec_app_action(*self),
    {
        match self {
            GlobalAction::NextFocus => AppAction::NextFocus,
            GlobalAction::PrevFocus => AppAction::PrevFocus,
            GlobalAction::Quit => AppAction::Quit,
            GlobalAction::Suspend => AppAction::Suspend,
        }
    }
}

pub open spec fn spec_app_action(a: GlobalAction) -> AppAction {
    match a {
        GlobalAction::NextFocus => AppAction::NextFocus,
        GlobalAction::PrevFocus => AppAction::PrevFocus,
        GlobalAction::Quit => AppAction::Quit,
        GlobalAction::Suspend => AppAction::Suspend,
    }
}

pub open spec fn spec_view_action(a: ColumnAction) -> ViewAction {
    match a {
        ColumnAction::NextItem => ViewAction::NextItem,
        ColumnAction::PrevItem => ViewAction::PrevItem,
        ColumnAction::Enter => ViewAction::Enter,
        ColumnAction::Back => ViewAction::Back,
        ColumnAction::Refresh => ViewAction::Refresh,
        ColumnAction::NewPost => ViewAction::NewPost,
        ColumnAction::Menu => ViewAction::Menu,
    }
}

impl ColumnAction {
    /// The view action that a column binding triggers.
    pub fn view_action(&self) -> (r: ViewAction)
        ensures
            r == spec_view_action(*self),
    {
        match self {
            ColumnAction::NextItem => ViewAction::NextItem,
            ColumnAction::PrevItem => ViewAction::PrevItem,
            ColumnAction::Enter => ViewAction::Enter,
            ColumnAction::Back => ViewAction::Back,
            ColumnAction::Refresh => ViewAction::Refresh,
            ColumnAction::NewPost => ViewAction::NewPost,
            ColumnAction::Menu => ViewAction::Menu,
        }
    }
}

/// Global and column key bindings.
pub struct Keybindings {
    pub global: Bindings<GlobalAction>,
    pub column: Bindings<ColumnAction>,
}

impl Keybindings {
    /// No bindings at all.
    pub fn empty() -> (r: Keybindings)
        ensures
            r.global.view() == Map::<Key, GlobalAction>::empty(),
            r.column.view() == Map::<Key, ColumnAction>::empty(),
    {
        Keybindings { global: Bindings::new(), column: Bindings::new() }
    }

    /// The application action bound to a key press, if any.
    pub fn global_action(&self, key: &Key) -> (r: Option<AppAction>)
        ensures
            r == (if self.global.view().contains_key(*key) {
                Some(spec_app_action(self.global.view()[*key]))
            } else {
                None
            }),
    {
        match self.global.action_for(key) {
            Some(a) => Some(a.app_action()),
            None => None,
        }
    }

    /// The view action bound to a key press in a column, if any.
    pub fn column_action(&self, key: &Key) -> (r: Option<ViewAction>)
        ensures
            r == (if self.column.view().contains_key(*key) {
                Some(spec_view_action(self.column.view()[*key]))
            } else {
                None
            }),
    {
        match self.column.action_for(key) {
            Some(a) => Some(a.view_action()),
            None => None,
        }
    }
}

/// Settings of the application.
pub struct Config {
    /// Upper limit on the number of columns shown.
    pub num_columns: Option<usize>,
    pub keybindings: Keybindings,
    pub watcher: WatcherConfig,
}

/// Bindings that every configuration gets unless it binds the key itself:
/// Ctrl-q quits, Ctrl-o focuses the next column, Ctrl-z suspends.
pub open spec fn default_global_bindings() -> Map<Key, GlobalAction> {
    map![
        Key(KeyCode::Char('q'), CONTROL) => GlobalAction::Quit,
        Key(KeyCode::Char('o'), CONTROL) => GlobalAction::NextFocus,
        Key(KeyCode::Char('z'), CONTROL) => GlobalAction::Suspend,
    ]
}

/// Column bindings that every configuration gets unless it binds the key
/// itself: Down and Up move, Enter selects, Backspace goes back, Ctrl-r
/// refreshes, Ctrl-x opens the menu.
pub open spec fn default_column_bindings() -> Map<Key, ColumnAction> {
    map![
        Key(KeyCode::Down, NONE) => ColumnAction::NextItem,
        Key(KeyCode::Up, NONE) => ColumnAction::PrevItem,
        Key(KeyCode::Enter, NONE) => ColumnAction::Enter,
        Key(KeyCode::Backspace, NONE) => ColumnAction::Back,
        Key(KeyCode::Char('r'), CONTROL) => ColumnAction::Refresh,
        Key(KeyCode::Char('x'), CONTROL) => ColumnAction::Menu,
    ]
}

impl Config {
    /// No column limit, no bindings, default watcher intervals.
    pub fn default_config() -> (r: Config)
        ensures
            r.num_columns is None,
            r.keybindings.global.view() == Map::<Key, GlobalAction>::empty(),
            r.keybindings.column.view() == Map::<Key, ColumnAction>::empty(),
            r.watcher.intervals == (Intervals { preferences: 600, feed: 30, post_thread: 60 }),
    {
        Config {
            num_columns: None,
            keybindings: Keybindings::empty(),
            watcher: WatcherConfig::default_config(),
        }
    }

    /// Adds the default bindings for every key that is not bound yet; keys
    /// already bound keep their action.
    pub fn set_default_keybindings(&mut self)
        ensures
            final(self).keybindings.global.view() == default_global_bindings().union_prefer_right(
                old(self).keybindings.global.view(),
            ),
            final(self).keybindings.column.view() == default_column_bindings().union_prefer_right(
                old(self).keybindings.column.view(),
            ),
            final(self).num_columns == old(self).num_columns,
            final(self).watcher == old(self).watcher,
    {
        self.keybindings.global.bind_if_unbound(Key(KeyCode::Char('q'), CONTROL), GlobalAction::Quit);
        self.keybindings.global.bind_if_unbound(Key(KeyCode::Char('o'), CONTROL), GlobalAction::NextFocus);
        self.keybindings.global.bind_if_unbound(Key(KeyCode::Char('z'), CONTROL), GlobalAction::Suspend);
        self.keybindings.column.bind_if_unbound(Key(KeyCode::Down, NONE), ColumnAction::NextItem);
        self.keybindings.column.bind_if_unbound(Key(KeyCode::Up, NONE), ColumnAction::PrevItem);
        self.keybindings.column.bind_if_unbound(Key(KeyCode::Enter, NONE), ColumnAction::Enter);
        self.keybindings.column.bind_if_unbound(Key(KeyCode::Backspace, NONE), ColumnAction::Back);
        self.keybindings.column.bind_if_unbound(Key(KeyCode::Char('r'), CONTROL), ColumnAction::Refresh);
        self.keybindings.column.bind_if_unbound(Key(KeyCode::Char('x'), CONTROL), ColumnAction::Menu);
        proof {
            assert(self.keybindings.global.view() =~= default_global_bindings().union_prefer_right(
                old(self).keybindings.global.view(),
            ));
            assert(self.keybindings.column.view() =~= default_column_bindings().union_prefer_right(
                old(self).keybindings.column.view(),
            ));
        }
    }
}

/// Adding the default bindings twice binds the same as adding them once.
pub proof fn lemma_default_bindings_idempotent(
    global: Map<Key, GlobalAction>,
    column: Map<Key, ColumnAction>,
)
    ensures
        default_global_bindings().union_prefer_right(default_global_bindings().union_prefer_right(global))
            == default_global_bindings().union_prefer_right(global),
        default_column_bindings().union_prefer_right(default_column_bindings().union_prefer_right(column))
            == default_column_bindings().union_prefer_right(column),
{
    assert(default_global_bindings().union_prefer_right(default_global_bindings().union_prefer_right(global))
        =~= default_global_bindings().union_prefer_right(global));
    assert(default_column_bindings().union_prefer_right(default_column_bindings().union_prefer_right(column))
        =~= default_column_bindings().union_prefer_right(column));
}

/// Keys in strictly increasing key order.
pub open spec fn strictly_sorted(s: Seq<Key>) -> bool {
    forall|i: int, j: int| 0 <= i < j < s.len() ==> key_less(#[trigger] s[i], #[trigger] s[j])
}

/// Two strictly sorted lists of the same keys are the same list.
pub proof fn lemma_sorted_keys_unique(a: Seq<Key>, b: Seq<Key>)
    requires
        strictly_sorted(a),
        strictly_sorted(b),
        forall|x: Key| a.contains(x) <==> b.contains(x),
    ensures
        a == b,
    decreases a.len(),
{
    if a.len() == 0 {
        if b.len() > 0 {
            assert(b.contains(b[0]));
        }
        assert(a =~= b);
    } else {
        assert(a.contains(a[0]));
        assert(b.contains(a[0]));
        let j = choose|j: int| 0 <= j < b.len() && b[j] == a[0];
        assert(b.contains(b[0]));
        let i = choose|i: int| 0 <= i < a.len() && a[i] == b[0];
        if j > 0 {
            assert(key_less(b[0], b[j]));
            if i > 0 {
                assert(key_less(a[0], a[i]));
            }
        }
        assert(b[0] == a[0]);
        let ra = a.drop_first();
        let rb = b.drop_first();
        assert forall|x: Key| ra.contains(x) <==> rb.contains(x) by {
            if ra.contains(x) {
                let k = choose|k: int| 0 <= k < ra.len() && ra[k] == x;
                assert(a[k + 1] == x);
                assert(key_less(a[0], a[k + 1]));
                assert(b.contains(x));
                let m = choose|m: int| 0 <= m < b.len() && b[m] == x;
                if m == 0 {
                    assert(false);
                }
                assert(rb[m - 1] == x);
            }
            if rb.contains(x) {
                let k = choose|k: int| 0 <= k < rb.len() && rb[k] == x;
                assert(b[k + 1] == x);
                assert(key_less(b[0], b[k + 1]));
                assert(a.contains(x));
                let m = choose|m: int| 0 <= m < a.len() && a[m] == x;
                if m == 0 {
                    assert(false);
                }
                assert(ra[m - 1] == x);
            }
        }
        assert(strictly_sorted(ra)) by {
            assert forall|p: int, q: int| 0 <= p < q < ra.len() implies key_less(#[trigger] ra[p], #[trigger] ra[q]) by {
                assert(ra[p] == a[p + 1]);
                assert(ra[q] == a[q + 1]);
            }
        }
        assert(strictly_sorted(rb)) by {
            assert forall|p: int, q: int| 0 <= p < q < rb.len() implies key_less(#[trigger] rb[p], #[trigger] rb[q]) by {
                assert(rb[p] == b[p + 1]);
                assert(rb[q] == b[q + 1]);
            }
        }
        lemma_sorted_keys_unique(ra, rb);
        assert(a =~= seq![a[0]] + ra);
        assert(b =~= seq![b[0]] + rb);
    }
}

/// The keys bound to `action` in `m`, in increasing key order.
pub open spec fn keys_for<A>(m: Map<Key, A>, action: A) -> Seq<Key> {
    choose|k: Seq<Key>| strictly_sorted(k) && forall|x: Key| #[trigger] k.contains(x) <==> (m.contains_key(x) && m[x] == action)
}

/// Inserts `k` into a strictly sorted list that does not hold it, keeping it
/// strictly sorted.
fn insert_sorted(v: &mut Vec<Key>, k: Key)
    requires
        strictly_sorted(old(v)@),
        !old(v)@.contains(k),
    ensures
        strictly_sorted(final(v)@),
        forall|x: Key| #[trigger] final(v)@.contains(x) <==> (old(v)@.contains(x) || x == k),
{
    let n = k.number();
    let mut p: usize = 0;
    while p < v.len()
        invariant
            p <= v@.len(),
            v@ == old(v)@,
            n == key_number(k),
            forall|i: int| 0 <= i < p ==> key_less(#[trigger] v@[i], k),
        ensures
            v@ == old(v)@,
            p <= v@.len(),
            forall|i: int| 0 <= i < p ==> key_less(#[trigger] v@[i], k),
            p < v@.len() ==> !key_less(v@[p as int], k),
        decreases v@.len() - p,
    {
        if n <= v[p].number() {
            break;
        }
        p = p + 1;
    }
    let ghost old_v = v@;
    if p < v.len() {
        assert(key_number(v@[p as int]) != key_number(k)) by {
            if key_number(v@[p as int]) == key_number(k) {
                lemma_key_number_injective(v@[p as int], k);
                assert(old_v.contains(k));
            }
        }
    }
    v.insert(p, k);
    assert forall|i: int, j: int| 0 <= i < j < v@.len() implies key_less(#[trigger] v@[i], #[trigger] v@[j]) by {
        if j < p {
        } else if j == p {
        } else if i < p {
            assert(v@[j] == old_v[j - 1]);
            if p < old_v.len() {
                assert(key_less(k, old_v[p as int]) || p == j - 1);
            }
        } else if i == p {
            assert(v@[j] == old_v[j - 1]);
            assert(!key_less(old_v[p as int], k));
        } else {
            assert(v@[i] == old_v[i - 1]);
            assert(v@[j] == old_v[j - 1]);
        }
    }
    assert forall|x: Key| #[trigger] v@.contains(x) <==> (old_v.contains(x) || x == k) by {
        if v@.contains(x) {
            let i = choose|i: int| 0 <= i < v@.len() && v@[i] == x;
            if i < p {
                assert(old_v[i] == x);
            } else if i > p {
                assert(old_v[i - 1] == x);
            }
        }
        if old_v.contains(x) {
            let i = choose|i: int| 0 <= i < old_v.len() && old_v[i] == x;
            if i < p {
                assert(v@[i] == x);
            } else {
                assert(v@[i + 1] == x);
            }
        }
        if x == k {
            assert(v@[p as int] == k);
        }
    }
}

impl Bindings<ColumnAction> {
    /// The keys bound to `action`, in increasing key order.
    pub fn keys_bound_to(&self, action: ColumnAction) -> (r: Vec<Key>)
        ensures
            strictly_sorted(r@),
            forall|k: Key| #[trigger] r@.contains(k) <==> (self.view().contains_key(k) && self.view()[k] == action),
            r@ == keys_for(self.view(), action),
    {
        let entries = self.entries();
        proof {
            use_type_invariant(self);
        }
        let mut r: Vec<Key> = Vec::new();
        let mut i: usize = 0;
        while i < entries.len()
            invariant
                i <= entries@.len(),
                entries@.len() == self.key_order_seq().len(),
                forall|j: int| 0 <= j < entries@.len() ==> #[trigger] entries@[j] == (self.key_order_seq()[j], self.view()[self.key_order_seq()[j]]),
                self.key_order_seq().no_duplicates(),
                strictly_sorted(r@),
                forall|k: Key| #[trigger] r@.contains(k) <==> (exists|j: int| 0 <= j < i && self.key_order_seq()[j] == k && self.view()[k] == action),
            decreases entries@.len() - i,
        {
            let (k, a) = entries[i];
            if a == action {
                assert(!r@.contains(k)) by {
                    if r@.contains(k) {
                        let j = choose|j: int| 0 <= j < i && self.key_order_seq()[j] == k && self.view()[k] == action;
                        assert(self.key_order_seq()[j] == self.key_order_seq()[i as int]);
                    }
                }
                insert_sorted(&mut r, k);
                assert forall|x: Key| #[trigger] r@.contains(x) <==> (exists|j: int| 0 <= j < i + 1 && self.key_order_seq()[j] == x && self.view()[x] == action) by {
                    if x == k {
                        assert(self.key_order_seq()[i as int] == x);
                    }
                    if exists|j: int| 0 <= j < i + 1 && self.key_order_seq()[j] == x && self.view()[x] == action {
                        let j = choose|j: int| 0 <= j < i + 1 && self.key_order_seq()[j] == x && self.view()[x] == action;
                        if j < i {
                        }
                    }
                }
            } else {
                assert forall|x: Key| #[trigger] r@.contains(x) <==> (exists|j: int| 0 <= j < i + 1 && self.key_order_seq()[j] == x && self.view()[x] == action) by {
                    if exists|j: int| 0 <= j < i + 1 && self.key_order_seq()[j] == x && self.view()[x] == action {
                        let j = choose|j: int| 0 <= j < i + 1 && self.key_order_seq()[j] == x && self.view()[x] == action;
                        if j == i {
                            assert(self.view()[x] == a);
                        }
                    }
                }
            }
            i = i + 1;
        }
        assert forall|k: Key| #[trigger] r@.contains(k) <==> (self.view().contains_key(k) && self.view()[k] == action) by {
            if self.view().contains_key(k) && self.view()[k] == action {
                assert(self.key_order_seq().contains(k));
                let j = choose|j: int| 0 <= j < self.key_order_seq().len() && self.key_order_seq()[j] == k;
                assert(exists|j: int| 0 <= j < i && self.key_order_seq()[j] == k && self.view()[k] == action);
            }
        }
        proof {
            let c = keys_for(self.view(), action);
            assert(strictly_sorted(c) && forall|x: Key| #[trigger] c.contains(x) <==> (self.view().contains_key(x) && self.view()[x] == action));
            lemma_sorted_keys_unique(r@, c);
        }
        r
    }
}
} // verus!
