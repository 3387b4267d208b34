use vstd::prelude::*;
use crate::actions::ViewAction;
use crate::config::{keys_for, Bindings, ColumnAction};
use crate::keys::{key_text, Key};
use crate::spans::{
    colored, dim, dim_style, color_style, line_of, line_of_spans, plain, span, span_str, spans_line, sv,
    Color, Line, LineView, Span, Style,
};
use crate::text::{joined, string_views};

verus! {

/// A hexadecimal digit, in lower case.
pub open spec fn hex_digit(n: nat) -> char {
    if n < 10 { (48 + n) as char } else { (87 + n) as char }
}

/// How the JSON library writes a character inside a string: the quote and
/// the backslash behind a backslash; backspace, tab, line feed, form feed
/// and carriage return as `\b`, `\t`, `\n`, `\f`, `\r`; the other control
/// characters below 0x20 as `\u00` and two hexadecimal digits; every other
/// character as it is.
pub open spec fn json_char(c: char) -> Seq<char> {
    if c == '"' {
        seq!['\\', '"']
    } else if c == '\\' {
        seq!['\\', '\\']
    } else if c == '\x08' {
        seq!['\\', 'b']
    } else if c == '\t' {
        seq!['\\', 't']
    } else if c == '\n' {
        seq!['\\', 'n']
    } else if c == '\x0C' {
        seq!['\\', 'f']
    } else if c == '\r' {
        seq!['\\', 'r']
    } else if (c as u32) < 0x20 {
        seq!['\\', 'u', '0', '0', hex_digit((c as u32 / 16) as nat), hex_digit((c as u32 % 16) as nat)]
    } else {
        seq![c]
    }
}

/// The characters of a text as the JSON library writes them inside a string.
pub open spec fn json_escaped(s: Seq<char>) -> Seq<char>
    decreases s.len(),
{
    if s.len() == 0 {
        Seq::empty()
    } else {
        json_escaped(s.drop_last()) + json_char(s.last())
    }
}

/// The JSON string literal of a text: its escaped characters between quotes.
pub open spec fn json_string(s: Seq<char>) -> Seq<char> {
    seq!['"'] + json_escaped(s) + seq!['"']
}

/// A character that the JSON library writes as it is inside a string.
pub open spec fn json_plain(c: char) -> bool {
    c != '"' && c != '\\' && (c as u32) >= 0x20
}

/// A text of characters written as they are is its own escaped form.
pub proof fn lemma_json_escaped_plain(s: Seq<char>)
    requires
        forall|i: int| 0 <= i < s.len() ==> json_plain(#[trigger] s[i]),
    ensures
        json_escaped(s) == s,
    decreases s.len(),
{
    if s.len() > 0 {
        lemma_json_escaped_plain(s.drop_last());
        assert(json_plain(s[s.len() - 1]));
        assert(s.drop_last().push(s.last()) =~= s);
    }
}

/// A key text of characters written as they are is shown in the menu as it
/// is: the quotes that the JSON library puts round it are taken off again.
pub proof fn lemma_plain_label(t: Seq<char>)
    requires
        forall|i: int| 0 <= i < t.len() ==> json_plain(#[trigger] t[i]),
    ensures
        trim_quotes(json_string(t)) == t,
{
    lemma_json_escaped_plain(t);
    let j = json_string(t);
    let a = t.push('"');
    assert(j.len() > 0 && j[0] == '"');
    assert(j.drop_first() =~= a);
    assert(trim_quotes(j) == trim_quotes(a));
    if t.len() == 0 {
        assert(a.len() > 0 && a[0] == '"');
        assert(a.drop_first() =~= Seq::<char>::empty());
        assert(trim_quotes(a) == trim_quotes(Seq::<char>::empty()));
    } else {
        assert(json_plain(t[0]));
        assert(a[0] == t[0]);
        assert(a.last() == '"');
        assert(a.drop_last() =~= t);
        assert(trim_quotes(a) == trim_quotes(t));
        assert(json_plain(t[t.len() - 1]));
        assert(t.last() == t[t.len() - 1]);
    }
}

/// `serde_json::to_string` of a text (which cannot fail for a text): the text
/// between quotes, each character escaped as `json_char` says.
#[verifier::external_body]
fn to_json_string(s: &str) -> (r: String)
    ensures
        r@ == json_string(s@),
{
    serde_json::to_string(s).unwrap_or_default()
}

/// `s` without the double quotes at its start and at its end.
pub open spec fn trim_quotes(s: Seq<char>) -> Seq<char>
    decreases s.len(),
{
    if s.len() > 0 && s[0] == '"' {
        trim_quotes(s.drop_first())
    } else if s.len() > 0 && s.last() == '"' {
        trim_quotes(s.drop_last())
    } else {
        s
    }
}

/// `s` without the double quotes at its ends (see `trim_quotes`).
pub fn trim_quote_chars(s: &str) -> (r: String)
    ensures
        r@ == trim_quotes(s@),
{
    let n = s.unicode_len();
    let mut i: usize = 0;
    let mut j: usize = n;
    assert(s@.subrange(0, n as int) =~= s@);
    while i < j && (s.get_char(i) == '"' || s.get_char(j - 1) == '"')
        invariant
            n == s@.len(),
            i <= j <= n,
            trim_quotes(s@) == trim_quotes(s@.subrange(i as int, j as int)),
        decreases j - i,
    {
        let ghost t = s@.subrange(i as int, j as int);
        if s.get_char(i) == '"' {
            assert(t[0] == s@[i as int]);
            assert(t.drop_first() =~= s@.subrange(i + 1, j as int));
            i = i + 1;
        } else {
            assert(t.last() == s@[j - 1]);
            assert(t.drop_last() =~= s@.subrange(i as int, j - 1));
            j = j - 1;
        }
    }
    proof {
        let t = s@.subrange(i as int, j as int);
        if i < j {
            assert(t[0] == s@[i as int]);
            assert(t.last() == s@[j - 1]);
        }
    }
    String::from_str(s.substring_char(i, j))
}

/// How a key is shown in the menu: its text form as a JSON string, without
/// the quotes; keys without a text form are not shown.
pub open spec fn key_label(k: Key) -> Option<Seq<char>> {
    match key_text(k) {
        Some(t) => Some(trim_quotes(json_string(t))),
        None => None,
    }
}

/// The labels of the keys, in order, leaving out those without one.
pub open spec fn key_labels(keys: Seq<Key>) -> Seq<Seq<char>>
    decreases keys.len(),
{
    if keys.len() == 0 {
        Seq::empty()
    } else {
        let rest = key_labels(keys.drop_last());
        match key_label(keys.last()) {
            Some(l) => rest.push(l),
            None => rest,
        }
    }
}

/// The labels of the keys bound to `action` in a column, in key order.
pub fn menu_key_labels(bindings: &Bindings<ColumnAction>, action: ColumnAction) -> (r: Vec<String>)
    ensures
        string_views(r@) == key_labels(keys_for(bindings.view(), action)),
{
    let keys = bindings.keys_bound_to(action);
    let mut labels: Vec<String> = Vec::new();
    let mut i: usize = 0;
    while i < keys.len()
        invariant
            i <= keys@.len(),
            string_views(labels@) == key_labels(keys@.take(i as int)),
        decreases keys@.len() - i,
    {
        proof {
            assert(keys@.take(i + 1).drop_last() =~= keys@.take(i as int));
            assert(keys@.take(i + 1).last() == keys@[i as int]);
        }
        match keys[i].to_text() {
            Ok(t) => {
                let json = to_json_string(t.as_str());
                let label = trim_quote_chars(json.as_str());
                let ghost before = labels@;
                labels.push(label);
                assert(string_views(labels@) =~= string_views(before).push(labels@.last()@));
            },
            Err(_) => {},
        }
        i = i + 1;
    }
    assert(keys@.take(keys@.len() as int) =~= keys@);
    labels
}

/// An entry of the column menu.
#[derive(Clone, Copy, Debug, PartialEq, Eq, Structural)]
pub enum MenuItem {
    NewPost,
    Refresh,
    Back,
}

/// The name of a menu entry.
pub open spec fn item_name(i: MenuItem) -> Seq<char> {
    match i {
        MenuItem::NewPost => "New Post"@,
        MenuItem::Refresh => "Refresh"@,
        MenuItem::Back => "Back"@,
    }
}

/// The style that undoes the dimming of the menu's frame.
pub open spec fn reset() -> Style {
    colored(Color::Reset)
}

/// A menu entry as a line: its name, and where keys are bound to it, a
/// space and the keys in brackets, separated by commas, dimmed.
pub open spec fn item_line(i: MenuItem, labels: Seq<Seq<char>>) -> LineView {
    if labels.len() > 0 {
        spans_line(seq![
            sv(item_name(i) + " "@, reset()),
            sv("("@ + joined(labels, ", "@) + ")"@, dim()),
        ])
    } else {
        spans_line(seq![sv(item_name(i), reset())])
    }
}

/// The action that choosing a menu entry sends to the column.
pub open spec fn item_action(i: MenuItem) -> ViewAction {
    match i {
        MenuItem::NewPost => ViewAction::NewPost,
        MenuItem::Refresh => ViewAction::Refresh,
        MenuItem::Back => ViewAction::Back,
    }
}

/// The menu of a column: "New Post", "Refresh" and "Back", each with the
/// keys bound to it, and the selected entry.
#[derive(Debug)]
pub struct Menu {
    pub new_post_keys: Vec<String>,
    pub refresh_keys: Vec<String>,
    pub back_keys: Vec<String>,
    pub selected: usize,
}

/// The entry at a position of the menu.
pub open spec fn item_at(i: nat) -> MenuItem {
    if i == 0 {
        MenuItem::NewPost
    } else if i == 1 {
        MenuItem::Refresh
    } else {
        MenuItem::Back
    }
}

impl Menu {
    /// The selection is one of the three entries.
    pub open spec fn wf(&self) -> bool {
        self.selected < 3
    }

    /// The menu for the column bindings, its first entry selected.
    pub fn new(bindings: &Bindings<ColumnAction>) -> (r: Menu)
        ensures
            r.wf(),
            r.selected == 0,
            string_views(r.new_post_keys@) == key_labels(keys_for(bindings.view(), ColumnAction::NewPost)),
            string_views(r.refresh_keys@) == key_labels(keys_for(bindings.view(), ColumnAction::Refresh)),
            string_views(r.back_keys@) == key_labels(keys_for(bindings.view(), ColumnAction::Back)),
    {
        let new_post_keys = menu_key_labels(bindings, ColumnAction::NewPost);
        let refresh_keys = menu_key_labels(bindings, ColumnAction::Refresh);
        let back_keys = menu_key_labels(bindings, ColumnAction::Back);
        Menu { new_post_keys, refresh_keys, back_keys, selected: 0 }
    }

    /// The menu's answer to an action: Next and Prev move the selection,
    /// stopping at the ends, and ask for a redraw; Enter sends the selected
    /// entry's action and closes the menu; a redraw or an update is left
    /// to the view below; anything else closes the menu. The second result
    /// is the action sent to the column.
    pub fn update(&mut self, action: ViewAction) -> (r: (Option<ViewAction>, Option<ViewAction>))
        requires
            old(self).wf(),
        ensures
            final(self).wf(),
            final(self).new_post_keys@ == old(self).new_post_keys@,
            final(self).refresh_keys@ == old(self).refresh_keys@,
            final(self).back_keys@ == old(self).back_keys@,
            final(self).selected == (match action {
                ViewAction::NextItem => if old(self).selected + 1 < 3 { (old(self).selected + 1) as usize } else { 2usize },
                ViewAction::PrevItem => if old(self).selected >= 1 { (old(self).selected - 1) as usize } else { 0usize },
                _ => old(self).selected,
            }),
            r == (match action {
                ViewAction::NextItem | ViewAction::PrevItem => (Some(ViewAction::Render), None::<ViewAction>),
                ViewAction::Enter => (Some(ViewAction::Menu), Some(item_action(item_at(old(self).selected as nat)))),
                ViewAction::Update | ViewAction::Render => (None::<ViewAction>, None::<ViewAction>),
                _ => (Some(ViewAction::Menu), None::<ViewAction>),
            }),
    {
        match action {
            ViewAction::NextItem => {
                self.selected = if self.selected + 1 < 3 { self.selected + 1 } else { 2 };
                (Some(ViewAction::Render), None)
            },
            ViewAction::PrevItem => {
                self.selected = if self.selected >= 1 { self.selected - 1 } else { 0 };
                (Some(ViewAction::Render), None)
            },
            ViewAction::Enter => {
                let sent = if self.selected == 0 {
                    ViewAction::NewPost
                } else if self.selected == 1 {
                    ViewAction::Refresh
                } else {
                    ViewAction::Back
                };
                (Some(ViewAction::Menu), Some(sent))
            },
            ViewAction::Update | ViewAction::Render => (None, None),
            _ => (Some(ViewAction::Menu), None),
        }
    }
}

/// A menu entry as a line (see `item_line`).
pub fn item_to_line(i: MenuItem, labels: &Vec<String>) -> (r: Line)
    ensures
        r@ == item_line(i, string_views(labels@)),
{
    let name = match i {
        MenuItem::NewPost => "New Post",
        MenuItem::Refresh => "Refresh",
        MenuItem::Back => "Back",
    };
    let mut spans: Vec<Span> = Vec::new();
    if labels.len() > 0 {
        let mut head = String::from_str(name);
        head.append(" ");
        spans.push(span(head, color_style(Color::Reset)));
        let mut keys = String::from_str("(");
        keys.append(crate::text::join(labels, ", ").as_str());
        keys.append(")");
        spans.push(span(keys, dim_style()));
    } else {
        spans.push(span_str(name, color_style(Color::Reset)));
    }
    let l = line_of_spans(spans);
    assert(l@.spans =~= item_line(i, string_views(labels@)).spans);
    l
}

} // verus!
