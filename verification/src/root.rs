use vstd::prelude::*;
use crate::actions::{Transition, ViewAction, ViewKind};
use crate::profile::{name_as_shown, profile_name_as_str, Profile, ProfileBasic};
use crate::spans::{
    bold, bold_style, color_style, colored, dim, dim_style, line_of, line_of_spans, line_views, plain,
    plain_style, span, span_str, spans_line, sv, Color, Line, LineView, Span,
};

verus! {

/// A pinned feed as the root view lists it.
#[derive(Debug)]
pub enum FeedEntry {
    /// A feed generator: its name, creator and description.
    Feed { display_name: String, creator: ProfileBasic, description: Option<String> },
    /// A list: its name, creator and description.
    List { name: String, creator: ProfileBasic, description: Option<String> },
    /// The following timeline.
    Timeline,
}

/// The description line of a feed or list: two spaces and the description
/// (nothing more where there is none), dimmed.
pub open spec fn description_line(d: Option<String>) -> LineView {
    LineView {
        spans: seq![sv("  "@ + match d {
            Some(s) => s@,
            None => Seq::empty(),
        }, plain())],
        style: dim(),
    }
}

/// The lines of a pinned feed in the root list: its kind ("[feed]" in blue,
/// "[list]" in yellow, "[timeline]" in green), its name in bold and, for
/// feeds and lists, "by" the creator in grey; then its description, dimmed.
pub open spec fn entry_lines(e: FeedEntry) -> Seq<LineView> {
    match e {
        FeedEntry::Feed { display_name, creator, description } => seq![
            spans_line(seq![
                sv("[feed]"@, colored(Color::Blue)),
                sv(" "@, plain()),
                sv(display_name@, bold()),
                sv(" "@, plain()),
                sv("by "@ + name_as_shown(creator.display_name_view(), creator.handle_view()), colored(Color::Gray)),
            ]),
            description_line(description),
        ],
        FeedEntry::List { name, creator, description } => seq![
            spans_line(seq![
                sv("[list]"@, colored(Color::Yellow)),
                sv(" "@, plain()),
                sv(name@, bold()),
                sv(" "@, plain()),
                sv("by "@ + name_as_shown(creator.display_name_view(), creator.handle_view()), colored(Color::Gray)),
            ]),
            description_line(description),
        ],
        FeedEntry::Timeline => seq![
            spans_line(seq![sv("[timeline]"@, colored(Color::Green)), sv(" "@, plain()), sv("Following"@, bold())]),
            LineView { spans: seq![sv("  Your following feed"@, plain())], style: dim() },
        ],
    }
}

fn description_to_line(d: &Option<String>) -> (r: Line)
    ensures
        r@ == description_line(*d),
{
    let mut t = String::from_str("  ");
    match d {
        Some(s) => t.append(s.as_str()),
        None => {},
    }
    let mut l = line_of(t, plain_style());
    l.style = dim_style();
    proof {
        let dd = *d;
        let e = match dd {
            Some(s) => s@,
            None => Seq::<char>::empty(),
        };
        assert(l@.spans =~= seq![sv("  "@ + e, plain())]);
    }
    l
}

fn titled_line(kind: &str, color: Color, name: &String, creator: &ProfileBasic) -> (r: Line)
    ensures
        r@ == spans_line(seq![
            sv(kind@, colored(color)),
            sv(" "@, plain()),
            sv(name@, bold()),
            sv(" "@, plain()),
            sv("by "@ + name_as_shown(creator.display_name_view(), creator.handle_view()), colored(Color::Gray)),
        ]),
{
    let mut by = String::from_str("by ");
    by.append(profile_name_as_str(creator));
    let mut spans: Vec<Span> = Vec::new();
    spans.push(span_str(kind, color_style(color)));
    spans.push(span_str(" ", plain_style()));
    spans.push(span(name.clone(), bold_style()));
    spans.push(span_str(" ", plain_style()));
    spans.push(span(by, color_style(Color::Gray)));
    let l = line_of_spans(spans);
    assert(l@.spans =~= seq![
        sv(kind@, colored(color)),
        sv(" "@, plain()),
        sv(name@, bold()),
        sv(" "@, plain()),
        sv("by "@ + name_as_shown(creator.display_name_view(), creator.handle_view()), colored(Color::Gray)),
    ]);
    l
}

/// The lines of a pinned feed in the root list (see `entry_lines`).
pub fn entry_to_lines(e: &FeedEntry) -> (r: Vec<Line>)
    ensures
        line_views(r@) == entry_lines(*e),
{
    let mut r: Vec<Line> = Vec::new();
    match e {
        FeedEntry::Feed { display_name, creator, description } => {
            r.push(titled_line("[feed]", Color::Blue, display_name, creator));
            r.push(description_to_line(description));
        },
        FeedEntry::List { name, creator, description } => {
            r.push(titled_line("[list]", Color::Yellow, name, creator));
            r.push(description_to_line(description));
        },
        FeedEntry::Timeline => {
            let mut spans: Vec<Span> = Vec::new();
            spans.push(span_str("[timeline]", color_style(Color::Green)));
            spans.push(span_str(" ", plain_style()));
            spans.push(span_str("Following", bold_style()));
            let l = line_of_spans(spans);
            assert(l@.spans =~= seq![sv("[timeline]"@, colored(Color::Green)), sv(" "@, plain()), sv("Following"@, bold())]);
            r.push(l);
            let mut d = line_of(String::from_str("  Your following feed"), plain_style());
            d.style = dim_style();
            r.push(d);
        },
    }
    assert(line_views(r@) =~= entry_lines(*e));
    r
}

pub open spec fn text_views(s: Seq<Vec<Line>>) -> Seq<Seq<LineView>> {
    s.map_values(|t: Vec<Line>| line_views(t@))
}

/// The root list: each pinned feed, then "Sign out" in red where there is
/// any feed.
pub open spec fn root_list(entries: Seq<FeedEntry>) -> Seq<Seq<LineView>> {
    let feeds = entries.map_values(|e: FeedEntry| entry_lines(e));
    if entries.len() > 0 {
        feeds.push(seq![LineView { spans: seq![sv("Sign out"@, plain())], style: colored(Color::Red) }])
    } else {
        feeds
    }
}

/// The entries of the root list (see `root_list`).
pub fn root_list_items(entries: &Vec<FeedEntry>) -> (r: Vec<Vec<Line>>)
    ensures
        text_views(r@) == root_list(entries@),
{
    let ghost feeds = entries@.map_values(|e: FeedEntry| entry_lines(e));
    let mut r: Vec<Vec<Line>> = Vec::new();
    let mut i: usize = 0;
    while i < entries.len()
        invariant
            i <= entries@.len(),
            feeds == entries@.map_values(|e: FeedEntry| entry_lines(e)),
            text_views(r@) =~= feeds.take(i as int),
        decreases entries@.len() - i,
    {
        let ghost before = r@;
        r.push(entry_to_lines(&entries[i]));
        assert(text_views(r@) =~= text_views(before).push(line_views(r@.last()@)));
        assert(feeds.take(i + 1) =~= feeds.take(i as int).push(feeds[i as int]));
        i = i + 1;
    }
    assert(feeds.take(entries@.len() as int) =~= feeds);
    if entries.len() > 0 {
        let mut sign_out = line_of(String::from_str("Sign out"), plain_style());
        sign_out.style = color_style(Color::Red);
        let mut last: Vec<Line> = Vec::new();
        last.push(sign_out);
        let ghost before = r@;
        assert(line_views(last@) =~= seq![LineView { spans: seq![sv("Sign out"@, plain())], style: colored(Color::Red) }]);
        r.push(last);
        assert(text_views(r@) =~= text_views(before).push(line_views(r@.last()@)));
    }
    r
}

/// What the root view asks beside answering.
#[derive(Clone, Copy, Debug, PartialEq, Eq, Structural)]
pub enum RootEffect {
    Nothing,
    /// Open the pinned feed at this position.
    OpenFeed(usize),
    /// Stop watching the pinned feeds, for signing out.
    Deactivate,
    /// Fetch the pinned feeds again.
    Refresh,
}

/// The root view: the pinned feeds and the selected entry, where the entry
/// after the last feed is "Sign out".
#[derive(Debug)]
pub struct RootState {
    pub entries: Vec<FeedEntry>,
    pub selected: Option<usize>,
}

impl RootState {
    /// No feeds yet, nothing selected.
    pub fn new() -> (r: RootState)
        ensures
            r.entries@.len() == 0,
            r.selected is None,
    {
        RootState { entries: Vec::new(), selected: None }
    }

    /// The view's answer to an action. Where there are feeds: Next moves
    /// the selection down, as far as "Sign out"; Prev moves it up, stopping
    /// at the first feed (both select the first feed where nothing is
    /// selected) and ask for a redraw; Enter on a feed pushes that feed's
    /// view, on "Sign out" stops watching and signs out, and on a position
    /// past both does nothing. Refresh fetches the feeds again. Everything
    /// else is ignored.
    pub fn update(&mut self, action: ViewAction) -> (r: (Option<ViewAction>, RootEffect))
        ensures
            final(self).entries@ == old(self).entries@,
            ({
                let n = old(self).entries@.len();
                let sel = old(self).selected;
                match action {
                    ViewAction::NextItem => if n > 0 {
                        r == (Some(ViewAction::Render), RootEffect::Nothing) && final(self).selected == Some(match sel {
                            Some(s) => if s + 1 < n { (s + 1) as usize } else { n as usize },
                            None => 0usize,
                        })
                    } else {
                        r == (None::<ViewAction>, RootEffect::Nothing) && final(self).selected == sel
                    },
                    ViewAction::PrevItem => if n > 0 {
                        r == (Some(ViewAction::Render), RootEffect::Nothing) && final(self).selected == Some(match sel {
                            Some(s) => if s >= 1 { (s - 1) as usize } else { 0usize },
                            None => 0usize,
                        })
                    } else {
                        r == (None::<ViewAction>, RootEffect::Nothing) && final(self).selected == sel
                    },
                    ViewAction::Enter => final(self).selected == sel && (if n > 0 {
                        match sel {
                            Some(i) => if i == n {
                                r == (Some(ViewAction::Logout), RootEffect::Deactivate)
                            } else if i < n {
                                r == (Some(ViewAction::Transition(Transition::Push(ViewKind::Feed))), RootEffect::OpenFeed(i))
                            } else {
                                r == (None::<ViewAction>, RootEffect::Nothing)
                            },
                            None => r == (None::<ViewAction>, RootEffect::Nothing),
                        }
                    } else {
                        r == (None::<ViewAction>, RootEffect::Nothing)
                    }),
                    ViewAction::Refresh => r == (None::<ViewAction>, RootEffect::Refresh) && final(self).selected == sel,
                    _ => r == (None::<ViewAction>, RootEffect::Nothing) && final(self).selected == sel,
                }
            }),
    {
        let n = self.entries.len();
        match action {
            ViewAction::NextItem => {
                if n == 0 {
                    return (None, RootEffect::Nothing);
                }
                self.selected = Some(match self.selected {
                    Some(s) => if s < n && s + 1 < n { s + 1 } else { n },
                    None => 0,
                });
                (Some(ViewAction::Render), RootEffect::Nothing)
            },
            ViewAction::PrevItem => {
                if n == 0 {
                    return (None, RootEffect::Nothing);
                }
                self.selected = Some(match self.selected {
                    Some(s) => if s >= 1 { s - 1 } else { 0 },
                    None => 0,
                });
                (Some(ViewAction::Render), RootEffect::Nothing)
            },
            ViewAction::Enter => {
                if n == 0 {
                    return (None, RootEffect::Nothing);
                }
                match self.selected {
                    Some(i) => if i == n {
                        (Some(ViewAction::Logout), RootEffect::Deactivate)
                    } else if i < n {
                        (Some(ViewAction::Transition(Transition::Push(ViewKind::Feed))), RootEffect::OpenFeed(i))
                    } else {
                        (None, RootEffect::Nothing)
                    },
                    None => (None, RootEffect::Nothing),
                }
            },
            ViewAction::Refresh => (None, RootEffect::Refresh),
            _ => (None, RootEffect::Nothing),
        }
    }

    /// Takes the pinned feeds anew: where nothing was selected and there
    /// are feeds, the first is selected; otherwise the selection stays as
    /// it was. A redraw is asked for.
    pub fn entries_updated(&mut self, entries: Vec<FeedEntry>) -> (r: Option<ViewAction>)
        ensures
            final(self).entries@ == entries@,
            final(self).selected == (if old(self).selected is None && entries@.len() > 0 {
                Some(0usize)
            } else {
                old(self).selected
            }),
            r == Some(ViewAction::Render),
    {
        self.entries = entries;
        if self.selected.is_none() && self.entries.len() > 0 {
            self.selected = Some(0);
        }
        Some(ViewAction::Render)
    }

    /// What drawing the list does to the selection: where the list is drawn
    /// into a non-empty area, a list with no entries (no feeds, so no "Sign
    /// out" either) loses its selection, and a selection past the last entry
    /// moves onto the last entry ("Sign out"). The feeds are unchanged.
    pub fn drawn(&mut self, area_empty: bool)
        ensures
            final(self).entries@ == old(self).entries@,
            final(self).selected == (if area_empty {
                old(self).selected
            } else if old(self).entries@.len() == 0 {
                None
            } else {
                match old(self).selected {
                    Some(s) => Some(if s > old(self).entries@.len() { old(self).entries@.len() as usize } else { s }),
                    None => None,
                }
            }),
    {
        if area_empty {
            return;
        }
        let n = self.entries.len();
        if n == 0 {
            self.selected = None;
        } else {
            match self.selected {
                Some(s) => if s > n {
                    self.selected = Some(n);
                },
                None => {},
            }
        }
    }
}

} // verus!
