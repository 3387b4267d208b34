use vstd::prelude::*;
use crate::text::str_equal;

verus! {

/// A feed the user saved: `kind` is `feed`, `list`, `timeline` or another
/// type; `value` is the feed's or list's URI, or the timeline's name.
#[derive(Debug)]
pub struct SavedFeed {
    pub id: String,
    pub pinned: bool,
    pub kind: String,
    pub value: String,
}

pub ghost struct SavedFeedView {
    pub id: Seq<char>,
    pub pinned: bool,
    pub kind: Seq<char>,
    pub value: Seq<char>,
}

impl View for SavedFeed {
    type V = SavedFeedView;

    open spec fn view(&self) -> SavedFeedView {
        SavedFeedView { id: self.id@, pinned: self.pinned, kind: self.kind@, value: self.value@ }
    }
}

impl SavedFeed {
    /// A copy of this value.
    pub fn duplicate(&self) -> (r: SavedFeed)
        ensures
            r@ == self@,
    {
        SavedFeed {
            id: self.id.clone(),
            pinned: self.pinned,
            kind: self.kind.clone(),
            value: self.value.clone(),
        }
    }
}

/// Where a pinned feed's items come from. A feed generator or a list is
/// identified by a number that the caller gives it when it resolves it.
#[derive(Debug)]
pub enum FeedSourceInfo {
    Feed(u64),
    List(u64),
    Timeline(String),
}

pub ghost enum FeedSourceInfoView {
    Feed(u64),
    List(u64),
    Timeline(Seq<char>),
}

impl View for FeedSourceInfo {
    type V = FeedSourceInfoView;

    open spec fn view(&self) -> FeedSourceInfoView {
        match self {
            FeedSourceInfo::Feed(n) => FeedSourceInfoView::Feed(*n),
            FeedSourceInfo::List(n) => FeedSourceInfoView::List(*n),
            FeedSourceInfo::Timeline(s) => FeedSourceInfoView::Timeline(s@),
        }
    }
}

/// A saved feed with what it resolved to.
#[derive(Debug)]
pub struct PinnedFeed {
    pub saved_feed: SavedFeed,
    pub info: FeedSourceInfo,
}

pub ghost struct PinnedFeedView {
    pub saved_feed: SavedFeedView,
    pub info: FeedSourceInfoView,
}

impl View for PinnedFeed {
    type V = PinnedFeedView;

    open spec fn view(&self) -> PinnedFeedView {
        PinnedFeedView { saved_feed: self.saved_feed@, info: self.info@ }
    }
}

pub open spec fn saved_views(s: Seq<SavedFeed>) -> Seq<SavedFeedView> {
    s.map_values(|f: SavedFeed| f@)
}

pub open spec fn pinned_views(s: Seq<PinnedFeed>) -> Seq<PinnedFeedView> {
    s.map_values(|f: PinnedFeed| f@)
}

/// The values of the pinned saved feeds of type `kind`, in order.
pub open spec fn pinned_values(s: Seq<SavedFeedView>, kind: Seq<char>) -> Seq<Seq<char>>
    decreases s.len(),
{
    if s.len() == 0 {
        Seq::empty()
    } else if s.last().pinned && s.last().kind == kind {
        pinned_values(s.drop_last(), kind).push(s.last().value)
    } else {
        pinned_values(s.drop_last(), kind)
    }
}

/// What has to be resolved before the pinned feeds can be shown: the URIs of
/// the pinned feed generators and of the pinned lists, in the saved order.
pub fn pinned_feed_requests(saved_feeds: &[SavedFeed]) -> (r: (Vec<String>, Vec<String>))
    ensures
        r.0@.map_values(|s: String| s@) == pinned_values(saved_views(saved_feeds@), "feed"@),
        r.1@.map_values(|s: String| s@) == pinned_values(saved_views(saved_feeds@), "list"@),
{
    let mut feeds: Vec<String> = Vec::new();
    let mut lists: Vec<String> = Vec::new();
    let mut i: usize = 0;
    while i < saved_feeds.len()
        invariant
            i <= saved_feeds@.len(),
            feeds@.map_values(|s: String| s@) == pinned_values(saved_views(saved_feeds@).take(i as int), "feed"@),
            lists@.map_values(|s: String| s@) == pinned_values(saved_views(saved_feeds@).take(i as int), "list"@),
        decreases saved_feeds@.len() - i,
    {
        let f = &saved_feeds[i];
        let ghost t = saved_views(saved_feeds@).take(i + 1);
        proof {
            assert(t.drop_last() =~= saved_views(saved_feeds@).take(i as int));
            assert(t.last() == f@);
            reveal_strlit("feed");
            reveal_strlit("list");
            assert("feed"@[0] != "list"@[0]);
        }
        if f.pinned {
            if str_equal(f.kind.as_str(), "feed") {
                let ghost before = feeds@;
                feeds.push(f.value.clone());
                proof {
                    assert(feeds@.map_values(|s: String| s@) =~= before.map_values(|s: String| s@).push(f.value@));
                }
            } else if str_equal(f.kind.as_str(), "list") {
                let ghost before = lists@;
                lists.push(f.value.clone());
                proof {
                    assert(lists@.map_values(|s: String| s@) =~= before.map_values(|s: String| s@).push(f.value@));
                }
            }
        }
        i = i + 1;
    }
    proof {
        assert(saved_views(saved_feeds@).take(saved_feeds@.len() as int) =~= saved_views(saved_feeds@));
    }
    (feeds, lists)
}


impl FeedSourceInfo {
    /// A copy of this value.
    pub fn duplicate(&self) -> (r: FeedSourceInfo)
        ensures
            r@ == self@,
    {
        match self {
            FeedSourceInfo::Feed(n) => FeedSourceInfo::Feed(*n),
            FeedSourceInfo::List(n) => FeedSourceInfo::List(*n),
            FeedSourceInfo::Timeline(s) => FeedSourceInfo::Timeline(s.clone()),
        }
    }
}

/// Feed generators and lists resolved by their URI; a URI resolved twice
/// keeps what it resolved to last.
pub struct ResolvedSources {
    entries: Vec<(String, FeedSourceInfo)>,
}

impl ResolvedSources {
    #[verifier::type_invariant]
    spec fn distinct_uris(self) -> bool {
        forall|i: int, j: int| 0 <= i < self.entries@.len() && 0 <= j < self.entries@.len() && i != j
            ==> #[trigger] self.entries@[i].0@ != #[trigger] self.entries@[j].0@
    }

    /// What each resolved URI resolved to.
    pub closed spec fn view(self) -> Map<Seq<char>, FeedSourceInfoView> {
        Map::new(
            |u: Seq<char>| exists|i: int| 0 <= i < self.entries@.len() && self.entries@[i].0@ == u,
            |u: Seq<char>| self.entries@[choose|i: int| 0 <= i < self.entries@.len() && self.entries@[i].0@ == u].1@,
        )
    }

    /// Nothing resolved.
    pub fn new() -> (r: ResolvedSources)
        ensures
            r@ == Map::<Seq<char>, FeedSourceInfoView>::empty(),
    {
        let r = ResolvedSources { entries: Vec::new() };
        assert(r@ =~= Map::<Seq<char>, FeedSourceInfoView>::empty());
        r
    }

    fn position(&self, uri: &str) -> (r: Option<usize>)
        ensures
            r matches Some(i) ==> i < self.entries@.len() && self.entries@[i as int].0@ == uri@,
            r is None ==> forall|i: int| 0 <= i < self.entries@.len() ==> self.entries@[i].0@ != uri@,
    {
        let mut i: usize = 0;
        while i < self.entries.len()
            invariant
                i <= self.entries@.len(),
                forall|j: int| 0 <= j < i ==> self.entries@[j].0@ != uri@,
            decreases self.entries@.len() - i,
        {
            if str_equal(self.entries[i].0.as_str(), uri) {
                return Some(i);
            }
            i = i + 1;
        }
        None
    }

    /// Records that `uri` resolved to `info`.
    pub fn insert(&mut self, uri: String, info: FeedSourceInfo)
        ensures
            final(self)@ == old(self)@.insert(uri@, info@),
    {
        proof {
            use_type_invariant(&*self);
        }
        let ghost old_entries = self.entries@;
        let pos = self.position(uri.as_str());
        let mut taken = ResolvedSources { entries: Vec::new() };
        std::mem::swap(&mut taken, self);
        let ResolvedSources { entries: mut entries } = taken;
        let ghost u = uri@;
        let ghost v = info@;
        match pos {
            Some(i) => {
                entries.set(i, (uri, info));
            },
            None => {
                entries.push((uri, info));
            },
        }
        proof {
            assert forall|a: int, b: int| 0 <= a < entries@.len() && 0 <= b < entries@.len() && a != b
                implies #[trigger] entries@[a].0@ != #[trigger] entries@[b].0@ by {
                if pos is Some {
                    let i = pos->0 as int;
                    if a != i && b != i {
                        assert(entries@[a] == old_entries[a] && entries@[b] == old_entries[b]);
                    } else if a == i {
                        assert(entries@[b] == old_entries[b]);
                        assert(old_entries[a].0@ == u);
                    } else {
                        assert(entries@[a] == old_entries[a]);
                        assert(old_entries[b].0@ == u);
                    }
                } else {
                    if a < old_entries.len() && b < old_entries.len() {
                        assert(entries@[a] == old_entries[a] && entries@[b] == old_entries[b]);
                    } else if a < old_entries.len() {
                        assert(entries@[a] == old_entries[a]);
                    } else {
                        assert(entries@[b] == old_entries[b]);
                    }
                }
            }
        }
        *self = ResolvedSources { entries };
        proof {
            let m = self@;
            let o = old(self)@.insert(u, v);
            assert forall|w: Seq<char>| m.contains_key(w) <==> o.contains_key(w) by {
                if m.contains_key(w) {
                    let k = choose|k: int| 0 <= k < self.entries@.len() && self.entries@[k].0@ == w;
                    if w != u {
                        assert(old_entries[k] == self.entries@[k]);
                    }
                }
                if old(self)@.contains_key(w) {
                    let k = choose|k: int| 0 <= k < old_entries.len() && old_entries[k].0@ == w;
                    if w != u {
                        assert(self.entries@[k] == old_entries[k]);
                    }
                }
                if w == u {
                    if pos is Some {
                        assert(self.entries@[pos->0 as int].0@ == u);
                    } else {
                        assert(self.entries@[old_entries.len() as int].0@ == u);
                    }
                }
            }
            assert forall|w: Seq<char>| m.contains_key(w) implies m[w] == o[w] by {
                let k = choose|k: int| 0 <= k < self.entries@.len() && self.entries@[k].0@ == w;
                if w == u {
                    if pos is Some {
                        assert(k == pos->0 as int);
                    } else {
                        assert(k == old_entries.len() as int);
                    }
                } else {
                    assert(self.entries@[k] == old_entries[k]);
                    let k2 = choose|k2: int| 0 <= k2 < old_entries.len() && old_entries[k2].0@ == w;
                    assert(k2 == k);
                }
            }
            assert(m =~= o);
        }
    }

    /// Takes out what `uri` resolved to, if it was resolved.
    pub fn remove(&mut self, uri: &str) -> (r: Option<FeedSourceInfo>)
        ensures
            old(self)@.contains_key(uri@) ==> (r matches Some(info) && info@ == old(self)@[uri@]),
            !old(self)@.contains_key(uri@) ==> r is None,
            final(self)@ == old(self)@.remove(uri@),
    {
        proof {
            use_type_invariant(&*self);
        }
        let ghost old_entries = self.entries@;
        let pos = self.position(uri);
        match pos {
            Some(i) => {
                let mut taken = ResolvedSources { entries: Vec::new() };
                std::mem::swap(&mut taken, self);
                let ResolvedSources { entries: mut entries } = taken;
                let (_, info) = entries.remove(i);
                proof {
                    assert forall|a: int, b: int| 0 <= a < entries@.len() && 0 <= b < entries@.len() && a != b
                        implies #[trigger] entries@[a].0@ != #[trigger] entries@[b].0@ by {
                        let oa = if a < i { a } else { a + 1 };
                        let ob = if b < i { b } else { b + 1 };
                        assert(entries@[a] == old_entries[oa]);
                        assert(entries@[b] == old_entries[ob]);
                    }
                }
                *self = ResolvedSources { entries };
                proof {
                    let m = self@;
                    let o = old(self)@.remove(uri@);
                    assert forall|w: Seq<char>| m.contains_key(w) <==> o.contains_key(w) by {
                        if m.contains_key(w) {
                            let k = choose|k: int| 0 <= k < self.entries@.len() && self.entries@[k].0@ == w;
                            let ok = if k < i { k } else { k + 1 };
                            assert(old_entries[ok] == self.entries@[k]);
                            assert(ok != i);
                        }
                        if o.contains_key(w) {
                            let k = choose|k: int| 0 <= k < old_entries.len() && old_entries[k].0@ == w;
                            assert(k != i);
                            let nk = if k < i { k } else { k - 1 };
                            assert(self.entries@[nk] == old_entries[k]);
                        }
                    }
                    assert forall|w: Seq<char>| m.contains_key(w) implies m[w] == o[w] by {
                        let k = choose|k: int| 0 <= k < self.entries@.len() && self.entries@[k].0@ == w;
                        let ok = if k < i { k } else { k + 1 };
                        assert(old_entries[ok] == self.entries@[k]);
                        let k2 = choose|k2: int| 0 <= k2 < old_entries.len() && old_entries[k2].0@ == w;
                        assert(k2 == ok);
                    }
                    assert(m =~= o);
                    let k2 = choose|k2: int| 0 <= k2 < old_entries.len() && old_entries[k2].0@ == uri@;
                    assert(k2 == i as int);
                }
                Some(info)
            },
            None => {
                proof {
                    assert(!old(self)@.contains_key(uri@));
                    assert(old(self)@.remove(uri@) =~= old(self)@);
                }
                None
            },
        }
    }
}

/// The pinned feeds shown, in saved order: a saved feed or list whose URI
/// was resolved shows what it resolved to (each resolved URI is shown once,
/// for its first saved entry); a saved timeline always shows; anything else
/// is left out.
pub open spec fn spec_assemble(saved: Seq<SavedFeedView>, resolved: Map<Seq<char>, FeedSourceInfoView>) -> Seq<PinnedFeedView>
    decreases saved.len(),
{
    if saved.len() == 0 {
        Seq::empty()
    } else {
        let f = saved[0];
        let rest = saved.subrange(1, saved.len() as int);
        if f.kind == "feed"@ || f.kind == "list"@ {
            if resolved.contains_key(f.value) {
                seq![PinnedFeedView { saved_feed: f, info: resolved[f.value] }] + spec_assemble(rest, resolved.remove(f.value))
            } else {
                spec_assemble(rest, resolved)
            }
        } else if f.kind == "timeline"@ {
            seq![PinnedFeedView { saved_feed: f, info: FeedSourceInfoView::Timeline(f.value) }] + spec_assemble(rest, resolved)
        } else {
            spec_assemble(rest, resolved)
        }
    }
}

/// The entries of `out` made from saved feeds of type `timeline`, in order.
pub open spec fn timeline_entries(out: Seq<PinnedFeedView>) -> Seq<PinnedFeedView>
    decreases out.len(),
{
    if out.len() == 0 {
        Seq::empty()
    } else {
        (if out[0].saved_feed.kind == "timeline"@ { seq![out[0]] } else { Seq::empty() })
            + timeline_entries(out.subrange(1, out.len() as int))
    }
}

/// The saved feeds of type `timeline`, in order, each shown as the timeline
/// its value names.
pub open spec fn saved_timelines(saved: Seq<SavedFeedView>) -> Seq<PinnedFeedView>
    decreases saved.len(),
{
    if saved.len() == 0 {
        Seq::empty()
    } else {
        (if saved[0].kind == "timeline"@ {
            seq![PinnedFeedView { saved_feed: saved[0], info: FeedSourceInfoView::Timeline(saved[0].value) }]
        } else {
            Seq::empty()
        }) + saved_timelines(saved.subrange(1, saved.len() as int))
    }
}

proof fn lemma_timeline_entries_one(e: PinnedFeedView, rest: Seq<PinnedFeedView>)
    ensures
        timeline_entries(seq![e] + rest) == (if e.saved_feed.kind == "timeline"@ { seq![e] } else {
            Seq::<PinnedFeedView>::empty()
        }) + timeline_entries(rest),
{
    let s = seq![e] + rest;
    assert(s[0] == e);
    assert(s.subrange(1, s.len() as int) =~= rest);
}

/// Every saved feed of type `timeline` is shown, in the saved order, as the
/// timeline its value names, whatever was resolved; and nothing else shown
/// comes from a timeline.
pub proof fn lemma_timelines_shown(saved: Seq<SavedFeedView>, resolved: Map<Seq<char>, FeedSourceInfoView>)
    ensures
        timeline_entries(spec_assemble(saved, resolved)) == saved_timelines(saved),
    decreases saved.len(),
{
    reveal_strlit("feed");
    reveal_strlit("list");
    reveal_strlit("timeline");
    if saved.len() > 0 {
        let f = saved[0];
        let rest = saved.subrange(1, saved.len() as int);
        if f.kind == "feed"@ || f.kind == "list"@ {
            assert(f.kind != "timeline"@) by {
                assert(f.kind.len() != "timeline"@.len());
            }
            if resolved.contains_key(f.value) {
                lemma_timelines_shown(rest, resolved.remove(f.value));
                lemma_timeline_entries_one(
                    PinnedFeedView { saved_feed: f, info: resolved[f.value] },
                    spec_assemble(rest, resolved.remove(f.value)),
                );
                assert(Seq::<PinnedFeedView>::empty() + timeline_entries(spec_assemble(rest, resolved.remove(f.value)))
                    =~= timeline_entries(spec_assemble(rest, resolved.remove(f.value))));
            } else {
                lemma_timelines_shown(rest, resolved);
            }
            assert(Seq::<PinnedFeedView>::empty() + saved_timelines(rest) =~= saved_timelines(rest));
        } else if f.kind == "timeline"@ {
            lemma_timelines_shown(rest, resolved);
            lemma_timeline_entries_one(
                PinnedFeedView { saved_feed: f, info: FeedSourceInfoView::Timeline(f.value) },
                spec_assemble(rest, resolved),
            );
        } else {
            lemma_timelines_shown(rest, resolved);
            assert(Seq::<PinnedFeedView>::empty() + saved_timelines(rest) =~= saved_timelines(rest));
        }
    }
}

/// Everything shown comes from a saved feed: a timeline as the timeline its
/// value names, and a feed or list as what its URI resolved to; nothing of
/// another type is shown.
pub proof fn lemma_shown_feeds_resolved(saved: Seq<SavedFeedView>, resolved: Map<Seq<char>, FeedSourceInfoView>)
    ensures
        forall|i: int| 0 <= i < spec_assemble(saved, resolved).len() ==> {
            let e = #[trigger] spec_assemble(saved, resolved)[i];
            &&& saved.contains(e.saved_feed)
            &&& e.saved_feed.kind == "timeline"@ ==> e.info == FeedSourceInfoView::Timeline(e.saved_feed.value)
            &&& e.saved_feed.kind != "timeline"@ ==> (e.saved_feed.kind == "feed"@ || e.saved_feed.kind == "list"@)
                && resolved.contains_key(e.saved_feed.value) && e.info == resolved[e.saved_feed.value]
        },
    decreases saved.len(),
{
    if saved.len() > 0 {
        let f = saved[0];
        let rest = saved.subrange(1, saved.len() as int);
        let out = spec_assemble(saved, resolved);
        if (f.kind == "feed"@ || f.kind == "list"@) && resolved.contains_key(f.value) {
            let m = resolved.remove(f.value);
            lemma_shown_feeds_resolved(rest, m);
            reveal_strlit("feed");
            reveal_strlit("list");
            reveal_strlit("timeline");
            assert(f.kind != "timeline"@) by {
                assert(f.kind.len() != "timeline"@.len());
            }
            assert forall|i: int| 0 <= i < out.len() implies {
                let e = #[trigger] out[i];
                &&& saved.contains(e.saved_feed)
                &&& e.saved_feed.kind == "timeline"@ ==> e.info == FeedSourceInfoView::Timeline(e.saved_feed.value)
                &&& e.saved_feed.kind != "timeline"@ ==> (e.saved_feed.kind == "feed"@ || e.saved_feed.kind == "list"@)
                    && resolved.contains_key(e.saved_feed.value) && e.info == resolved[e.saved_feed.value]
            } by {
                if i == 0 {
                    assert(saved[0] == f);
                } else {
                    let e = spec_assemble(rest, m)[i - 1];
                    assert(out[i] == e);
                    let j = choose|j: int| 0 <= j < rest.len() && rest[j] == e.saved_feed;
                    assert(saved[j + 1] == e.saved_feed);
                }
            }
        } else {
            let tl = f.kind == "timeline"@ && !(f.kind == "feed"@ || f.kind == "list"@);
            lemma_shown_feeds_resolved(rest, resolved);
            let k: int = if tl { 1 } else { 0 };
            assert forall|i: int| 0 <= i < out.len() implies {
                let e = #[trigger] out[i];
                &&& saved.contains(e.saved_feed)
                &&& e.saved_feed.kind == "timeline"@ ==> e.info == FeedSourceInfoView::Timeline(e.saved_feed.value)
                &&& e.saved_feed.kind != "timeline"@ ==> (e.saved_feed.kind == "feed"@ || e.saved_feed.kind == "list"@)
                    && resolved.contains_key(e.saved_feed.value) && e.info == resolved[e.saved_feed.value]
            } by {
                if i < k {
                    assert(saved[0] == f);
                } else {
                    let e = spec_assemble(rest, resolved)[i - k];
                    assert(out[i] == e);
                    let j = choose|j: int| 0 <= j < rest.len() && rest[j] == e.saved_feed;
                    assert(saved[j + 1] == e.saved_feed);
                }
            }
        }
    }
}

/// The pinned feeds to show, from the saved feeds and what their URIs
/// resolved to (see `spec_assemble`).
pub fn assemble_pinned_feeds(saved_feeds: &[SavedFeed], resolved: ResolvedSources) -> (r: Vec<PinnedFeed>)
    ensures
        pinned_views(r@) == spec_assemble(saved_views(saved_feeds@), resolved@),
{
    let mut resolved = resolved;
    let ghost initial = resolved@;
    let ghost all = saved_views(saved_feeds@);
    let mut r: Vec<PinnedFeed> = Vec::new();
    let mut i: usize = 0;
    assert(all.subrange(0, all.len() as int) =~= all);
    assert(pinned_views(r@) =~= Seq::<PinnedFeedView>::empty());
    while i < saved_feeds.len()
        invariant
            i <= saved_feeds@.len(),
            all == saved_views(saved_feeds@),
            pinned_views(r@) + spec_assemble(all.subrange(i as int, all.len() as int), resolved@)
                == spec_assemble(all, initial),
        decreases saved_feeds@.len() - i,
    {
        let f = &saved_feeds[i];
        let ghost before_r = pinned_views(r@);
        let ghost before_map = resolved@;
        let ghost rest = all.subrange(i as int, all.len() as int);
        proof {
            assert(rest[0] == f@);
            assert(rest.subrange(1, rest.len() as int) =~= all.subrange(i + 1, all.len() as int));
        }
        if str_equal(f.kind.as_str(), "feed") || str_equal(f.kind.as_str(), "list") {
            match resolved.remove(f.value.as_str()) {
                Some(info) => {
                    r.push(PinnedFeed { saved_feed: f.duplicate(), info });
                    proof {
                        assert(pinned_views(r@) =~= before_r.push(r@.last()@));
                        assert(seq![r@.last()@] + spec_assemble(all.subrange(i + 1, all.len() as int), resolved@)
                            == spec_assemble(rest, before_map));
                        assert(pinned_views(r@) + spec_assemble(all.subrange(i + 1, all.len() as int), resolved@)
                            =~= before_r + (seq![r@.last()@] + spec_assemble(all.subrange(i + 1, all.len() as int), resolved@)));
                    }
                },
                None => {
                    proof {
                        assert(resolved@ =~= before_map);
                        assert(spec_assemble(rest, before_map) == spec_assemble(all.subrange(i + 1, all.len() as int), before_map));
                    }
                },
            }
        } else if str_equal(f.kind.as_str(), "timeline") {
            r.push(PinnedFeed { saved_feed: f.duplicate(), info: FeedSourceInfo::Timeline(f.value.clone()) });
            proof {
                assert(pinned_views(r@) =~= before_r.push(r@.last()@));
                assert(pinned_views(r@) + spec_assemble(all.subrange(i + 1, all.len() as int), resolved@)
                    =~= before_r + (seq![r@.last()@] + spec_assemble(all.subrange(i + 1, all.len() as int), resolved@)));
            }
        } else {
            proof {
                assert(spec_assemble(rest, before_map) == spec_assemble(all.subrange(i + 1, all.len() as int), before_map));
            }
        }
        i = i + 1;
    }
    proof {
        assert(all.subrange(all.len() as int, all.len() as int) =~= Seq::<SavedFeedView>::empty());
        assert(pinned_views(r@) + Seq::<PinnedFeedView>::empty() =~= pinned_views(r@));
    }
    r
}
} // verus!
