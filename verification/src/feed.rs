use vstd::prelude::*;
use indexmap::IndexMap;

verus! {

/// Why a post appears in a feed although its author did not just post it.
#[derive(Clone, Copy, Debug, PartialEq, Eq, Structural)]
pub enum Reason {
    /// Reposted; `indexed_at` is when the repost was indexed (nanoseconds
    /// since the Unix epoch), so later reposts have larger values.
    Repost { indexed_at: i64 },
    /// Pinned by its author.
    Pin,
    /// A reason of a kind this client does not know.
    Other,
}

/// What a post embeds.
#[derive(Clone, Copy, Debug, PartialEq, Eq, Structural)]
pub enum EmbedKind {
    /// This many images.
    Images(usize),
    Video,
    External,
    /// A quoted record.
    Record,
    /// A quoted record together with images or other media.
    RecordWithMedia,
    Other,
}

/// The post a reply answers, as far as a feed tells it.
#[derive(Debug)]
pub enum ReplyParent {
    /// A visible post; `author_followed` tells whether the viewer follows its author.
    Post { author_did: String, author_followed: bool },
    NotFound,
    Blocked,
    Other,
}

/// The parts of a post that feed merging and filtering read. `source`
/// identifies, for the caller, the full post that these parts were taken
/// from.
#[derive(Debug)]
pub struct PostInfo {
    pub cid: String,
    pub author_did: String,
    pub like_count: Option<i64>,
    pub embed: Option<EmbedKind>,
    pub source: u64,
}

/// A post as a feed shows it, with why it is there and what it answers.
/// `source` identifies, for the caller, the feed item that the reason and
/// reply were taken from.
#[derive(Debug)]
pub struct FeedViewPost {
    pub post: PostInfo,
    pub reason: Option<Reason>,
    pub reply: Option<ReplyParent>,
    pub source: u64,
}

pub ghost enum ReplyParentView {
    Post { author_did: Seq<char>, author_followed: bool },
    NotFound,
    Blocked,
    Other,
}

pub ghost struct PostInfoView {
    pub cid: Seq<char>,
    pub author_did: Seq<char>,
    pub like_count: Option<i64>,
    pub embed: Option<EmbedKind>,
    pub source: u64,
}

pub ghost struct FeedViewPostView {
    pub post: PostInfoView,
    pub reason: Option<Reason>,
    pub reply: Option<ReplyParentView>,
    pub source: u64,
}

impl View for ReplyParent {
    type V = ReplyParentView;

    open spec fn view(&self) -> ReplyParentView {
        match self {
            ReplyParent::Post { author_did, author_followed } => ReplyParentView::Post {
                author_did: author_did@,
                author_followed: *author_followed,
            },
            ReplyParent::NotFound => ReplyParentView::NotFound,
            ReplyParent::Blocked => ReplyParentView::Blocked,
            ReplyParent::Other => ReplyParentView::Other,
        }
    }
}

impl View for PostInfo {
    type V = PostInfoView;

    open spec fn view(&self) -> PostInfoView {
        PostInfoView {
            cid: self.cid@,
            author_did: self.author_did@,
            like_count: self.like_count,
            embed: self.embed,
            source: self.source,
        }
    }
}

pub open spec fn reply_view(r: Option<ReplyParent>) -> Option<ReplyParentView> {
    match r {
        Some(p) => Some(p@),
        None => None,
    }
}

impl View for FeedViewPost {
    type V = FeedViewPostView;

    open spec fn view(&self) -> FeedViewPostView {
        FeedViewPostView {
            post: self.post@,
            reason: self.reason,
            reply: reply_view(self.reply),
            source: self.source,
        }
    }
}

impl ReplyParent {
    /// A copy of this value.
    pub fn duplicate(&self) -> (r: ReplyParent)
        ensures
            r@ == self@,
    {
        match self {
            ReplyParent::Post { author_did, author_followed } => ReplyParent::Post {
                author_did: author_did.clone(),
                author_followed: *author_followed,
            },
            ReplyParent::NotFound => ReplyParent::NotFound,
            ReplyParent::Blocked => ReplyParent::Blocked,
            ReplyParent::Other => ReplyParent::Other,
        }
    }
}

impl PostInfo {
    /// A copy of this value.
    pub fn duplicate(&self) -> (r: PostInfo)
        ensures
            r@ == self@,
    {
        PostInfo {
            cid: self.cid.clone(),
            author_did: self.author_did.clone(),
            like_count: self.like_count,
            embed: self.embed,
            source: self.source,
        }
    }
}

fn duplicate_reply(r: &Option<ReplyParent>) -> (c: Option<ReplyParent>)
    ensures
        reply_view(c) == reply_view(*r),
{
    match r {
        Some(p) => Some(p.duplicate()),
        None => None,
    }
}

impl FeedViewPost {
    /// A copy of this value.
    pub fn duplicate(&self) -> (r: FeedViewPost)
        ensures
            r@ == self@,
    {
        FeedViewPost {
            post: self.post.duplicate(),
            reason: self.reason,
            reply: duplicate_reply(&self.reply),
            source: self.source,
        }
    }
}

// ---------------------------------------------------------------------------
// Feed view preferences

/// How the following timeline is filtered.
#[derive(Clone, Copy, Debug, PartialEq, Eq, Structural)]
pub struct FeedViewPreference {
    pub hide_replies: bool,
    pub hide_replies_by_unfollowed: bool,
    pub hide_replies_by_like_count: i64,
    pub hide_reposts: bool,
    pub hide_quote_posts: bool,
}

impl FeedViewPreference {
    /// The preference used where none is set: only replies to unfollowed
    /// authors are hidden.
    pub fn default_preference() -> (r: FeedViewPreference)
        ensures
            r == (FeedViewPreference {
                hide_replies: false,
                hide_replies_by_unfollowed: true,
                hide_replies_by_like_count: 0,
                hide_reposts: false,
                hide_quote_posts: false,
            }),
    {
        FeedViewPreference {
            hide_replies: false,
            hide_replies_by_unfollowed: true,
            hide_replies_by_like_count: 0,
            hide_reposts: false,
            hide_quote_posts: false,
        }
    }
}

/// Whether a feed item stays in the following timeline under `pref`.
///
/// A repost stays unless reposts are hidden. A reply: with replies hidden,
/// or with fewer likes than the threshold, only a reply to the author's own
/// post stays; otherwise, with replies to unfollowed authors hidden, only a
/// reply to a followed author's post stays. A post that is neither, and
/// quotes a record, stays unless quote posts are hidden. Everything else stays.
pub open spec fn spec_filter_feed(p: FeedViewPostView, pref: FeedViewPreference) -> bool {
    if p.reason matches Some(Reason::Repost { .. }) {
        !pref.hide_reposts
    } else if p.reply is Some {
        let parent = p.reply->0;
        let is_self_reply = parent matches ReplyParentView::Post { author_did, .. } && author_did
            == p.post.author_did;
        let likes = match p.post.like_count {
            Some(n) => n as int,
            None => 0,
        };
        if pref.hide_replies {
            is_self_reply
        } else if likes < pref.hide_replies_by_like_count {
            is_self_reply
        } else if pref.hide_replies_by_unfollowed {
            parent matches ReplyParentView::Post { author_followed, .. } && author_followed
        } else {
            true
        }
    } else if p.post.embed matches Some(EmbedKind::Record) || p.post.embed matches Some(EmbedKind::RecordWithMedia) {
        !pref.hide_quote_posts
    } else {
        true
    }
}

/// The number of likes of a post, none counting as zero.
pub open spec fn likes_of(p: FeedViewPostView) -> int {
    match p.post.like_count {
        Some(n) => n as int,
        None => 0,
    }
}

/// A reply whose parent is a visible post by the replying author.
pub open spec fn replies_to_self(p: FeedViewPostView) -> bool {
    exists|followed: bool| p.reply == Some(ReplyParentView::Post { author_did: p.post.author_did, author_followed: followed })
}

/// A reply whose parent is a visible post by an author the viewer follows.
pub open spec fn replies_to_followed(p: FeedViewPostView) -> bool {
    exists|did: Seq<char>| p.reply == Some(ReplyParentView::Post { author_did: did, author_followed: true })
}

/// Reposts are kept or dropped as a whole by the repost preference, whatever
/// else the item is.
pub proof fn lemma_filter_reposts(p: FeedViewPostView, pref: FeedViewPreference, at: i64)
    requires
        p.reason == Some(Reason::Repost { indexed_at: at }),
    ensures
        spec_filter_feed(p, pref) == !pref.hide_reposts,
{
}

/// The reply rules, for an item that is a reply and not a repost: with
/// replies hidden, or below the like threshold, only a reply to one's own
/// post stays; past them, with replies to unfollowed authors hidden, a reply
/// stays exactly when its parent is a visible post by a followed author;
/// with none of these rules, every reply stays.
pub proof fn lemma_filter_replies(p: FeedViewPostView, pref: FeedViewPreference)
    requires
        !(p.reason matches Some(Reason::Repost { .. })),
        p.reply is Some,
    ensures
        pref.hide_replies ==> (spec_filter_feed(p, pref) <==> replies_to_self(p)),
        likes_of(p) < pref.hide_replies_by_like_count ==> (spec_filter_feed(p, pref) <==> replies_to_self(p)),
        !pref.hide_replies && likes_of(p) >= pref.hide_replies_by_like_count && pref.hide_replies_by_unfollowed
            ==> (spec_filter_feed(p, pref) <==> replies_to_followed(p)),
        !pref.hide_replies && likes_of(p) >= pref.hide_replies_by_like_count && !pref.hide_replies_by_unfollowed
            ==> spec_filter_feed(p, pref),
{
    let parent = p.reply->0;
    match parent {
        ReplyParentView::Post { author_did, author_followed } => {
            assert(p.reply == Some(ReplyParentView::Post { author_did, author_followed }));
            if author_did == p.post.author_did {
                assert(replies_to_self(p));
            }
            if author_followed {
                assert(replies_to_followed(p));
            }
        },
        _ => {},
    }
}

/// Under the default preference, a reply (not a repost) to a post whose
/// author the viewer does not follow is hidden, and one to a followed
/// author's post is shown.
pub proof fn lemma_filter_default_unfollowed(p: FeedViewPostView, did: Seq<char>, followed: bool)
    requires
        !(p.reason matches Some(Reason::Repost { .. })),
        p.reply == Some(ReplyParentView::Post { author_did: did, author_followed: followed }),
        p.post.like_count matches Some(n) ==> n >= 0,
    ensures
        spec_filter_feed(p, FeedViewPreference {
            hide_replies: false,
            hide_replies_by_unfollowed: true,
            hide_replies_by_like_count: 0,
            hide_reposts: false,
            hide_quote_posts: false,
        }) == followed,
{
    let pref = FeedViewPreference {
        hide_replies: false,
        hide_replies_by_unfollowed: true,
        hide_replies_by_like_count: 0,
        hide_reposts: false,
        hide_quote_posts: false,
    };
    lemma_filter_replies(p, pref);
    if followed {
        assert(replies_to_followed(p));
    }
}

/// A post that is neither a repost nor a reply stays, unless it quotes a
/// record and quote posts are hidden.
pub proof fn lemma_filter_posts(p: FeedViewPostView, pref: FeedViewPreference)
    requires
        !(p.reason matches Some(Reason::Repost { .. })),
        p.reply is None,
    ensures
        spec_filter_feed(p, pref) == !(pref.hide_quote_posts && (p.post.embed == Some(EmbedKind::Record)
            || p.post.embed == Some(EmbedKind::RecordWithMedia))),
{
}

/// Whether a feed item stays in the following timeline (see `spec_filter_feed`).
pub fn filter_feed(p: &FeedViewPost, pref: &FeedViewPreference) -> (r: bool)
    ensures
        r == spec_filter_feed(p@, *pref),
{
    if let Some(Reason::Repost { .. }) = p.reason {
        return !pref.hide_reposts;
    }
    if let Some(parent) = &p.reply {
        let is_self_reply = match parent {
            ReplyParent::Post { author_did, .. } => *author_did == p.post.author_did,
            _ => false,
        };
        let likes: i64 = match p.post.like_count {
            Some(n) => n,
            None => 0,
        };
        if pref.hide_replies {
            return is_self_reply;
        }
        if likes < pref.hide_replies_by_like_count {
            return is_self_reply;
        }
        if pref.hide_replies_by_unfollowed {
            return match parent {
                ReplyParent::Post { author_followed, .. } => *author_followed,
                _ => false,
            };
        }
        return true;
    }
    match p.post.embed {
        Some(EmbedKind::Record) | Some(EmbedKind::RecordWithMedia) => !pref.hide_quote_posts,
        _ => true,
    }
}


// ---------------------------------------------------------------------------
// The ordered map of feed items, kept across refreshes

#[verifier::external_type_specification]
#[verifier::external_body]
#[verifier::reject_recursive_types(K)]
#[verifier::reject_recursive_types(V)]
#[verifier::reject_recursive_types(S)]
pub struct ExIndexMap<K, V, S>(IndexMap<K, V, S>);

/// The entries of an insertion-ordered map from post CIDs to feed items, in
/// order, each key by its characters.
pub uninterp spec fn feed_map_entries(m: IndexMap<String, FeedViewPost>) -> Seq<(Seq<char>, FeedViewPost)>;

/// Position of the first entry with key `key`.
pub open spec fn entry_index(entries: Seq<(Seq<char>, FeedViewPost)>, key: Seq<char>) -> Option<int> {
    if exists|i: int| 0 <= i < entries.len() && entries[i].0 == key {
        Some(choose|i: int| 0 <= i < entries.len() && entries[i].0 == key && forall|j: int| 0 <= j < i ==> entries[j].0 != key)
    } else {
        None
    }
}

/// `s` without position `i`, the last element taking its place.
pub open spec fn swap_remove_at<T>(s: Seq<T>, i: int) -> Seq<T> {
    if i == s.len() - 1 {
        s.drop_last()
    } else {
        s.update(i, s.last()).drop_last()
    }
}

/// `IndexMap::new`: a map with no entries.
#[verifier::external_body]
fn feed_map_new() -> (m: IndexMap<String, FeedViewPost>)
    ensures
        feed_map_entries(m) == Seq::<(Seq<char>, FeedViewPost)>::empty(),
{
    IndexMap::new()
}

/// `IndexMap::len`: the number of entries.
#[verifier::external_body]
fn feed_map_len(m: &IndexMap<String, FeedViewPost>) -> (n: usize)
    ensures
        n == feed_map_entries(*m).len(),
{
    m.len()
}

/// `IndexMap::get_index_of`: the position of the entry with key `key`.
#[verifier::external_body]
fn feed_map_index_of(m: &IndexMap<String, FeedViewPost>, key: &str) -> (r: Option<usize>)
    ensures
        r matches Some(i) ==> entry_index(feed_map_entries(*m), key@) == Some(i as int),
        r is None ==> entry_index(feed_map_entries(*m), key@) is None,
{
    m.get_index_of(key)
}

/// `IndexMap::get_index`: the value at position `i`.
#[verifier::external_body]
fn feed_map_value_at(m: &IndexMap<String, FeedViewPost>, i: usize) -> (r: &FeedViewPost)
    requires
        i < feed_map_entries(*m).len(),
    ensures
        *r == feed_map_entries(*m)[i as int].1,
{
    m.get_index(i).unwrap().1
}

/// `IndexMap::insert`: where an entry has the key, its value is replaced in
/// place and the old value returned; otherwise the entry is added last.
#[verifier::external_body]
fn feed_map_insert(m: &mut IndexMap<String, FeedViewPost>, key: String, value: FeedViewPost) -> (r: Option<FeedViewPost>)
    ensures
        match entry_index(feed_map_entries(*old(m)), key@) {
            Some(i) => {
                &&& feed_map_entries(*final(m)) == feed_map_entries(*old(m)).update(i, (feed_map_entries(*old(m))[i].0, value))
                &&& r == Some(feed_map_entries(*old(m))[i].1)
            },
            None => {
                &&& feed_map_entries(*final(m)) == feed_map_entries(*old(m)).push((key@, value))
                &&& r is None
            },
        },
{
    m.insert(key, value)
}

/// `IndexMap::swap_remove`: the entry with the key is removed, the last entry
/// taking its position, and its value returned.
#[verifier::external_body]
fn feed_map_swap_remove(m: &mut IndexMap<String, FeedViewPost>, key: &str) -> (r: Option<FeedViewPost>)
    ensures
        match entry_index(feed_map_entries(*old(m)), key@) {
            Some(i) => {
                &&& feed_map_entries(*final(m)) == swap_remove_at(feed_map_entries(*old(m)), i)
                &&& r == Some(feed_map_entries(*old(m))[i].1)
            },
            None => {
                &&& feed_map_entries(*final(m)) == feed_map_entries(*old(m))
                &&& r is None
            },
        },
{
    m.swap_remove(key)
}

/// Position of the first item whose post has CID `cid`.
pub open spec fn cid_index(s: Seq<FeedViewPostView>, cid: Seq<char>) -> Option<int> {
    if exists|i: int| 0 <= i < s.len() && s[i].post.cid == cid {
        Some(choose|i: int| 0 <= i < s.len() && s[i].post.cid == cid && forall|j: int| 0 <= j < i ==> s[j].post.cid != cid)
    } else {
        None
    }
}

/// No two items share a post CID.
pub open spec fn distinct_cids(s: Seq<FeedViewPostView>) -> bool {
    forall|i: int, j: int| 0 <= i < s.len() && 0 <= j < s.len() && i != j ==> s[i].post.cid != s[j].post.cid
}

/// Items kept from earlier refreshes, in display order, each post at most once.
pub struct FeedMap {
    map: IndexMap<String, FeedViewPost>,
}

impl FeedMap {
    #[verifier::type_invariant]
    spec fn keyed_by_cid(self) -> bool {
        &&& forall|i: int| 0 <= i < feed_map_entries(self.map).len() ==> #[trigger] feed_map_entries(self.map)[i].0 == feed_map_entries(self.map)[i].1.post.cid@
        &&& distinct_cids(self@)
    }

    /// The kept items, in order.
    pub closed spec fn view(self) -> Seq<FeedViewPostView> {
        feed_map_entries(self.map).map_values(|e: (Seq<char>, FeedViewPost)| e.1@)
    }

    /// No items.
    pub fn new() -> (r: FeedMap)
        ensures
            r@ == Seq::<FeedViewPostView>::empty(),
    {
        let r = FeedMap { map: feed_map_new() };
        assert(r@ =~= Seq::<FeedViewPostView>::empty());
        r
    }

    /// The number of kept items.
    pub fn len(&self) -> (n: usize)
        ensures
            n == self@.len(),
    {
        feed_map_len(&self.map)
    }

    /// The kept item at position `i`.
    pub fn get(&self, i: usize) -> (r: &FeedViewPost)
        requires
            i < self@.len(),
        ensures
            r@ == self@[i as int],
    {
        feed_map_value_at(&self.map, i)
    }
}


/// Whether an incoming item brings a newer repost of a post already kept
/// with reason `current`: a later repost than the kept one, or a repost (or
/// other reason) of a post kept without one.
pub open spec fn is_newer_repost(current: Option<Reason>, next: Option<Reason>) -> bool {
    match (current, next) {
        (Some(Reason::Repost { indexed_at: a }), Some(Reason::Repost { indexed_at: b })) => a < b,
        (None, Some(_)) => true,
        _ => false,
    }
}

fn newer_repost(current: &Option<Reason>, next: &Option<Reason>) -> (r: bool)
    ensures
        r == is_newer_repost(*current, *next),
{
    match (current, next) {
        (Some(Reason::Repost { indexed_at: a }), Some(Reason::Repost { indexed_at: b })) => *a < *b,
        (None, Some(_)) => true,
        _ => false,
    }
}

/// One incoming item merged into the kept items. An item for a post not kept
/// yet is added last. An item that brings a newer repost of a kept post
/// replaces it: the kept one is removed (the last kept item takes its place)
/// and the new one added last. Otherwise the kept item keeps its place, its
/// reason and its reply, and takes the incoming post.
pub open spec fn feed_step(s: Seq<FeedViewPostView>, p: FeedViewPostView) -> Seq<FeedViewPostView> {
    match cid_index(s, p.post.cid) {
        Some(i) => if is_newer_repost(s[i].reason, p.reason) {
            swap_remove_at(s, i).push(p)
        } else {
            s.update(i, FeedViewPostView { post: p.post, ..s[i] })
        },
        None => s.push(p),
    }
}

/// The incoming items merged into the kept items one after another, in order.
pub open spec fn spec_update_feeds(s: Seq<FeedViewPostView>, feed: Seq<FeedViewPostView>) -> Seq<FeedViewPostView>
    decreases feed.len(),
{
    if feed.len() == 0 {
        s
    } else {
        feed_step(spec_update_feeds(s, feed.drop_last()), feed.last())
    }
}

pub open spec fn entry_views(entries: Seq<(Seq<char>, FeedViewPost)>) -> Seq<FeedViewPostView> {
    entries.map_values(|e: (Seq<char>, FeedViewPost)| e.1@)
}

pub open spec fn keyed(entries: Seq<(Seq<char>, FeedViewPost)>) -> bool {
    forall|i: int| 0 <= i < entries.len() ==> #[trigger] entries[i].0 == entries[i].1.post.cid@
}

proof fn lemma_least_cid(s: Seq<FeedViewPostView>, cid: Seq<char>, n: int)
    requires
        0 <= n <= s.len(),
        exists|i: int| 0 <= i < n && s[i].post.cid == cid,
    ensures
        exists|i: int| 0 <= i < s.len() && s[i].post.cid == cid && forall|j: int| 0 <= j < i ==> s[j].post.cid != cid,
    decreases n,
{
    if exists|i: int| 0 <= i < n - 1 && s[i].post.cid == cid {
        lemma_least_cid(s, cid, n - 1);
    } else {
        assert(s[n - 1].post.cid == cid);
    }
}

proof fn lemma_least_key(e: Seq<(Seq<char>, FeedViewPost)>, key: Seq<char>, n: int)
    requires
        0 <= n <= e.len(),
        exists|i: int| 0 <= i < n && e[i].0 == key,
    ensures
        exists|i: int| 0 <= i < e.len() && e[i].0 == key && forall|j: int| 0 <= j < i ==> e[j].0 != key,
    decreases n,
{
    if exists|i: int| 0 <= i < n - 1 && e[i].0 == key {
        lemma_least_key(e, key, n - 1);
    } else {
        assert(e[n - 1].0 == key);
    }
}

proof fn lemma_cid_index(s: Seq<FeedViewPostView>, cid: Seq<char>)
    ensures
        cid_index(s, cid) matches Some(i) ==> 0 <= i < s.len() && s[i].post.cid == cid
            && forall|j: int| 0 <= j < i ==> s[j].post.cid != cid,
        cid_index(s, cid) is None ==> forall|j: int| 0 <= j < s.len() ==> s[j].post.cid != cid,
{
    if exists|i: int| 0 <= i < s.len() && s[i].post.cid == cid {
        lemma_least_cid(s, cid, s.len() as int);
    }
}

proof fn lemma_index_agrees(entries: Seq<(Seq<char>, FeedViewPost)>, key: Seq<char>)
    requires
        keyed(entries),
    ensures
        entry_index(entries, key) == cid_index(entry_views(entries), key),
{
    let v = entry_views(entries);
    lemma_cid_index(v, key);
    if exists|i: int| 0 <= i < entries.len() && entries[i].0 == key {
        lemma_least_key(entries, key, entries.len() as int);
        let a = entry_index(entries, key)->0;
        assert(entries[a].0 == key);
        assert(v[a].post.cid == entries[a].0);
        let b = cid_index(v, key)->0;
        if a < b {
            assert(v[a].post.cid == key);
        } else if b < a {
            assert(entries[b].0 == v[b].post.cid);
        }
    } else {
        assert forall|i: int| 0 <= i < v.len() implies v[i].post.cid != key by {
            assert(entries[i].0 == v[i].post.cid);
        }
    }
}


proof fn lemma_step_keeps_distinct(s: Seq<FeedViewPostView>, p: FeedViewPostView)
    requires
        distinct_cids(s),
    ensures
        distinct_cids(feed_step(s, p)),
{
    lemma_cid_index(s, p.post.cid);
    let r = feed_step(s, p);
    match cid_index(s, p.post.cid) {
        Some(i) => {
            if is_newer_repost(s[i].reason, p.reason) {
                let t = swap_remove_at(s, i);
                assert forall|a: int, b: int| 0 <= a < r.len() && 0 <= b < r.len() && a != b implies r[a].post.cid != r[b].post.cid by {
                    // every kept item other than the removed one is an item of s at another position
                    if a < t.len() && b < t.len() {
                        let ia = if a == i && i != s.len() - 1 { s.len() - 1 } else { a };
                        let ib = if b == i && i != s.len() - 1 { s.len() - 1 } else { b };
                        assert(t[a] == s[ia]);
                        assert(t[b] == s[ib]);
                    } else if a < t.len() {
                        let ia = if a == i && i != s.len() - 1 { s.len() - 1 } else { a };
                        assert(t[a] == s[ia]);
                        assert(ia != i);
                    } else {
                        let ib = if b == i && i != s.len() - 1 { s.len() - 1 } else { b };
                        assert(t[b] == s[ib]);
                        assert(ib != i);
                    }
                }
            } else {
                assert forall|a: int, b: int| 0 <= a < r.len() && 0 <= b < r.len() && a != b implies r[a].post.cid != r[b].post.cid by {
                    assert(r[a].post.cid == s[a].post.cid);
                    assert(r[b].post.cid == s[b].post.cid);
                }
            }
        },
        None => {},
    }
}

impl FeedMap {
    /// Merges one incoming item into the kept items (see `feed_step`).
    #[verifier::rlimit(80)]
    pub fn merge_item(&mut self, p: &FeedViewPost)
        ensures
            final(self)@ == feed_step(old(self)@, p@),
    {
        proof {
            use_type_invariant(&*self);
        }
        let mut taken = FeedMap { map: feed_map_new() };
        std::mem::swap(&mut taken, self);
        let FeedMap { map: mut map } = taken;
        let ghost e0 = feed_map_entries(map);
        let ghost s0 = entry_views(e0);
        proof {
            lemma_index_agrees(e0, p.post.cid@);
            lemma_cid_index(s0, p.post.cid@);
            lemma_step_keeps_distinct(s0, p@);
        }
        match feed_map_index_of(&map, p.post.cid.as_str()) {
            Some(i) => {
                let current = feed_map_value_at(&map, i);
                if newer_repost(&current.reason, &p.reason) {
                    feed_map_swap_remove(&mut map, p.post.cid.as_str());
                    let ghost e1 = feed_map_entries(map);
                    proof {
                        assert(entry_views(e1) =~= swap_remove_at(s0, i as int));
                        assert(keyed(e1)) by {
                            assert forall|k: int| 0 <= k < e1.len() implies #[trigger] e1[k].0 == e1[k].1.post.cid@ by {
                                if k == i && i != e0.len() - 1 {
                                    assert(e1[k] == e0[e0.len() - 1]);
                                } else {
                                    assert(e1[k] == e0[k]);
                                }
                            }
                        }
                        lemma_index_agrees(e1, p.post.cid@);
                        lemma_cid_index(entry_views(e1), p.post.cid@);
                        assert(cid_index(entry_views(e1), p.post.cid@) is None) by {
                            if let Some(k) = cid_index(entry_views(e1), p.post.cid@) {
                                if k == i && i != e0.len() - 1 {
                                    assert(entry_views(e1)[k] == s0[e0.len() - 1]);
                                } else {
                                    assert(entry_views(e1)[k] == s0[k]);
                                }
                            }
                        }
                    }
                    feed_map_insert(&mut map, p.post.cid.clone(), p.duplicate());
                    proof {
                        let e2 = feed_map_entries(map);
                        assert(entry_views(e2) =~= swap_remove_at(s0, i as int).push(p@));
                        assert forall|k: int| 0 <= k < e2.len() implies #[trigger] e2[k].0 == e2[k].1.post.cid@ by {
                            if k < e1.len() {
                                assert(e2[k] == e1[k]);
                            }
                        }
                    }
                } else {
                    let merged = FeedViewPost {
                        post: p.post.duplicate(),
                        reason: current.reason,
                        reply: duplicate_reply(&current.reply),
                        source: current.source,
                    };
                    feed_map_insert(&mut map, p.post.cid.clone(), merged);
                    proof {
                        let e2 = feed_map_entries(map);
                        assert(entry_views(e2) =~= s0.update(i as int, FeedViewPostView { post: p@.post, ..s0[i as int] }));
                        assert forall|k: int| 0 <= k < e2.len() implies #[trigger] e2[k].0 == e2[k].1.post.cid@ by {
                            if k != i {
                                assert(e2[k] == e0[k]);
                            }
                        }
                    }
                }
            },
            None => {
                feed_map_insert(&mut map, p.post.cid.clone(), p.duplicate());
                proof {
                    let e2 = feed_map_entries(map);
                    assert(entry_views(e2) =~= s0.push(p@));
                    assert forall|k: int| 0 <= k < e2.len() implies #[trigger] e2[k].0 == e2[k].1.post.cid@ by {
                        if k < e0.len() {
                            assert(e2[k] == e0[k]);
                        }
                    }
                }
            },
        }
        *self = FeedMap { map };
    }
}


/// The views of a list of feed items.
pub open spec fn item_views(s: Seq<FeedViewPost>) -> Seq<FeedViewPostView> {
    s.map_values(|p: FeedViewPost| p@)
}

/// Merges the incoming items, in order, into the kept items (see
/// `spec_update_feeds`).
pub fn update_feeds(feed: &[FeedViewPost], feed_map: &mut FeedMap)
    ensures
        final(feed_map)@ == spec_update_feeds(old(feed_map)@, item_views(feed@)),
{
    let mut i: usize = 0;
    while i < feed.len()
        invariant
            i <= feed@.len(),
            feed_map@ == spec_update_feeds(old(feed_map)@, item_views(feed@).take(i as int)),
        decreases feed@.len() - i,
    {
        feed_map.merge_item(&feed[i]);
        proof {
            let t = item_views(feed@).take(i + 1);
            assert(t.drop_last() =~= item_views(feed@).take(i as int));
            assert(t.last() == feed@[i as int]@);
        }
        i = i + 1;
    }
    assert(item_views(feed@).take(feed@.len() as int) =~= item_views(feed@));
}

/// A refresh of a feed: the fetched items (newest first) are merged into the
/// kept items oldest first, and the kept items are returned newest first.
pub fn merge_feed(feed: Vec<FeedViewPost>, feed_map: &mut FeedMap) -> (r: Vec<FeedViewPost>)
    ensures
        final(feed_map)@ == spec_update_feeds(old(feed_map)@, item_views(feed@).reverse()),
        item_views(r@) == final(feed_map)@.reverse(),
{
    let mut feed = feed;
    let ghost fetched = item_views(feed@);
    let mut oldest_first: Vec<FeedViewPost> = Vec::new();
    while feed.len() > 0
        invariant
            item_views(oldest_first@) + item_views(feed@).reverse() =~= fetched.reverse(),
        decreases feed@.len(),
    {
        let ghost before = feed@;
        let p = feed.pop().unwrap();
        proof {
            assert(before =~= feed@.push(p));
            assert(item_views(before) =~= item_views(feed@).push(p@));
            assert(item_views(before).reverse() =~= seq![p@] + item_views(feed@).reverse());
        }
        oldest_first.push(p);
        proof {
            assert(item_views(oldest_first@) =~= item_views(oldest_first@).drop_last().push(p@));
        }
    }
    assert(item_views(oldest_first@) =~= fetched.reverse());
    update_feeds(oldest_first.as_slice(), feed_map);
    let mut r: Vec<FeedViewPost> = Vec::new();
    let mut i: usize = feed_map.len();
    while i > 0
        invariant
            i <= feed_map@.len(),
            item_views(r@) =~= feed_map@.subrange(i as int, feed_map@.len() as int).reverse(),
        decreases i,
    {
        i = i - 1;
        let item = feed_map.get(i).duplicate();
        r.push(item);
        proof {
            assert(feed_map@.subrange(i as int, feed_map@.len() as int).reverse() =~= feed_map@.subrange(
                i + 1,
                feed_map@.len() as int,
            ).reverse().push(feed_map@[i as int]));
        }
    }
    assert(feed_map@.subrange(0, feed_map@.len() as int) =~= feed_map@);
    r
}

/// The items whose moderation decision does not filter them out, in order.
pub open spec fn unfiltered(s: Seq<FeedViewPostView>, filtered: Seq<bool>) -> Seq<FeedViewPostView>
    decreases s.len(),
{
    if s.len() == 0 || filtered.len() == 0 {
        Seq::empty()
    } else if filtered.last() {
        unfiltered(s.drop_last(), filtered.drop_last())
    } else {
        unfiltered(s.drop_last(), filtered.drop_last()).push(s.last())
    }
}

/// Keeps the items that moderation does not filter out of a content list
/// (`filtered[i]` is the decision for `items[i]`), in order.
pub fn retain_unfiltered(items: Vec<FeedViewPost>, filtered: &Vec<bool>) -> (r: Vec<FeedViewPost>)
    requires
        filtered@.len() == items@.len(),
    ensures
        item_views(r@) == unfiltered(item_views(items@), filtered@),
{
    let mut items = items;
    let ghost all = item_views(items@);
    let mut kept_rev: Vec<FeedViewPost> = Vec::new();
    let mut n: usize = items.len();
    assert(all.take(n as int) =~= all);
    assert(filtered@.take(n as int) =~= filtered@);
    while n > 0
        invariant
            n == items@.len(),
            n <= filtered@.len(),
            filtered@.len() == all.len(),
            item_views(items@) == all.take(n as int),
            unfiltered(all, filtered@) =~= unfiltered(all.take(n as int), filtered@.take(n as int)) + item_views(kept_rev@).reverse(),
        decreases n,
    {
        let ghost before = kept_rev@;
        let item = items.pop().unwrap();
        proof {
            assert(all.take(n as int).drop_last() =~= all.take(n - 1));
            assert(filtered@.take(n as int).drop_last() =~= filtered@.take(n - 1));
            assert(all.take(n as int).last() == item@);
            assert(filtered@.take(n as int).last() == filtered@[n - 1]);
            assert(item_views(items@) =~= all.take(n - 1));
        }
        if !filtered[n - 1] {
            kept_rev.push(item);
            proof {
                assert(item_views(kept_rev@).reverse() =~= seq![item@] + item_views(before).reverse());
            }
        }
        n = n - 1;
    }
    let mut r: Vec<FeedViewPost> = Vec::new();
    let ghost rev = item_views(kept_rev@);
    while kept_rev.len() > 0
        invariant
            item_views(r@) + item_views(kept_rev@).reverse() =~= rev.reverse(),
        decreases kept_rev@.len(),
    {
        let ghost b = kept_rev@;
        let x = kept_rev.pop().unwrap();
        proof {
            assert(item_views(b).reverse() =~= seq![x@] + item_views(kept_rev@).reverse());
        }
        r.push(x);
        proof {
            assert(item_views(r@) =~= item_views(r@.drop_last()).push(x@));
        }
    }
    proof {
        assert(all.take(0) =~= Seq::<FeedViewPostView>::empty());
        assert(item_views(kept_rev@).reverse() =~= Seq::<FeedViewPostView>::empty());
    }
    r
}

/// The items that stay under `pref` (see `spec_filter_feed`), in order.
pub open spec fn filter_items(s: Seq<FeedViewPostView>, pref: FeedViewPreference) -> Seq<FeedViewPostView>
    decreases s.len(),
{
    if s.len() == 0 {
        s
    } else if spec_filter_feed(s.last(), pref) {
        filter_items(s.drop_last(), pref).push(s.last())
    } else {
        filter_items(s.drop_last(), pref)
    }
}

/// Items of the following timeline are filtered by the home feed preference,
/// or by the default preference where none is set; items of other feeds are
/// all kept.
pub fn apply_home_preference(items: Vec<FeedViewPost>, is_timeline: bool, home: Option<FeedViewPreference>) -> (r: Vec<FeedViewPost>)
    ensures
        !is_timeline ==> item_views(r@) == item_views(items@),
        is_timeline ==> item_views(r@) == filter_items(item_views(items@), match home {
            Some(p) => p,
            None => FeedViewPreference {
                hide_replies: false,
                hide_replies_by_unfollowed: true,
                hide_replies_by_like_count: 0,
                hide_reposts: false,
                hide_quote_posts: false,
            },
        }),
{
    if !is_timeline {
        return items;
    }
    let pref = match home {
        Some(p) => p,
        None => FeedViewPreference::default_preference(),
    };
    let mut items = items;
    let ghost all = item_views(items@);
    // taken from the back, so the kept items are collected newest last
    let mut kept_rev: Vec<FeedViewPost> = Vec::new();
    let mut n: usize = items.len();
    assert(all.take(n as int) =~= all);
    while n > 0
        invariant
            n == items@.len(),
            n <= all.len(),
            item_views(items@) == all.take(n as int),
            filter_items(all, pref) =~= filter_items(all.take(n as int), pref) + item_views(kept_rev@).reverse(),
        decreases n,
    {
        let p = items.pop().unwrap();
        proof {
            let t = all.take(n as int);
            assert(t.drop_last() =~= all.take(n - 1));
            assert(t.last() == p@);
        }
        n = n - 1;
        if filter_feed(&p, &pref) {
            let ghost prev = kept_rev@;
            kept_rev.push(p);
            proof {
                assert(item_views(kept_rev@) =~= item_views(prev).push(kept_rev@.last()@));
                assert(item_views(kept_rev@).reverse() =~= seq![kept_rev@.last()@] + item_views(prev).reverse());
            }
        }
    }
    let mut r: Vec<FeedViewPost> = Vec::new();
    while kept_rev.len() > 0
        invariant
            filter_items(all, pref) =~= item_views(r@) + item_views(kept_rev@).reverse(),
        decreases kept_rev@.len(),
    {
        let ghost before = kept_rev@;
        let p = kept_rev.pop().unwrap();
        proof {
            assert(before =~= kept_rev@.push(p));
            assert(item_views(before) =~= item_views(kept_rev@).push(p@));
            assert(item_views(before).reverse() =~= seq![p@] + item_views(kept_rev@).reverse());
        }
        let ghost prev = r@;
        r.push(p);
        proof {
            assert(item_views(r@) =~= item_views(prev).push(p@));
        }
    }
    assert(all.take(0) =~= Seq::<FeedViewPostView>::empty());
    r
}

// ---------------------------------------------------------------------------
// Laws of feed merging

/// The CIDs of the posts of some items.
pub open spec fn cid_set(s: Seq<FeedViewPostView>) -> Set<Seq<char>> {
    Set::new(|c: Seq<char>| exists|i: int| 0 <= i < s.len() && s[i].post.cid == c)
}

proof fn lemma_step_keeps_other(s: Seq<FeedViewPostView>, p: FeedViewPostView, x: FeedViewPostView)
    requires
        s.contains(x),
        x.post.cid != p.post.cid,
    ensures
        feed_step(s, p).contains(x),
{
    lemma_cid_index(s, p.post.cid);
    let j = choose|j: int| 0 <= j < s.len() && s[j] == x;
    let r = feed_step(s, p);
    match cid_index(s, p.post.cid) {
        Some(i) => {
            assert(j != i);
            if is_newer_repost(s[i].reason, p.reason) {
                let t = swap_remove_at(s, i);
                if i == s.len() - 1 {
                    assert(r[j] == x);
                } else if j == s.len() - 1 {
                    assert(r[i] == x);
                } else {
                    assert(r[j] == x);
                }
            } else {
                assert(r[j] == x);
            }
        },
        None => {
            assert(r[j] == x);
        },
    }
}

proof fn lemma_step_holds_incoming(s: Seq<FeedViewPostView>, p: FeedViewPostView)
    ensures
        exists|y: FeedViewPostView| #[trigger] feed_step(s, p).contains(y) && y.post == p.post
            && !is_newer_repost(y.reason, p.reason),
{
    lemma_cid_index(s, p.post.cid);
    let r = feed_step(s, p);
    match cid_index(s, p.post.cid) {
        Some(i) => {
            if is_newer_repost(s[i].reason, p.reason) {
                assert(r[r.len() - 1] == p);
                assert(r.contains(p));
            } else {
                assert(r[i].post == p.post);
                assert(r.contains(r[i]));
            }
        },
        None => {
            assert(r[r.len() - 1] == p);
            assert(r.contains(p));
        },
    }
}

proof fn lemma_step_cid_set(s: Seq<FeedViewPostView>, p: FeedViewPostView)
    ensures
        cid_set(feed_step(s, p)) == cid_set(s).insert(p.post.cid),
{
    lemma_cid_index(s, p.post.cid);
    let r = feed_step(s, p);
    assert forall|c: Seq<char>| cid_set(r).contains(c) <==> cid_set(s).insert(p.post.cid).contains(c) by {
        if c == p.post.cid {
            lemma_step_holds_incoming(s, p);
            let y = choose|y: FeedViewPostView| #[trigger] r.contains(y) && y.post == p.post
                && !is_newer_repost(y.reason, p.reason);
            let k = choose|k: int| 0 <= k < r.len() && r[k] == y;
            assert(r[k].post.cid == c);
        } else {
            if cid_set(s).contains(c) {
                let j = choose|j: int| 0 <= j < s.len() && s[j].post.cid == c;
                assert(s.contains(s[j]));
                lemma_step_keeps_other(s, p, s[j]);
                let k = choose|k: int| 0 <= k < r.len() && r[k] == s[j];
                assert(r[k].post.cid == c);
            }
            if cid_set(r).contains(c) {
                let k = choose|k: int| 0 <= k < r.len() && r[k].post.cid == c;
                match cid_index(s, p.post.cid) {
                    Some(i) => {
                        if is_newer_repost(s[i].reason, p.reason) {
                            if k < r.len() - 1 {
                                if k == i && i != s.len() - 1 {
                                    assert(r[k] == s[s.len() - 1]);
                                } else {
                                    assert(r[k] == s[k]);
                                }
                            }
                        } else {
                            assert(r[k].post.cid == s[k].post.cid);
                        }
                    },
                    None => {
                        if k < s.len() {
                            assert(r[k] == s[k]);
                        }
                    },
                }
            }
        }
    }
    assert(cid_set(r) =~= cid_set(s).insert(p.post.cid));
}

/// Merging keeps the kept items free of duplicate posts.
pub proof fn lemma_update_feeds_distinct(s: Seq<FeedViewPostView>, feed: Seq<FeedViewPostView>)
    requires
        distinct_cids(s),
    ensures
        distinct_cids(spec_update_feeds(s, feed)),
    decreases feed.len(),
{
    if feed.len() > 0 {
        lemma_update_feeds_distinct(s, feed.drop_last());
        lemma_step_keeps_distinct(spec_update_feeds(s, feed.drop_last()), feed.last());
    }
}

/// After merging, the posts kept are exactly those kept before together with
/// those fetched.
pub proof fn lemma_update_feeds_posts(s: Seq<FeedViewPostView>, feed: Seq<FeedViewPostView>)
    ensures
        cid_set(spec_update_feeds(s, feed)) == cid_set(s).union(cid_set(feed)),
    decreases feed.len(),
{
    if feed.len() == 0 {
        assert(cid_set(feed) =~= Set::<Seq<char>>::empty());
        assert(cid_set(s).union(cid_set(feed)) =~= cid_set(s));
    } else {
        lemma_update_feeds_posts(s, feed.drop_last());
        lemma_step_cid_set(spec_update_feeds(s, feed.drop_last()), feed.last());
        assert forall|c: Seq<char>| cid_set(feed).contains(c) <==> cid_set(feed.drop_last()).insert(feed.last().post.cid).contains(c) by {
            if cid_set(feed).contains(c) {
                let i = choose|i: int| 0 <= i < feed.len() && feed[i].post.cid == c;
                if i < feed.len() - 1 {
                    assert(feed.drop_last()[i].post.cid == c);
                }
            }
            if cid_set(feed.drop_last()).contains(c) {
                let i = choose|i: int| 0 <= i < feed.drop_last().len() && feed.drop_last()[i].post.cid == c;
                assert(feed[i].post.cid == c);
            }
        }
        assert(cid_set(spec_update_feeds(s, feed)) =~= cid_set(s).union(cid_set(feed)));
    }
}

/// An item kept before whose post was not fetched again is still kept, as it was.
pub proof fn lemma_update_feeds_keeps_unfetched(s: Seq<FeedViewPostView>, feed: Seq<FeedViewPostView>, x: FeedViewPostView)
    requires
        s.contains(x),
        !cid_set(feed).contains(x.post.cid),
    ensures
        spec_update_feeds(s, feed).contains(x),
    decreases feed.len(),
{
    if feed.len() > 0 {
        assert(!cid_set(feed.drop_last()).contains(x.post.cid)) by {
            if cid_set(feed.drop_last()).contains(x.post.cid) {
                let i = choose|i: int| 0 <= i < feed.drop_last().len() && feed.drop_last()[i].post.cid == x.post.cid;
                assert(feed[i].post.cid == x.post.cid);
            }
        }
        lemma_update_feeds_keeps_unfetched(s, feed.drop_last(), x);
        assert(feed[feed.len() - 1].post.cid != x.post.cid);
        lemma_step_keeps_other(spec_update_feeds(s, feed.drop_last()), feed.last(), x);
    }
}

/// After merging fetched items with distinct posts, every fetched post is
/// kept as fetched, with a reason that the fetched item does not renew.
pub proof fn lemma_update_feeds_latest(s: Seq<FeedViewPostView>, feed: Seq<FeedViewPostView>, k: int)
    requires
        distinct_cids(feed),
        0 <= k < feed.len(),
    ensures
        exists|y: FeedViewPostView| #[trigger] spec_update_feeds(s, feed).contains(y) && y.post == feed[k].post
            && !is_newer_repost(y.reason, feed[k].reason),
    decreases feed.len(),
{
    let n = feed.len() - 1;
    let prev = spec_update_feeds(s, feed.drop_last());
    if k == n {
        lemma_step_holds_incoming(prev, feed.last());
        let y = choose|y: FeedViewPostView| #[trigger] feed_step(prev, feed.last()).contains(y) && y.post == feed.last().post
            && !is_newer_repost(y.reason, feed.last().reason);
        assert(spec_update_feeds(s, feed) == feed_step(prev, feed.last()));
        assert(spec_update_feeds(s, feed).contains(y));
    } else {
        assert(distinct_cids(feed.drop_last()));
        lemma_update_feeds_latest(s, feed.drop_last(), k);
        let y = choose|y: FeedViewPostView| #[trigger] prev.contains(y) && y.post == feed.drop_last()[k].post
            && !is_newer_repost(y.reason, feed.drop_last()[k].reason);
        assert(feed[k].post.cid != feed[n].post.cid);
        lemma_step_keeps_other(prev, feed.last(), y);
        assert(spec_update_feeds(s, feed).contains(y));
    }
}

proof fn lemma_fixed_prefix(r: Seq<FeedViewPostView>, feed: Seq<FeedViewPostView>, k: int)
    requires
        distinct_cids(r),
        0 <= k <= feed.len(),
        forall|j: int| #![trigger feed[j]] 0 <= j < feed.len() ==> exists|y: FeedViewPostView| #[trigger] r.contains(y)
            && y.post == feed[j].post && !is_newer_repost(y.reason, feed[j].reason),
    ensures
        spec_update_feeds(r, feed.take(k)) == r,
    decreases k,
{
    if k > 0 {
        lemma_fixed_prefix(r, feed, k - 1);
        assert(feed.take(k).drop_last() =~= feed.take(k - 1));
        let p = feed[k - 1];
        assert(feed.take(k).last() == p);
        let y = choose|y: FeedViewPostView| #[trigger] r.contains(y) && y.post == feed[k - 1].post
            && !is_newer_repost(y.reason, feed[k - 1].reason);
        let j = choose|j: int| 0 <= j < r.len() && r[j] == y;
        lemma_cid_index(r, p.post.cid);
        let i = cid_index(r, p.post.cid)->0;
        assert(i == j);
        assert(r.update(i, FeedViewPostView { post: p.post, ..r[i] }) =~= r);
    }
}

/// Merging the same fetched items (with distinct posts) a second time
/// changes nothing: a refresh that fetches what it fetched before leaves the
/// kept items as they are.
pub proof fn lemma_update_feeds_idempotent(s: Seq<FeedViewPostView>, feed: Seq<FeedViewPostView>)
    requires
        distinct_cids(s),
        distinct_cids(feed),
    ensures
        spec_update_feeds(spec_update_feeds(s, feed), feed) == spec_update_feeds(s, feed),
{
    let r = spec_update_feeds(s, feed);
    lemma_update_feeds_distinct(s, feed);
    assert forall|j: int| #![trigger feed[j]] 0 <= j < feed.len() implies exists|y: FeedViewPostView| #[trigger] r.contains(y)
        && y.post == feed[j].post && !is_newer_repost(y.reason, feed[j].reason) by {
        lemma_update_feeds_latest(s, feed, j);
    }
    lemma_fixed_prefix(r, feed, feed.len() as int);
    assert(feed.take(feed.len() as int) =~= feed);
}
} // verus!
