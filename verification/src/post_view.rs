use vstd::prelude::*;
use crate::actions::{Transition, ViewAction, ViewKind};
use crate::post::{
    action_views, like_of, post_view_actions, spec_post_actions, PostAction, PostActionView,
    Media, PostEmbed, PostView, RecordView, ViewRecord, Viewer,
};

verus! {

/// The DID of the signed-in account, by its characters.
pub open spec fn did_view(d: Option<String>) -> Option<Seq<char>> {
    match d {
        Some(s) => Some(s@),
        None => None,
    }
}

/// What the view of a post asks the application to do beside answering.
#[derive(Debug)]
pub enum PostEffect {
    Nothing,
    /// Like the post.
    Like,
    /// Delete the like with this URI.
    Unlike(String),
    /// Delete the post.
    Delete,
    /// Open this link in the browser.
    Open(String),
    /// Show the quoted post in a new view.
    ShowQuoted,
    /// Fetch the thread of the post again.
    Refresh,
}

/// The view's answer to an action and what it asks to be done.
#[derive(Debug)]
pub struct PostStep {
    pub reply: Option<ViewAction>,
    pub effect: PostEffect,
}

/// The view of a post: the post, the post it replies to (if known), the
/// signed-in account, the actions offered and the selected one.
#[derive(Debug)]
pub struct PostViewState {
    pub post: PostView,
    pub reply: Option<PostView>,
    pub session_did: Option<String>,
    pub actions: Vec<PostAction>,
    pub selected: Option<usize>,
}

/// The number of likes of a post after the account's like of it changed
/// from `before` to `after`: one more where it now likes it, one fewer
/// where it no longer does.
pub open spec fn likes_after(count: Option<i64>, before: bool, after: bool) -> int {
    (match count {
        Some(c) => c as int,
        None => 0int,
    }) + (if after { 1int } else { 0int }) - (if before { 1int } else { 0int })
}

/// The action after position `s` of a ring of `len` actions.
pub open spec fn next_index(s: int, len: int) -> int {
    (s + 1) % len
}

/// The action before position `s` of a ring of `len` actions.
pub open spec fn prev_index(s: int, len: int) -> int {
    (s + len - 1) % len
}

/// The position reached from `s` after `k` steps forward.
pub open spec fn next_steps(s: int, len: int, k: nat) -> int
    decreases k,
{
    if k == 0 {
        s
    } else {
        next_index(next_steps(s, len, (k - 1) as nat), len)
    }
}

/// The selection after drawing the list of `len` actions into an area
/// (`area_empty` where that area has no room): a selection past the last
/// action lands on it, and an empty list has none.
pub open spec fn drawn_selection(selected: Option<usize>, len: nat, area_empty: bool) -> Option<usize> {
    if area_empty {
        selected
    } else if len == 0 {
        None
    } else {
        match selected {
            Some(s) => Some(if s < len { s } else { (len - 1) as usize }),
            None => None,
        }
    }
}

impl PostViewState {
    /// The actions are those of the post.
    pub open spec fn wf(&self) -> bool {
        action_views(self.actions@) == spec_post_actions(self.post, did_view(self.session_did))
    }

    /// The view of `post`, replying to `reply`, for the account
    /// `session_did`; no action selected.
    pub fn new(post: PostView, reply: Option<PostView>, session_did: Option<String>) -> (r: PostViewState)
        ensures
            r.wf(),
            r.post == post,
            r.reply == reply,
            r.session_did == session_did,
            r.selected is None,
    {
        let actions = post_view_actions(&post, &session_did);
        PostViewState { post, reply, session_did, actions, selected: None }
    }

    fn rebuild_actions(&mut self)
        ensures
            final(self).wf(),
            final(self).post == old(self).post,
            final(self).reply == old(self).reply,
            final(self).session_did == old(self).session_did,
            final(self).selected == old(self).selected,
    {
        self.actions = post_view_actions(&self.post, &self.session_did);
    }

    /// The view's answer to an action. Next and Prev move the selection
    /// round the actions (onto the first where none is selected). Enter on
    /// the selected action: like, unlike, delete and open are asked of the
    /// application; on the quoted post, a post view is pushed on it; the
    /// others, and a selection past the actions, do nothing. Back leaves the
    /// view; Refresh asks for the thread again; a transition is passed on;
    /// the rest is ignored.
    pub fn update(&mut self, action: ViewAction) -> (r: PostStep)
        requires
            old(self).wf(),
        ensures
            final(self).wf(),
            final(self).post == old(self).post,
            final(self).reply == old(self).reply,
            final(self).session_did == old(self).session_did,
            final(self).actions@ == old(self).actions@,
            action is NextItem ==> final(self).selected == Some(match old(self).selected {
                Some(s) => next_index(s as int, old(self).actions@.len() as int) as usize,
                None => 0usize,
            }) && r.reply == Some(ViewAction::Render) && r.effect is Nothing,
            action is PrevItem ==> final(self).selected == Some(match old(self).selected {
                Some(s) => prev_index(s as int, old(self).actions@.len() as int) as usize,
                None => 0usize,
            }) && r.reply == Some(ViewAction::Render) && r.effect is Nothing,
            !(action is NextItem || action is PrevItem) ==> final(self).selected == old(self).selected,
            action is Enter ==> match old(self).selected {
                Some(i) => if i < old(self).actions@.len() {
                    match action_views(old(self).actions@)[i as int] {
                        PostActionView::Like => r.reply is None && r.effect is Like,
                        PostActionView::Unlike(u) => r.reply is None && (r.effect matches PostEffect::Unlike(v) && v@ == u),
                        PostActionView::Delete => r.reply is None && r.effect is Delete,
                        PostActionView::Open(u) => r.reply is None && (r.effect matches PostEffect::Open(v) && v@ == u),
                        PostActionView::ViewRecord => r.reply == Some(ViewAction::Transition(Transition::Push(ViewKind::Post)))
                            && r.effect is ShowQuoted,
                        _ => r.reply is None && r.effect is Nothing,
                    }
                } else {
                    r.reply is None && r.effect is Nothing
                },
                None => r.reply is None && r.effect is Nothing,
            },
            action is Back ==> r.reply == Some(ViewAction::Transition(Transition::Pop)) && r.effect is Nothing,
            action is Refresh ==> r.reply is None && r.effect is Refresh,
            action matches ViewAction::Transition(t) ==> r.reply == Some(ViewAction::Transition(t)) && r.effect is Nothing,
            !(action is NextItem || action is PrevItem || action is Enter || action is Back || action is Refresh
                || action is Transition) ==> r.reply is None && r.effect is Nothing,
    {
        let len = self.actions.len();
        proof {
            crate::post::lemma_post_actions_len(self.post, did_view(self.session_did));
        }
        match action {
            ViewAction::NextItem => {
                self.selected = Some(match self.selected {
                    Some(s) => {
                        let m = s % len;
                        proof {
                            lemma_step_mod(s as int, len as int);
                        }
                        if m + 1 < len { m + 1 } else { 0 }
                    },
                    None => 0,
                });
                PostStep { reply: Some(ViewAction::Render), effect: PostEffect::Nothing }
            },
            ViewAction::PrevItem => {
                self.selected = Some(match self.selected {
                    Some(s) => {
                        let m = s % len;
                        proof {
                            lemma_step_mod(s as int, len as int);
                        }
                        if m == 0 { len - 1 } else { m - 1 }
                    },
                    None => 0,
                });
                PostStep { reply: Some(ViewAction::Render), effect: PostEffect::Nothing }
            },
            ViewAction::Enter => {
                match self.selected {
                    Some(i) => {
                        if i < len {
                            assert(action_views(self.actions@)[i as int] == self.actions@[i as int]@);
                            match &self.actions[i] {
                                PostAction::Like => PostStep { reply: None, effect: PostEffect::Like },
                                PostAction::Unlike(u) => PostStep { reply: None, effect: PostEffect::Unlike(u.clone()) },
                                PostAction::Delete => PostStep { reply: None, effect: PostEffect::Delete },
                                PostAction::Open(u) => PostStep { reply: None, effect: PostEffect::Open(u.clone()) },
                                PostAction::ViewRecord => PostStep {
                                    reply: Some(ViewAction::Transition(Transition::Push(ViewKind::Post))),
                                    effect: PostEffect::ShowQuoted,
                                },
                                _ => PostStep { reply: None, effect: PostEffect::Nothing },
                            }
                        } else {
                            PostStep { reply: None, effect: PostEffect::Nothing }
                        }
                    },
                    None => PostStep { reply: None, effect: PostEffect::Nothing },
                }
            },
            ViewAction::Back => PostStep {
                reply: Some(ViewAction::Transition(Transition::Pop)),
                effect: PostEffect::Nothing,
            },
            ViewAction::Refresh => PostStep { reply: None, effect: PostEffect::Refresh },
            ViewAction::Transition(t) => PostStep {
                reply: Some(ViewAction::Transition(t)),
                effect: PostEffect::Nothing,
            },
            _ => PostStep { reply: None, effect: PostEffect::Nothing },
        }
    }

    /// Takes a fresh thread of the post: the post is replaced, and so is the
    /// post it replies to where the thread has a parent; the actions are
    /// built again (the selection kept) and a redraw asked for.
    pub fn thread_updated(&mut self, post: PostView, parent: Option<PostView>) -> (r: Option<ViewAction>)
        requires
            old(self).wf(),
        ensures
            final(self).wf(),
            final(self).post == post,
            parent is Some ==> final(self).reply == parent,
            parent is None ==> final(self).reply == old(self).reply,
            final(self).session_did == old(self).session_did,
            final(self).selected == old(self).selected,
            r == Some(ViewAction::Render),
    {
        self.post = post;
        match parent {
            Some(p) => {
                self.reply = Some(p);
            },
            None => {},
        }
        self.rebuild_actions();
        Some(ViewAction::Render)
    }

    /// Takes what the account did to the post after liking or unliking it:
    /// the like count moves by one where the like appeared or went away,
    /// the viewer state is replaced, the rest of the post is kept, the
    /// actions are built again (the selection kept) and a redraw asked for.
    pub fn viewer_updated(&mut self, viewer: Option<Viewer>) -> (r: Option<ViewAction>)
        requires
            old(self).wf(),
            old(self).post.like_count matches Some(c) ==> i64::MIN < c < i64::MAX,
        ensures
            final(self).wf(),
            final(self).post == (PostView {
                like_count: Some(likes_after(
                    old(self).post.like_count,
                    like_of(old(self).post.viewer) is Some,
                    like_of(viewer) is Some,
                ) as i64),
                viewer: viewer,
                ..old(self).post
            }),
            final(self).reply == old(self).reply,
            final(self).session_did == old(self).session_did,
            final(self).selected == old(self).selected,
            r == Some(ViewAction::Render),
    {
        let now: i64 = match &viewer {
            Some(v) => if v.like.is_some() { 1 } else { 0 },
            None => 0,
        };
        let before: i64 = match &self.post.viewer {
            Some(v) => if v.like.is_some() { 1 } else { 0 },
            None => 0,
        };
        let count: i64 = match self.post.like_count {
            Some(c) => c,
            None => 0,
        };
        self.post.like_count = Some(count + now - before);
        self.post.viewer = viewer;
        self.rebuild_actions();
        Some(ViewAction::Render)
    }

    /// What drawing the list of actions does to the selection (see
    /// `drawn_selection`); nothing else changes.
    pub fn drawn(&mut self, area_empty: bool)
        ensures
            final(self).post == old(self).post,
            final(self).reply == old(self).reply,
            final(self).session_did == old(self).session_did,
            final(self).actions@ == old(self).actions@,
            final(self).selected == drawn_selection(old(self).selected, old(self).actions@.len(), area_empty),
    {
        if area_empty {
            return;
        }
        let len = self.actions.len();
        if len == 0 {
            self.selected = None;
        } else {
            match self.selected {
                Some(s) => if s >= len {
                    self.selected = Some(len - 1);
                },
                None => {},
            }
        }
    }
}

/// A step forward or back from `s` is a step from its remainder.
proof fn lemma_step_mod(s: int, len: int)
    requires
        0 <= s,
        0 < len,
    ensures
        next_index(s, len) == (if s % len + 1 < len { s % len + 1 } else { 0 }),
        prev_index(s, len) == (if s % len == 0 { len - 1 } else { s % len - 1 }),
{
    let q = s / len;
    let m = s % len;
    assert(s == q * len + m && 0 <= m < len) by (nonlinear_arith)
        requires 0 <= s, 0 < len, q == s / len, m == s % len;
    assert((s + 1) % len == (if m + 1 < len { m + 1 } else { 0 })) by (nonlinear_arith)
        requires s == q * len + m, 0 <= m < len, 0 < len;
    assert((s + len - 1) % len == (if m == 0 { len - 1 } else { m - 1 })) by (nonlinear_arith)
        requires s == q * len + m, 0 <= m < len, 0 < len;
}

/// On a selected action, a step forward then back, or back then forward,
/// returns to it; and as many steps forward as there are actions go round
/// to it again.
pub proof fn lemma_selection_round_trip(s: int, len: int)
    requires
        0 <= s < len,
    ensures
        prev_index(next_index(s, len), len) == s,
        next_index(prev_index(s, len), len) == s,
        next_steps(s, len, len as nat) == s,
{
    assert(prev_index(next_index(s, len), len) == s) by (nonlinear_arith)
        requires 0 <= s < len;
    assert(next_index(prev_index(s, len), len) == s) by (nonlinear_arith)
        requires 0 <= s < len;
    lemma_next_steps(s, len, len as nat);
    assert((s + len) % len == s) by (nonlinear_arith)
        requires 0 <= s < len;
}

/// `k` steps forward from `s` reach `(s + k) % len`.
proof fn lemma_next_steps(s: int, len: int, k: nat)
    requires
        0 <= s < len,
    ensures
        next_steps(s, len, k) == (s + k) % len,
    decreases k,
{
    if k == 0 {
        assert(s % len == s) by (nonlinear_arith)
            requires 0 <= s < len;
    } else {
        lemma_next_steps(s, len, (k - 1) as nat);
        let p = (s + k - 1) % len;
        assert(next_steps(s, len, k) == next_index(p, len));
        assert((p + 1) % len == (s + k) % len) by (nonlinear_arith)
            requires 0 <= s < len, k > 0, p == (s + k - 1) % len;
    }
}

/// Liking a post and then unliking it leaves its like count as it was, and
/// the other way round.
pub proof fn lemma_like_then_unlike(count: i64)
    requires
        i64::MIN < count < i64::MAX,
    ensures
        likes_after(Some((likes_after(Some(count), false, true)) as i64), true, false) == count,
        likes_after(Some((likes_after(Some(count), true, false)) as i64), false, true) == count,
        likes_after(Some(count), false, true) == count + 1,
        likes_after(Some(count), true, false) == count - 1,
        likes_after(Some(count), true, true) == count,
        likes_after(None, false, true) == 1,
{
}

/// The viewer state after liking a post: the like is the new record, the
/// rest as it was (nothing, where there was no viewer state).
pub fn viewer_after_like(current: &Option<Viewer>, like_uri: String) -> (r: Viewer)
    ensures
        r.like == Some(like_uri),
        r.repost == match current {
            Some(v) => v.repost,
            None => None,
        },
{
    let repost = match current {
        Some(v) => match &v.repost {
            Some(u) => Some(u.clone()),
            None => None,
        },
        None => None,
    };
    Viewer { like: Some(like_uri), repost }
}

/// The viewer state after unliking a post: without the like, where there
/// is a viewer state.
pub fn viewer_after_unlike(current: &Option<Viewer>) -> (r: Option<Viewer>)
    ensures
        match current {
            Some(v) => r matches Some(w) && w.like is None && w.repost == v.repost,
            None => r is None,
        },
{
    match current {
        Some(v) => {
            let repost = match &v.repost {
                Some(u) => Some(u.clone()),
                None => None,
            };
            Some(Viewer { like: None, repost })
        },
        None => None,
    }
}

/// The post quoted by a post with embed `embed`, where it quotes a post.
pub open spec fn spec_quoted_record(embed: Option<PostEmbed>) -> Option<ViewRecord> {
    match embed {
        Some(PostEmbed::Record(RecordView::Post(v))) => Some(v),
        Some(PostEmbed::RecordWithMedia(_, RecordView::Post(v))) => Some(v),
        _ => None,
    }
}

/// A quoted post as a post to show on its own: its URI, CID, author, time,
/// labels, record and counts, with nothing embedded, no quote count and no
/// viewer state.
pub open spec fn spec_quoted_post_view(v: ViewRecord) -> PostView {
    PostView {
        uri: v.uri,
        cid: v.cid,
        author: v.author,
        indexed_at: v.indexed_at,
        record: v.value,
        embed: None,
        labels: v.labels,
        reply_count: v.reply_count,
        repost_count: v.repost_count,
        quote_count: None,
        like_count: v.like_count,
        viewer: None,
    }
}

/// The post shown when the quoted post of a post with embed `embed` is
/// opened, where it quotes one.
pub open spec fn spec_shown_quoted(embed: Option<PostEmbed>) -> Option<PostView> {
    match spec_quoted_record(embed) {
        Some(v) => Some(spec_quoted_post_view(v)),
        None => None,
    }
}

/// Opening the quoted post works exactly where the actions of a post offer
/// it; the post opened is the quoted one, with or without media beside it,
/// shown with nothing embedded and no viewer state.
pub proof fn lemma_offered_quote_opens(p: PostView, session_did: Option<Seq<char>>)
    ensures
        spec_post_actions(p, session_did).contains(PostActionView::ViewRecord) <==> spec_shown_quoted(p.embed) is Some,
        spec_shown_quoted(p.embed) matches Some(q) ==> ({
            let v = spec_quoted_record(p.embed)->0;
            &&& q.uri == v.uri && q.cid == v.cid && q.author == v.author && q.record == v.value
            &&& q.embed is None && q.viewer is None
        }),
{
    crate::post::lemma_view_record_offered(p, session_did);
}

/// A post quoting `v`, with media beside it or without, opens `v` itself:
/// its URI, CID, author, record, counts and labels.
pub proof fn lemma_quote_opens_quoted(p: PostView, v: ViewRecord, m: Media)
    requires
        p.embed == Some(PostEmbed::Record(RecordView::Post(v)))
            || p.embed == Some(PostEmbed::RecordWithMedia(m, RecordView::Post(v))),
    ensures
        spec_quoted_record(p.embed) == Some(v),
        spec_shown_quoted(p.embed) matches Some(q) && q.uri == v.uri && q.cid == v.cid && q.author == v.author
            && q.record == v.value && q.labels == v.labels && q.like_count == v.like_count
            && q.reply_count == v.reply_count && q.repost_count == v.repost_count,
{
}

/// The post quoted by `post`, taken out of it, where it quotes a post.
pub fn quoted_record(post: PostView) -> (r: Option<ViewRecord>)
    ensures
        r == spec_quoted_record(post.embed),
{
    match post.embed {
        Some(PostEmbed::Record(RecordView::Post(v))) => Some(v),
        Some(PostEmbed::RecordWithMedia(_, RecordView::Post(v))) => Some(v),
        _ => None,
    }
}

/// A quoted post as a post to show on its own (see `spec_quoted_post_view`).
pub fn quoted_post_view(v: ViewRecord) -> (r: PostView)
    ensures
        r == spec_quoted_post_view(v),
{
    PostView {
        uri: v.uri,
        cid: v.cid,
        author: v.author,
        indexed_at: v.indexed_at,
        record: v.value,
        embed: None,
        labels: v.labels,
        reply_count: v.reply_count,
        repost_count: v.repost_count,
        quote_count: None,
        like_count: v.like_count,
        viewer: None,
    }
}

/// The post to show when the quoted post of `post` is opened (see
/// `spec_shown_quoted`): the quoted post on its own, where `post` quotes one.
pub fn shown_quoted(post: PostView) -> (r: Option<PostView>)
    ensures
        r == spec_shown_quoted(post.embed),
{
    match quoted_record(post) {
        Some(v) => Some(quoted_post_view(v)),
        None => None,
    }
}

} // verus!
