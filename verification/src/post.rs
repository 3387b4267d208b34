use vstd::prelude::*;
use indexmap::IndexSet;
use crate::actions::{Transition, ViewAction, ViewKind};
use crate::profile::{Label, ProfileBasic};
use crate::text::string_views;

verus! {

/// An image embedded in a post: its alternative text and the URL of the
/// full-size picture.
#[derive(Clone, Debug)]
pub struct ImageView {
    pub alt: String,
    pub fullsize: String,
}

/// An external link embedded in a post, with its card.
#[derive(Clone, Debug)]
pub struct ExternalView {
    pub uri: String,
    pub title: String,
    pub description: String,
    pub thumb: Option<String>,
}

/// A rich-text feature over a range of a post's text.
#[derive(Clone, Debug)]
pub enum FacetFeature {
    /// A mention of an account, by DID.
    Mention(String),
    /// A link, by URI.
    Link(String),
    /// A hashtag.
    Tag(String),
    Unknown,
}

/// The features over the bytes `byte_start..byte_end` of a post's text.
#[derive(Clone, Debug)]
pub struct Facet {
    pub byte_start: usize,
    pub byte_end: usize,
    pub features: Vec<FacetFeature>,
}

/// The record of a post: its text, the languages it is tagged with, and its
/// rich-text facets.
#[derive(Clone, Debug)]
pub struct PostRecord {
    pub text: String,
    pub langs: Option<Vec<String>>,
    pub facets: Option<Vec<Facet>>,
}

/// A post quoted by another: where it is a post record, `value` holds it.
#[derive(Clone, Debug)]
pub struct ViewRecord {
    pub uri: String,
    pub cid: String,
    pub author: ProfileBasic,
    pub indexed_at: String,
    pub value: Option<PostRecord>,
    pub labels: Option<Vec<Label>>,
    pub like_count: Option<i64>,
    pub reply_count: Option<i64>,
    pub repost_count: Option<i64>,
}

/// A quoted record: a post, or some other kind of record.
#[derive(Clone, Debug)]
pub enum RecordView {
    Post(ViewRecord),
    Other,
}

/// The media beside a quoted record.
#[derive(Clone, Debug)]
pub enum Media {
    Images(Vec<ImageView>),
    External(ExternalView),
    Other,
}

/// What a post embeds.
#[derive(Clone, Debug)]
pub enum PostEmbed {
    Images(Vec<ImageView>),
    External(ExternalView),
    Record(RecordView),
    RecordWithMedia(Media, RecordView),
    Other,
}

/// What the signed-in account did to a post: the URI of its like and of its
/// repost.
#[derive(Clone, Debug)]
pub struct Viewer {
    pub like: Option<String>,
    pub repost: Option<String>,
}

/// A post as the service shows it. `record` holds the post record where the
/// record is one; `indexed_at` is the time it was indexed, as shown.
#[derive(Clone, Debug)]
pub struct PostView {
    pub uri: String,
    pub cid: String,
    pub author: ProfileBasic,
    pub indexed_at: String,
    pub record: Option<PostRecord>,
    pub embed: Option<PostEmbed>,
    pub labels: Option<Vec<Label>>,
    pub reply_count: Option<i64>,
    pub repost_count: Option<i64>,
    pub quote_count: Option<i64>,
    pub like_count: Option<i64>,
    pub viewer: Option<Viewer>,
}

/// What can be done from the view of a post. The profile shown is the
/// author's; the record shown is the one the post quotes.
#[derive(Clone, Debug)]
pub enum PostAction {
    Profile,
    Reply,
    Repost,
    Like,
    /// Undo the like with this URI.
    Unlike(String),
    Delete,
    /// Open a link in the browser.
    Open(String),
    ViewRecord,
}

pub ghost enum PostActionView {
    Profile,
    Reply,
    Repost,
    Like,
    Unlike(Seq<char>),
    Delete,
    Open(Seq<char>),
    ViewRecord,
}

impl View for PostAction {
    type V = PostActionView;

    open spec fn view(&self) -> PostActionView {
        match self {
            PostAction::Profile => PostActionView::Profile,
            PostAction::Reply => PostActionView::Reply,
            PostAction::Repost => PostActionView::Repost,
            PostAction::Like => PostActionView::Like,
            PostAction::Unlike(u) => PostActionView::Unlike(u@),
            PostAction::Delete => PostActionView::Delete,
            PostAction::Open(u) => PostActionView::Open(u@),
            PostAction::ViewRecord => PostActionView::ViewRecord,
        }
    }
}

pub open spec fn action_views(s: Seq<PostAction>) -> Seq<PostActionView> {
    s.map_values(|a: PostAction| a@)
}

/// The links among a facet's features, in order.
pub open spec fn feature_links(features: Seq<FacetFeature>) -> Seq<Seq<char>>
    decreases features.len(),
{
    if features.len() == 0 {
        Seq::empty()
    } else {
        let rest = feature_links(features.drop_last());
        match features.last() {
            FacetFeature::Link(u) => rest.push(u@),
            _ => rest,
        }
    }
}

/// The links among the features of all the facets, in order.
pub open spec fn facet_links(facets: Seq<Facet>) -> Seq<Seq<char>>
    decreases facets.len(),
{
    if facets.len() == 0 {
        Seq::empty()
    } else {
        facet_links(facets.drop_last()) + feature_links(facets.last().features@)
    }
}

/// The full-size URLs of the images, in order.
pub open spec fn image_links(images: Seq<ImageView>) -> Seq<Seq<char>> {
    images.map_values(|i: ImageView| i.fullsize@)
}

/// The links of embedded media: the images' full-size URLs, or the
/// external link.
pub open spec fn media_links(m: Media) -> Seq<Seq<char>> {
    match m {
        Media::Images(v) => image_links(v@),
        Media::External(e) => seq![e.uri@],
        Media::Other => Seq::empty(),
    }
}

/// The links of what a post embeds; a quoted record gives none.
pub open spec fn embed_links(e: Option<PostEmbed>) -> Seq<Seq<char>> {
    match e {
        Some(PostEmbed::Images(v)) => image_links(v@),
        Some(PostEmbed::External(x)) => seq![x.uri@],
        Some(PostEmbed::RecordWithMedia(m, _)) => media_links(m),
        _ => Seq::empty(),
    }
}

/// All the links of a post, in order, repeats included: those of its text's
/// facets, then those of what it embeds.
pub open spec fn post_links(p: PostView) -> Seq<Seq<char>> {
    let text_links = match p.record {
        Some(r) => match r.facets {
            Some(f) => facet_links(f@),
            None => Seq::empty(),
        },
        None => Seq::empty(),
    };
    text_links + embed_links(p.embed)
}

/// `s` without repeats, each item where it first occurs.
pub open spec fn dedup(s: Seq<Seq<char>>) -> Seq<Seq<char>>
    decreases s.len(),
{
    if s.len() == 0 {
        Seq::empty()
    } else {
        let d = dedup(s.drop_last());
        if d.contains(s.last()) {
            d
        } else {
            d.push(s.last())
        }
    }
}

/// Whether a post quotes a post record (which can then be shown).
pub open spec fn quotes_post(e: Option<PostEmbed>) -> bool {
    match e {
        Some(PostEmbed::Record(RecordView::Post(_))) => true,
        Some(PostEmbed::RecordWithMedia(_, RecordView::Post(_))) => true,
        _ => false,
    }
}

/// The URI of the signed-in account's like of the post, if it liked it.
pub open spec fn like_of(v: Option<Viewer>) -> Option<Seq<char>> {
    match v {
        Some(viewer) => match viewer.like {
            Some(u) => Some(u@),
            None => None,
        },
        None => None,
    }
}

/// The actions offered on a post, in order: the author's profile, reply,
/// repost, like (or unlike, where the account liked it), delete (where the
/// account wrote it), the quoted post (where there is one), and one "open"
/// for each distinct link, in the order they first occur.
pub open spec fn spec_post_actions(p: PostView, session_did: Option<Seq<char>>) -> Seq<PostActionView> {
    let like = match like_of(p.viewer) {
        Some(u) => PostActionView::Unlike(u),
        None => PostActionView::Like,
    };
    let base = seq![PostActionView::Profile, PostActionView::Reply, PostActionView::Repost, like];
    let own = if session_did == Some(p.author.did@) {
        seq![PostActionView::Delete]
    } else {
        Seq::empty()
    };
    let quoted = if quotes_post(p.embed) {
        seq![PostActionView::ViewRecord]
    } else {
        Seq::empty()
    };
    base + own + quoted + dedup(post_links(p)).map_values(|u: Seq<char>| PostActionView::Open(u))
}

/// Each link of a post is offered once: the distinct links hold no repeats
/// and are exactly the links of the post.
pub proof fn lemma_dedup_distinct(s: Seq<Seq<char>>)
    ensures
        dedup(s).no_duplicates(),
        forall|x: Seq<char>| dedup(s).contains(x) <==> s.contains(x),
    decreases s.len(),
{
    if s.len() > 0 {
        let r = s.drop_last();
        lemma_dedup_distinct(r);
        let d = dedup(r);
        if !d.contains(s.last()) {
            let e = d.push(s.last());
            assert forall|i: int, j: int| 0 <= i < e.len() && 0 <= j < e.len() && i != j implies e[i] != e[j] by {
                if i == d.len() as int {
                    assert(d.contains(e[j]));
                } else if j == d.len() as int {
                    assert(d.contains(e[i]));
                }
            }
        }
        assert forall|x: Seq<char>| dedup(s).contains(x) <==> s.contains(x) by {
            if s.contains(x) {
                let k = choose|k: int| 0 <= k < s.len() && s[k] == x;
                if k < r.len() {
                    assert(r[k] == x);
                    assert(r.contains(x));
                }
            }
            if r.contains(x) {
                let k = choose|k: int| 0 <= k < r.len() && r[k] == x;
                assert(s[k] == x);
            }
            if x == s.last() {
                assert(s[s.len() - 1] == x);
            }
            let ds = dedup(s);
            if !d.contains(s.last()) {
                assert(ds == d.push(s.last()));
                if ds.contains(x) {
                    let k = choose|k: int| 0 <= k < ds.len() && ds[k] == x;
                    if k < d.len() {
                        assert(d[k] == x);
                    }
                }
                if d.contains(x) {
                    let k = choose|k: int| 0 <= k < d.len() && d[k] == x;
                    assert(ds[k] == x);
                }
                if x == s.last() {
                    assert(ds[d.len() as int] == x);
                }
            }
        }
    }
}

/// A post always offers at least its four basic actions.
pub proof fn lemma_post_actions_len(p: PostView, session_did: Option<Seq<char>>)
    ensures
        spec_post_actions(p, session_did).len() >= 4,
{
}

/// What the actions of a post are made of: four basic ones (the last a like
/// or an unlike), then Delete where the account wrote the post, then the
/// quoted post where there is one, then links.
proof fn lemma_post_actions_parts(p: PostView, session_did: Option<Seq<char>>, i: int)
    requires
        0 <= i < spec_post_actions(p, session_did).len(),
    ensures
        ({
            let a = spec_post_actions(p, session_did);
            let own: int = if session_did == Some(p.author.did@) { 1 } else { 0 };
            let quoted: int = if quotes_post(p.embed) { 1 } else { 0 };
            &&& i < 4 ==> !(a[i] is Delete) && !(a[i] is ViewRecord)
            &&& 4 <= i < 4 + own ==> a[i] is Delete
            &&& 4 + own <= i < 4 + own + quoted ==> a[i] is ViewRecord
            &&& 4 + own + quoted <= i ==> a[i] is Open
        }),
{
}

/// Delete is offered exactly on the signed-in account's own posts.
pub proof fn lemma_delete_offered_to_author(p: PostView, session_did: Option<Seq<char>>)
    ensures
        spec_post_actions(p, session_did).contains(PostActionView::Delete) <==> session_did == Some(p.author.did@),
{
    let a = spec_post_actions(p, session_did);
    if session_did == Some(p.author.did@) {
        lemma_post_actions_parts(p, session_did, 4);
        assert(a[4] == PostActionView::Delete);
    } else {
        assert forall|i: int| 0 <= i < a.len() implies a[i] != PostActionView::Delete by {
            lemma_post_actions_parts(p, session_did, i);
        }
    }
}

/// The first three actions are always Profile, Reply and Repost; the fourth
/// is Unlike with the URI of the account's like where it liked the post,
/// else Like; and every link of the post is offered to open.
pub proof fn lemma_basic_actions(p: PostView, session_did: Option<Seq<char>>)
    ensures
        ({
            let a = spec_post_actions(p, session_did);
            &&& a[0] == PostActionView::Profile && a[1] == PostActionView::Reply && a[2] == PostActionView::Repost
            &&& like_of(p.viewer) matches Some(u) ==> a[3] == PostActionView::Unlike(u)
            &&& like_of(p.viewer) is None ==> a[3] == PostActionView::Like
            &&& a.contains(PostActionView::Like) <==> like_of(p.viewer) is None
            &&& forall|u: Seq<char>| post_links(p).contains(u) ==> #[trigger] a.contains(PostActionView::Open(u))
        }),
{
    let a = spec_post_actions(p, session_did);
    assert forall|i: int| 4 <= i < a.len() implies a[i] != PostActionView::Like by {
        lemma_post_actions_parts(p, session_did, i);
    }
    if like_of(p.viewer) is None {
        assert(a[3] == PostActionView::Like);
    }
    assert forall|u: Seq<char>| post_links(p).contains(u) implies #[trigger] a.contains(PostActionView::Open(u)) by {
        lemma_dedup_distinct(post_links(p));
        let ds = dedup(post_links(p));
        let j = choose|j: int| 0 <= j < ds.len() && ds[j] == u;
        let opens = ds.map_values(|x: Seq<char>| PostActionView::Open(x));
        let n = a.len() - opens.len();
        assert(a.subrange(n, a.len() as int) =~= opens);
        assert(a[n + j] == opens[j]);
    }
}

/// The quoted post is offered exactly where the post quotes a post, with or
/// without media.
pub proof fn lemma_view_record_offered(p: PostView, session_did: Option<Seq<char>>)
    ensures
        spec_post_actions(p, session_did).contains(PostActionView::ViewRecord) <==> quotes_post(p.embed),
{
    let a = spec_post_actions(p, session_did);
    let k: int = if session_did == Some(p.author.did@) { 5 } else { 4 };
    if quotes_post(p.embed) {
        lemma_post_actions_parts(p, session_did, k);
        assert(a[k] == PostActionView::ViewRecord);
    } else {
        assert forall|i: int| 0 <= i < a.len() implies a[i] != PostActionView::ViewRecord by {
            lemma_post_actions_parts(p, session_did, i);
        }
    }
}

#[verifier::external_type_specification]
#[verifier::external_body]
#[verifier::reject_recursive_types(T)]
#[verifier::reject_recursive_types(S)]
pub struct ExIndexSet<T, S>(IndexSet<T, S>);

/// The items of an insertion-ordered set of links, in order.
pub uninterp spec fn link_set_items(s: IndexSet<String>) -> Seq<Seq<char>>;

/// `IndexSet::new`: a set with no items.
#[verifier::external_body]
fn link_set_new() -> (s: IndexSet<String>)
    ensures
        link_set_items(s) == Seq::<Seq<char>>::empty(),
{
    IndexSet::new()
}

/// `IndexSet::insert`: an item that is not in the set yet is added last and
/// `true` returned; otherwise the set is unchanged and `false` returned.
#[verifier::external_body]
fn link_set_insert(s: &mut IndexSet<String>, item: String) -> (r: bool)
    ensures
        link_set_items(*old(s)).contains(item@) ==> !r && link_set_items(*final(s)) == link_set_items(*old(s)),
        !link_set_items(*old(s)).contains(item@) ==> r && link_set_items(*final(s)) == link_set_items(*old(s)).push(item@),
{
    s.insert(item)
}

/// The items of the set in insertion order (`IndexSet::into_iter`).
#[verifier::external_body]
fn link_set_into_vec(s: IndexSet<String>) -> (v: Vec<String>)
    ensures
        string_views(v@) == link_set_items(s),
{
    s.into_iter().collect()
}

/// Adds each link, in order, to the set.
fn insert_links(set: &mut IndexSet<String>, links: Vec<String>)
    ensures
        dedup_onto(link_set_items(*old(set)), string_views(links@)) == link_set_items(*final(set)),
{
    let mut i: usize = 0;
    let ghost start = link_set_items(*set);
    while i < links.len()
        invariant
            i <= links@.len(),
            link_set_items(*set) == dedup_onto(start, string_views(links@).take(i as int)),
        decreases links@.len() - i,
    {
        proof {
            assert(string_views(links@).take(i + 1).drop_last() =~= string_views(links@).take(i as int));
            assert(string_views(links@).take(i + 1).last() == links@[i as int]@);
        }
        link_set_insert(set, links[i].clone());
        i = i + 1;
    }
    assert(string_views(links@).take(links@.len() as int) =~= string_views(links@));
}

/// The items of `d`, followed by those of `s` not seen before, each where
/// it first occurs.
pub open spec fn dedup_onto(d: Seq<Seq<char>>, s: Seq<Seq<char>>) -> Seq<Seq<char>>
    decreases s.len(),
{
    if s.len() == 0 {
        d
    } else {
        let e = dedup_onto(d, s.drop_last());
        if e.contains(s.last()) {
            e
        } else {
            e.push(s.last())
        }
    }
}

proof fn lemma_dedup_onto_append(d: Seq<Seq<char>>, a: Seq<Seq<char>>, b: Seq<Seq<char>>)
    ensures
        dedup_onto(dedup_onto(d, a), b) == dedup_onto(d, a + b),
    decreases b.len(),
{
    if b.len() == 0 {
        assert(a + b =~= a);
    } else {
        lemma_dedup_onto_append(d, a, b.drop_last());
        assert((a + b).drop_last() =~= a + b.drop_last());
        assert((a + b).last() == b.last());
    }
}

proof fn lemma_dedup_is_onto_empty(s: Seq<Seq<char>>)
    ensures
        dedup(s) == dedup_onto(Seq::empty(), s),
    decreases s.len(),
{
    if s.len() > 0 {
        lemma_dedup_is_onto_empty(s.drop_last());
    }
}

/// The links among a facet's features.
fn feature_links_of(features: &Vec<FacetFeature>) -> (r: Vec<String>)
    ensures
        string_views(r@) == feature_links(features@),
{
    let mut r: Vec<String> = Vec::new();
    let mut i: usize = 0;
    while i < features.len()
        invariant
            i <= features@.len(),
            string_views(r@) == feature_links(features@.take(i as int)),
        decreases features@.len() - i,
    {
        proof {
            assert(features@.take(i + 1).drop_last() =~= features@.take(i as int));
        }
        match &features[i] {
            FacetFeature::Link(u) => {
                let ghost before = r@;
                r.push(u.clone());
                assert(string_views(r@) =~= string_views(before).push(u@));
            },
            _ => {},
        }
        i = i + 1;
    }
    assert(features@.take(features@.len() as int) =~= features@);
    r
}

/// The links of the text's facets, in order.
fn facet_links_of(facets: &Vec<Facet>) -> (r: Vec<String>)
    ensures
        string_views(r@) == facet_links(facets@),
{
    let mut r: Vec<String> = Vec::new();
    let mut i: usize = 0;
    while i < facets.len()
        invariant
            i <= facets@.len(),
            string_views(r@) == facet_links(facets@.take(i as int)),
        decreases facets@.len() - i,
    {
        proof {
            assert(facets@.take(i + 1).drop_last() =~= facets@.take(i as int));
        }
        let mut more = feature_links_of(&facets[i].features);
        let ghost before = r@;
        let ghost added = more@;
        r.append(&mut more);
        assert(string_views(r@) =~= string_views(before) + string_views(added));
        i = i + 1;
    }
    assert(facets@.take(facets@.len() as int) =~= facets@);
    r
}

/// The full-size URLs of the images.
fn image_links_of(images: &Vec<ImageView>) -> (r: Vec<String>)
    ensures
        string_views(r@) == image_links(images@),
{
    let mut r: Vec<String> = Vec::new();
    let mut i: usize = 0;
    while i < images.len()
        invariant
            i <= images@.len(),
            string_views(r@) =~= image_links(images@).take(i as int),
        decreases images@.len() - i,
    {
        let ghost before = r@;
        r.push(images[i].fullsize.clone());
        assert(string_views(r@) =~= string_views(before).push(images@[i as int].fullsize@));
        assert(image_links(images@).take(i + 1) =~= image_links(images@).take(i as int).push(images@[i as int].fullsize@));
        i = i + 1;
    }
    assert(image_links(images@).take(images@.len() as int) =~= image_links(images@));
    r
}

/// The links of what a post embeds (see `embed_links`).
fn embed_links_of(e: &Option<PostEmbed>) -> (r: Vec<String>)
    ensures
        string_views(r@) == embed_links(*e),
{
    match e {
        Some(PostEmbed::Images(v)) => image_links_of(v),
        Some(PostEmbed::External(x)) => {
            let mut r: Vec<String> = Vec::new();
            r.push(x.uri.clone());
            assert(string_views(r@) =~= seq![x.uri@]);
            r
        },
        Some(PostEmbed::RecordWithMedia(m, _)) => match m {
            Media::Images(v) => image_links_of(v),
            Media::External(x) => {
                let mut r: Vec<String> = Vec::new();
                r.push(x.uri.clone());
                assert(string_views(r@) =~= seq![x.uri@]);
                r
            },
            Media::Other => {
                let r: Vec<String> = Vec::new();
                assert(string_views(r@) =~= Seq::<Seq<char>>::empty());
                r
            },
        },
        _ => {
            let r: Vec<String> = Vec::new();
            assert(string_views(r@) =~= Seq::<Seq<char>>::empty());
            r
        },
    }
}

/// The distinct links of a post, in the order they first occur, gathered
/// in an insertion-ordered set.
pub fn distinct_links(p: &PostView) -> (r: Vec<String>)
    ensures
        string_views(r@) == dedup(post_links(*p)),
{
    let mut set = link_set_new();
    let text_links = match &p.record {
        Some(record) => match &record.facets {
            Some(facets) => facet_links_of(facets),
            None => Vec::new(),
        },
        None => Vec::new(),
    };
    let ghost tl = string_views(text_links@);
    assert(tl =~= match p.record {
        Some(r) => match r.facets {
            Some(f) => facet_links(f@),
            None => Seq::<Seq<char>>::empty(),
        },
        None => Seq::<Seq<char>>::empty(),
    });
    insert_links(&mut set, text_links);
    let more = embed_links_of(&p.embed);
    let ghost el = string_views(more@);
    insert_links(&mut set, more);
    proof {
        lemma_dedup_onto_append(Seq::empty(), tl, el);
        lemma_dedup_is_onto_empty(post_links(*p));
    }
    link_set_into_vec(set)
}

/// Whether the post quotes a post record (see `quotes_post`).
pub fn has_quoted_post(e: &Option<PostEmbed>) -> (r: bool)
    ensures
        r == quotes_post(*e),
{
    match e {
        Some(PostEmbed::Record(RecordView::Post(_))) => true,
        Some(PostEmbed::RecordWithMedia(_, RecordView::Post(_))) => true,
        _ => false,
    }
}

/// Whether two strings hold the same characters.
fn same_text(a: &String, b: &String) -> (r: bool)
    ensures
        r == (a@ == b@),
{
    crate::text::str_equal(a.as_str(), b.as_str())
}

/// The actions offered on a post for the account signed in as
/// `session_did` (see `spec_post_actions`).
pub fn post_view_actions(p: &PostView, session_did: &Option<String>) -> (r: Vec<PostAction>)
    ensures
        action_views(r@) == spec_post_actions(
            *p,
            match session_did {
                Some(d) => Some(d@),
                None => None,
            },
        ),
        r@.len() >= 4,
{
    let mut r: Vec<PostAction> = Vec::new();
    r.push(PostAction::Profile);
    r.push(PostAction::Reply);
    r.push(PostAction::Repost);
    let liked: Option<String> = match &p.viewer {
        Some(v) => match &v.like {
            Some(u) => Some(u.clone()),
            None => None,
        },
        None => None,
    };
    match liked {
        Some(u) => r.push(PostAction::Unlike(u)),
        None => r.push(PostAction::Like),
    }
    let ghost base = action_views(r@);
    let own = match session_did {
        Some(d) => same_text(d, &p.author.did),
        None => false,
    };
    if own {
        r.push(PostAction::Delete);
    }
    let ghost with_own = action_views(r@);
    if has_quoted_post(&p.embed) {
        r.push(PostAction::ViewRecord);
    }
    let ghost with_quoted = action_views(r@);
    let links = distinct_links(p);
    let mut i: usize = 0;
    let ghost opens = dedup(post_links(*p)).map_values(|u: Seq<char>| PostActionView::Open(u));
    assert(with_quoted.len() == r@.len());
    while i < links.len()
        invariant
            i <= links@.len(),
            string_views(links@) == dedup(post_links(*p)),
            opens == dedup(post_links(*p)).map_values(|u: Seq<char>| PostActionView::Open(u)),
            action_views(r@) =~= with_quoted + opens.take(i as int),
        decreases links@.len() - i,
    {
        let ghost before = r@;
        r.push(PostAction::Open(links[i].clone()));
        proof {
            assert(action_views(r@) =~= action_views(before).push(PostActionView::Open(links@[i as int]@)));
            assert(opens.take(i + 1) =~= opens.take(i as int).push(opens[i as int]));
        }
        i = i + 1;
    }
    proof {
        assert(opens.take(links@.len() as int) =~= opens);
        let sd = match session_did {
            Some(d) => Some(d@),
            None => None,
        };
        assert(own == (sd == Some(p.author.did@)));
        let like = match like_of(p.viewer) {
            Some(u) => PostActionView::Unlike(u),
            None => PostActionView::Like,
        };
        assert(base =~= seq![PostActionView::Profile, PostActionView::Reply, PostActionView::Repost, like]);
    }
    r
}

} // verus!
