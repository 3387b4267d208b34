use vstd::prelude::*;
use crate::actions::{Transition, ViewAction};
use crate::keys::{Key, KeyCode, CONTROL, NONE};
use crate::post::{ExternalView, ImageView, PostEmbed, PostView};
use crate::post_rows::count_of;
use crate::profile::{
    name_as_shown, name_with_handle, name_with_handle_str, profile_name, profile_name_as_str,
    profile_name_spans, Profile, ProfileBasic,
};
use crate::spans::{
    bold, bold_style, color_style, colored, dim, dim_style, line_of, line_of_spans, line_views,
    lines_of, plain, plain_lines, plain_style, span, span_str, span_views, spans_line, sv, text_line,
    Color, Line, LineView, Span, SpanView, Style,
};
use crate::text::{decimal, i64_to_decimal, signed_decimal, string_views, u64_to_decimal};
use crate::wrap::{wrap_text, wrapped};

verus! {

/// A repost that brought a post into a feed: who reposted it, and when the
/// repost was indexed (as shown).
#[derive(Clone, Debug)]
pub struct Repost {
    pub by: ProfileBasic,
    pub indexed_at: String,
}

/// The post that a post in a feed replies to: a visible post, or one that
/// cannot be shown.
#[derive(Clone, Debug)]
pub enum ReplyTo {
    Post(PostView),
    Other,
}

/// A post as a feed shows it: the post, the repost that brought it, and
/// what it replies to. The times in it are as the feed list shows them: the
/// post's with the date, the parent's without.
#[derive(Clone, Debug)]
pub struct FeedItem {
    pub post: PostView,
    pub repost: Option<Repost>,
    pub reply: Option<ReplyTo>,
}

/// How a feed item announces what its post embeds, where it embeds
/// something this client names.
pub open spec fn embed_note(e: Option<PostEmbed>) -> Option<Seq<char>> {
    match e {
        Some(PostEmbed::Images(v)) => Some("  embedded "@ + decimal(v@.len()) + " images"@),
        Some(PostEmbed::External(_)) => Some("  embedded external content"@),
        Some(PostEmbed::Record(_)) => Some("  embedded record"@),
        Some(PostEmbed::RecordWithMedia(_, _)) => Some("  embedded record with media"@),
        _ => None,
    }
}

/// The counts of a feed item: "  R replies, P reposts, L likes".
pub open spec fn counts_text(p: PostView) -> Seq<char> {
    "  "@ + signed_decimal(count_of(p.reply_count)) + " replies, "@ + signed_decimal(count_of(p.repost_count))
        + " reposts, "@ + signed_decimal(count_of(p.like_count)) + " likes"@
}

/// A line in a colour over the whole line.
pub open spec fn colored_line(t: Seq<char>, c: Color) -> LineView {
    LineView { spans: seq![sv(t, plain())], style: colored(c) }
}

/// The lines of a feed item whose post is a post record, for a list
/// `width` columns wide: the time in green, ": " and the author's name; who
/// reposted it, in blue; the post it replies to, where visible ("  Reply
/// to", its time and author, and its text indented by four); the text
/// indented by two; what it embeds, in yellow; its counts, dimmed. An item
/// whose record is not a post is not listed.
pub open spec fn feed_item_lines(item: FeedItem, width: usize) -> Option<Seq<LineView>> {
    match item.post.record {
        Some(rec) => {
            let p = item.post;
            let head = seq![spans_line(seq![sv(p.indexed_at@, colored(Color::Green)), sv(": "@, plain())]
                + profile_name_spans(p.author.display_name_view(), p.author.handle_view()))];
            let reposted = match item.repost {
                Some(r) => seq![colored_line("  Reposted by "@ + name_as_shown(r.by.display_name_view(), r.by.handle_view()), Color::Blue)],
                None => Seq::empty(),
            };
            let replied = match item.reply {
                Some(ReplyTo::Post(q)) => seq![spans_line(seq![
                    sv("  Reply to "@, colored(Color::Blue)),
                    sv(q.indexed_at@, colored(Color::Green)),
                    sv(": "@, plain()),
                ] + profile_name_spans(q.author.display_name_view(), q.author.handle_view()))] + match q.record {
                    Some(qr) => plain_lines(wrapped(qr.text@, width, "    "@, "    "@)),
                    None => Seq::empty(),
                },
                _ => Seq::empty(),
            };
            let embedded = match embed_note(p.embed) {
                Some(t) => seq![colored_line(t, Color::Yellow)],
                None => Seq::empty(),
            };
            Some(head + reposted + replied + plain_lines(wrapped(rec.text@, width, "  "@, "  "@)) + embedded
                + seq![LineView { spans: seq![sv(counts_text(p), plain())], style: dim() }])
        },
        None => None,
    }
}

fn colored_text_line(t: String, c: Color) -> (r: Line)
    ensures
        r@ == colored_line(t@, c),
{
    let mut l = line_of(t, plain_style());
    l.style = color_style(c);
    l
}

fn embed_note_of(e: &Option<PostEmbed>) -> (r: Option<String>)
    ensures
        match r {
            Some(s) => embed_note(*e) == Some(s@),
            None => embed_note(*e) is None,
        },
{
    match e {
        Some(PostEmbed::Images(v)) => {
            let mut s = String::from_str("  embedded ");
            s.append(u64_to_decimal(v.len() as u64).as_str());
            s.append(" images");
            Some(s)
        },
        Some(PostEmbed::External(_)) => Some(String::from_str("  embedded external content")),
        Some(PostEmbed::Record(_)) => Some(String::from_str("  embedded record")),
        Some(PostEmbed::RecordWithMedia(_, _)) => Some(String::from_str("  embedded record with media")),
        _ => None,
    }
}

fn counts_line_text(p: &PostView) -> (r: String)
    ensures
        r@ == counts_text(*p),
{
    let replies: i64 = match p.reply_count { Some(n) => n, None => 0 };
    let reposts: i64 = match p.repost_count { Some(n) => n, None => 0 };
    let likes: i64 = match p.like_count { Some(n) => n, None => 0 };
    let mut s = String::from_str("  ");
    s.append(i64_to_decimal(replies).as_str());
    s.append(" replies, ");
    s.append(i64_to_decimal(reposts).as_str());
    s.append(" reposts, ");
    s.append(i64_to_decimal(likes).as_str());
    s.append(" likes");
    s
}

fn push_spans(dst: &mut Vec<Span>, src: Vec<Span>)
    ensures
        span_views(final(dst)@) == span_views(old(dst)@) + span_views(src@),
{
    let mut src = src;
    let ghost a = old(dst)@;
    let ghost b = src@;
    dst.append(&mut src);
    assert(span_views(dst@) =~= span_views(a) + span_views(b));
}

fn push_lines(dst: &mut Vec<Line>, src: Vec<Line>)
    ensures
        line_views(final(dst)@) == line_views(old(dst)@) + line_views(src@),
{
    let mut src = src;
    let ghost a = old(dst)@;
    let ghost b = src@;
    dst.append(&mut src);
    assert(line_views(dst@) =~= line_views(a) + line_views(b));
}

fn push_line(dst: &mut Vec<Line>, l: Line)
    ensures
        line_views(final(dst)@) == line_views(old(dst)@).push(l@),
{
    let ghost a = old(dst)@;
    dst.push(l);
    assert(line_views(dst@) =~= line_views(a).push(dst@.last()@));
}

/// The lines of a feed item (see `feed_item_lines`).
pub fn feed_item_to_lines(item: &FeedItem, width: usize) -> (r: Option<Vec<Line>>)
    ensures
        match r {
            Some(v) => feed_item_lines(*item, width) == Some(line_views(v@)),
            None => feed_item_lines(*item, width) is None,
        },
{
    let rec = match &item.post.record {
        Some(rec) => rec,
        None => return None,
    };
    let p = &item.post;
    let mut lines: Vec<Line> = Vec::new();
    let mut head: Vec<Span> = Vec::new();
    head.push(span(p.indexed_at.clone(), color_style(Color::Green)));
    head.push(span_str(": ", plain_style()));
    push_spans(&mut head, profile_name(&p.author));
    assert(span_views(head@) =~= seq![sv(p.indexed_at@, colored(Color::Green)), sv(": "@, plain())]
        + profile_name_spans(p.author.display_name_view(), p.author.handle_view()));
    push_line(&mut lines, line_of_spans(head));
    let ghost l1 = line_views(lines@);
    match &item.repost {
        Some(r) => {
            let mut t = String::from_str("  Reposted by ");
            t.append(profile_name_as_str(&r.by));
            push_line(&mut lines, colored_text_line(t, Color::Blue));
        },
        None => {},
    }
    let ghost l2 = line_views(lines@);
    match &item.reply {
        Some(ReplyTo::Post(q)) => {
            let mut spans: Vec<Span> = Vec::new();
            spans.push(span_str("  Reply to ", color_style(Color::Blue)));
            spans.push(span(q.indexed_at.clone(), color_style(Color::Green)));
            spans.push(span_str(": ", plain_style()));
            push_spans(&mut spans, profile_name(&q.author));
            assert(span_views(spans@) =~= seq![
                sv("  Reply to "@, colored(Color::Blue)),
                sv(q.indexed_at@, colored(Color::Green)),
                sv(": "@, plain()),
            ] + profile_name_spans(q.author.display_name_view(), q.author.handle_view()));
            push_line(&mut lines, line_of_spans(spans));
            let ghost with_head = line_views(lines@);
            match &q.record {
                Some(qr) => {
                    let texts = wrap_text(qr.text.as_str(), width, "    ", "    ");
                    push_lines(&mut lines, lines_of(&texts));
                },
                None => {
                    assert(line_views(lines@) =~= with_head + Seq::<LineView>::empty());
                },
            }
        },
        _ => {},
    }
    let ghost l3 = line_views(lines@);
    let texts = wrap_text(rec.text.as_str(), width, "  ", "  ");
    push_lines(&mut lines, lines_of(&texts));
    let ghost l4 = line_views(lines@);
    match embed_note_of(&p.embed) {
        Some(t) => push_line(&mut lines, colored_text_line(t, Color::Yellow)),
        None => {},
    }
    let ghost l5 = line_views(lines@);
    let mut last = line_of(counts_line_text(p), plain_style());
    last.style = dim_style();
    push_line(&mut lines, last);
    proof {
        let head = seq![spans_line(seq![sv(p.indexed_at@, colored(Color::Green)), sv(": "@, plain())]
            + profile_name_spans(p.author.display_name_view(), p.author.handle_view()))];
        assert(l1 =~= head);
        let it = *item;
        let reposted = match it.repost {
            Some(r) => seq![colored_line("  Reposted by "@ + name_as_shown(r.by.display_name_view(), r.by.handle_view()), Color::Blue)],
            None => Seq::<LineView>::empty(),
        };
        assert(l2 =~= l1 + reposted);
        let replied = match it.reply {
            Some(ReplyTo::Post(q)) => seq![spans_line(seq![
                sv("  Reply to "@, colored(Color::Blue)),
                sv(q.indexed_at@, colored(Color::Green)),
                sv(": "@, plain()),
            ] + profile_name_spans(q.author.display_name_view(), q.author.handle_view()))] + match q.record {
                Some(qr) => plain_lines(wrapped(qr.text@, width, "    "@, "    "@)),
                None => Seq::<LineView>::empty(),
            },
            _ => Seq::<LineView>::empty(),
        };
        assert(l3 =~= l2 + replied);
        assert(l4 =~= l3 + plain_lines(wrapped(rec.text@, width, "  "@, "  "@)));
        let embedded = match embed_note(p.embed) {
            Some(t) => seq![colored_line(t, Color::Yellow)],
            None => Seq::<LineView>::empty(),
        };
        assert(l5 =~= l4 + embedded);
        let spec = feed_item_lines(*item, width);
        assert(spec is Some);
        assert(line_views(lines@) =~= spec->0);
    }
    Some(lines)
}

/// The feed list: every item whose post is a post record, newest last in
/// `items` and first in the list, each as its lines.
pub open spec fn feed_list(items: Seq<FeedItem>, width: usize) -> Seq<Seq<LineView>>
    decreases items.len(),
{
    if items.len() == 0 {
        Seq::empty()
    } else {
        let rest = feed_list(items.drop_last(), width);
        match feed_item_lines(items.last(), width) {
            Some(ls) => seq![ls] + rest,
            None => rest,
        }
    }
}

pub open spec fn text_views(s: Seq<Vec<Line>>) -> Seq<Seq<LineView>> {
    s.map_values(|t: Vec<Line>| line_views(t@))
}

/// The entries of the feed list, in the order shown (see `feed_list`).
pub fn feed_list_items(items: &Vec<FeedItem>, width: usize) -> (r: Vec<Vec<Line>>)
    ensures
        text_views(r@) == feed_list(items@, width),
{
    let mut r: Vec<Vec<Line>> = Vec::new();
    let mut i: usize = items.len();
    proof {
        assert(items@.take(items@.len() as int) =~= items@);
        assert(text_views(r@) + feed_list(items@.take(i as int), width) =~= feed_list(items@, width));
    }
    while i > 0
        invariant
            i <= items@.len(),
            text_views(r@) + feed_list(items@.take(i as int), width) == feed_list(items@, width),
        decreases i,
    {
        proof {
            assert(items@.take(i as int).drop_last() =~= items@.take(i - 1));
            assert(items@.take(i as int).last() == items@[i - 1]);
        }
        i = i - 1;
        match feed_item_to_lines(&items[i], width) {
            Some(lines) => {
                let ghost before = r@;
                r.push(lines);
                assert(text_views(r@) =~= text_views(before).push(line_views(r@.last()@)));
                assert(text_views(r@) + feed_list(items@.take(i as int), width) =~= text_views(before) + feed_list(
                    items@.take(i + 1),
                    width,
                ));
            },
            None => {},
        }
    }
    proof {
        assert(feed_list(items@.take(0), width) =~= Seq::<Seq<LineView>>::empty());
        assert(text_views(r@) + Seq::<Seq<LineView>>::empty() =~= text_views(r@));
    }
    r
}

/// The action a key press asks of a feed view: Ctrl-n or Down for the next
/// item, Ctrl-p or Up for the previous one, Ctrl-b to go back.
pub open spec fn spec_feed_key(k: Key) -> Option<ViewAction> {
    if (k.0 == KeyCode::Char('n') && k.1 == CONTROL) || (k.0 == KeyCode::Down && k.1 == NONE) {
        Some(ViewAction::NextItem)
    } else if (k.0 == KeyCode::Char('p') && k.1 == CONTROL) || (k.0 == KeyCode::Up && k.1 == NONE) {
        Some(ViewAction::PrevItem)
    } else if k.0 == KeyCode::Char('b') && k.1 == CONTROL {
        Some(ViewAction::Back)
    } else {
        None
    }
}

/// The action a key press asks of a feed view (see `spec_feed_key`).
pub fn feed_key(k: &Key) -> (r: Option<ViewAction>)
    ensures
        r == spec_feed_key(*k),
{
    let ctrl = k.1 == CONTROL;
    let bare = k.1 == NONE;
    match k.0 {
        KeyCode::Char(c) => {
            if c == 'n' && ctrl {
                Some(ViewAction::NextItem)
            } else if c == 'p' && ctrl {
                Some(ViewAction::PrevItem)
            } else if c == 'b' && ctrl {
                Some(ViewAction::Back)
            } else {
                None
            }
        },
        KeyCode::Down => if bare { Some(ViewAction::NextItem) } else { None },
        KeyCode::Up => if bare { Some(ViewAction::PrevItem) } else { None },
        _ => None,
    }
}

/// The view of a feed: its items and the selected entry of the list.
#[derive(Clone, Debug)]
pub struct FeedViewState {
    pub items: Vec<FeedItem>,
    pub selected: Option<usize>,
}

impl FeedViewState {
    /// The selection was set by a move, so it is below the largest index.
    pub open spec fn wf(&self) -> bool {
        self.selected matches Some(s) ==> s < usize::MAX
    }

    /// An empty feed, nothing selected.
    pub fn new() -> (r: FeedViewState)
        ensures
            r.wf(),
            r.items@.len() == 0,
            r.selected is None,
    {
        FeedViewState { items: Vec::new(), selected: None }
    }

    /// The view's answer to an action. Where there are items, Next moves
    /// the selection one down, stopping at the last item, and Prev one up,
    /// stopping at the first (both select the first where nothing is
    /// selected) and ask for a redraw. Back leaves the view. Everything else
    /// is ignored.
    pub fn update(&mut self, action: ViewAction) -> (r: Option<ViewAction>)
        requires
            old(self).wf(),
        ensures
            final(self).wf(),
            final(self).items@ == old(self).items@,
            (action is NextItem && old(self).items@.len() > 0) ==> r == Some(ViewAction::Render)
                && final(self).selected == Some(match old(self).selected {
                    Some(s) => if s + 1 < old(self).items@.len() { (s + 1) as usize } else { (old(self).items@.len() - 1) as usize },
                    None => 0usize,
                }),
            (action is PrevItem && old(self).items@.len() > 0) ==> r == Some(ViewAction::Render)
                && final(self).selected == Some(match old(self).selected {
                    Some(s) => if s >= 1 { (s - 1) as usize } else { 0usize },
                    None => 0usize,
                }),
            action is Back ==> r == Some(ViewAction::Transition(Transition::Pop))
                && final(self).selected == old(self).selected,
            !((action is NextItem || action is PrevItem) && old(self).items@.len() > 0) && !(action is Back)
                ==> r is None && final(self).selected == old(self).selected,
    {
        let len = self.items.len();
        match action {
            ViewAction::NextItem => {
                if len == 0 {
                    return None;
                }
                self.selected = Some(match self.selected {
                    Some(s) => if s + 1 < len { s + 1 } else { len - 1 },
                    None => 0,
                });
                Some(ViewAction::Render)
            },
            ViewAction::PrevItem => {
                if len == 0 {
                    return None;
                }
                self.selected = Some(match self.selected {
                    Some(s) => if s >= 1 { s - 1 } else { 0 },
                    None => 0,
                });
                Some(ViewAction::Render)
            },
            ViewAction::Back => Some(ViewAction::Transition(Transition::Pop)),
            _ => None,
        }
    }

    /// Takes the feed's items anew and asks for a redraw; the selection is
    /// kept.
    pub fn items_updated(&mut self, items: Vec<FeedItem>) -> (r: Option<ViewAction>)
        requires
            old(self).wf(),
        ensures
            final(self).wf(),
            final(self).items@ == items@,
            final(self).selected == old(self).selected,
            r == Some(ViewAction::Render),
    {
        self.items = items;
        Some(ViewAction::Render)
    }
}

/// What a feed view is showing, for its header.
#[derive(Clone, Debug)]
pub enum FeedHeader {
    /// A feed generator: its name and its creator.
    Feed { display_name: String, creator: ProfileBasic },
    List,
    /// A timeline, by its name.
    Timeline(String),
}

/// The header line of a feed view: a generator's name in bold, a space and
/// "by" its creator's display name (the handle where there is none),
/// dimmed; nothing for a list; a timeline's name.
pub open spec fn header_line(h: FeedHeader) -> LineView {
    match h {
        FeedHeader::Feed { display_name, creator } => spans_line(seq![
            sv(display_name@, bold()),
            sv(" "@, plain()),
            sv("by "@ + match creator.display_name {
                Some(d) => d@,
                None => creator.handle@,
            }, dim()),
        ]),
        FeedHeader::List => spans_line(Seq::empty()),
        FeedHeader::Timeline(t) => text_line(t@, plain()),
    }
}

/// The header line of a feed view (see `header_line`).
pub fn header_to_line(h: &FeedHeader) -> (r: Line)
    ensures
        r@ == header_line(*h),
{
    match h {
        FeedHeader::Feed { display_name, creator } => {
            let mut by = String::from_str("by ");
            match &creator.display_name {
                Some(d) => by.append(d.as_str()),
                None => by.append(creator.handle.as_str()),
            }
            let mut spans: Vec<Span> = Vec::new();
            spans.push(span(display_name.clone(), bold_style()));
            spans.push(span_str(" ", plain_style()));
            spans.push(span(by, dim_style()));
            let l = line_of_spans(spans);
            assert(l@.spans =~= header_line(*h).spans);
            l
        },
        FeedHeader::List => {
            let l = line_of_spans(Vec::new());
            assert(l@.spans =~= Seq::<SpanView>::empty());
            l
        },
        FeedHeader::Timeline(t) => line_of(t.clone(), plain_style()),
    }
}

/// A detail line: a dimmed label and its value.
pub open spec fn detail(label: Seq<char>, value: Seq<char>) -> LineView {
    spans_line(seq![sv(label, dim()), sv(value, plain())])
}

/// A dimmed heading line.
pub open spec fn heading(t: Seq<char>) -> LineView {
    LineView { spans: seq![sv(t, plain())], style: dim() }
}

/// A name with its handle, the display name counting even when empty.
pub open spec fn raw_name(p: ProfileBasic) -> Seq<char> {
    name_with_handle(match p.display_name {
        Some(d) => Some(d@),
        None => None,
    }, p.handle@)
}

/// The details of what a post embeds: its images as "- [alt](url)" lines,
/// or its link card (URL, title, thumbnail where there is one,
/// description); a quoted record only gets the heading.
pub open spec fn embed_details(e: Option<PostEmbed>) -> Seq<LineView> {
    match e {
        Some(PostEmbed::Images(v)) => seq![heading("Embed: "@), heading("  Image: "@)] + v@.map_values(
            |i: ImageView| spans_line(seq![
                sv("  - ["@, dim()),
                sv(i.alt@, plain()),
                sv("]("@, dim()),
                sv(i.fullsize@, plain()),
                sv(")"@, dim()),
            ]),
        ),
        Some(PostEmbed::External(x)) => seq![
            heading("Embed: "@),
            heading("  External: "@),
            detail("    URL: "@, x.uri@),
            detail("    Title: "@, x.title@),
        ] + match x.thumb {
            Some(t) => seq![detail("    Thumb: "@, t@)],
            None => Seq::empty(),
        } + seq![detail("    Description: "@, x.description@)],
        Some(PostEmbed::Record(_)) => seq![heading("Embed: "@)],
        Some(PostEmbed::RecordWithMedia(_, _)) => seq![heading("Embed: "@)],
        _ => Seq::empty(),
    }
}

/// The lines of the post detail panel for a feed item, its times as the
/// caller wrote them: CID, URI, time, the author's DID, handle and display
/// name (where it has one), what it embeds, who reposted it and when, what
/// it replies to (time, author, text), and the heading of its text.
pub open spec fn detail_lines(item: FeedItem) -> Seq<LineView> {
    let p = item.post;
    seq![
        detail("CID: "@, p.cid@),
        detail("URI: "@, p.uri@),
        detail("Indexed At: "@, p.indexed_at@),
        heading("Author: "@),
        detail("  DID: "@, p.author.did@),
        detail("  Handle: "@, p.author.handle@),
    ] + match p.author.display_name {
        Some(d) => seq![detail("  Display Name: "@, d@)],
        None => Seq::empty(),
    } + embed_details(p.embed) + match item.repost {
        Some(r) => seq![heading("Reposted: "@), detail("  By: "@, raw_name(r.by)), detail("  Indexed At: "@, r.indexed_at@)],
        None => Seq::empty(),
    } + match item.reply {
        Some(ReplyTo::Post(q)) => seq![
            heading("Reply To: "@),
            detail("  Indexed At: "@, q.indexed_at@),
            detail("  Author: "@, raw_name(q.author)),
        ] + match q.record {
            Some(qr) => seq![detail("  Text: "@, qr.text@)],
            None => Seq::empty(),
        },
        Some(ReplyTo::Other) => seq![heading("Reply To: "@)],
        None => Seq::empty(),
    } + seq![spans_line(seq![sv("Text: "@, dim())])]
}

fn detail_line(label: &str, value: String) -> (r: Line)
    ensures
        r@ == detail(label@, value@),
{
    let mut spans: Vec<Span> = Vec::new();
    spans.push(span_str(label, dim_style()));
    spans.push(span(value, plain_style()));
    let l = line_of_spans(spans);
    assert(l@.spans =~= detail(label@, value@).spans);
    l
}

fn heading_line(t: &str) -> (r: Line)
    ensures
        r@ == heading(t@),
{
    let mut l = line_of(String::from_str(t), plain_style());
    l.style = dim_style();
    l
}

fn embed_detail_lines(e: &Option<PostEmbed>) -> (r: Vec<Line>)
    ensures
        line_views(r@) == embed_details(*e),
{
    let mut r: Vec<Line> = Vec::new();
    match e {
        Some(PostEmbed::Images(v)) => {
            push_line(&mut r, heading_line("Embed: "));
            push_line(&mut r, heading_line("  Image: "));
            let ghost start = line_views(r@);
            let ghost target = v@.map_values(
                |i: ImageView| spans_line(seq![
                    sv("  - ["@, dim()),
                    sv(i.alt@, plain()),
                    sv("]("@, dim()),
                    sv(i.fullsize@, plain()),
                    sv(")"@, dim()),
                ]),
            );
            let mut k: usize = 0;
            while k < v.len()
                invariant
                    k <= v@.len(),
                    target == v@.map_values(
                        |i: ImageView| spans_line(seq![
                            sv("  - ["@, dim()),
                            sv(i.alt@, plain()),
                            sv("]("@, dim()),
                            sv(i.fullsize@, plain()),
                            sv(")"@, dim()),
                        ]),
                    ),
                    line_views(r@) =~= start + target.take(k as int),
                decreases v@.len() - k,
            {
                let mut spans: Vec<Span> = Vec::new();
                spans.push(span_str("  - [", dim_style()));
                spans.push(span(v[k].alt.clone(), plain_style()));
                spans.push(span_str("](", dim_style()));
                spans.push(span(v[k].fullsize.clone(), plain_style()));
                spans.push(span_str(")", dim_style()));
                let l = line_of_spans(spans);
                assert(l@.spans =~= target[k as int].spans);
                push_line(&mut r, l);
                assert(target.take(k + 1) =~= target.take(k as int).push(target[k as int]));
                k = k + 1;
            }
            assert(target.take(v@.len() as int) =~= target);
        },
        Some(PostEmbed::External(x)) => {
            push_line(&mut r, heading_line("Embed: "));
            push_line(&mut r, heading_line("  External: "));
            push_line(&mut r, detail_line("    URL: ", x.uri.clone()));
            push_line(&mut r, detail_line("    Title: ", x.title.clone()));
            match &x.thumb {
                Some(t) => push_line(&mut r, detail_line("    Thumb: ", t.clone())),
                None => {},
            }
            push_line(&mut r, detail_line("    Description: ", x.description.clone()));
        },
        Some(PostEmbed::Record(_)) => {
            push_line(&mut r, heading_line("Embed: "));
        },
        Some(PostEmbed::RecordWithMedia(_, _)) => {
            push_line(&mut r, heading_line("Embed: "));
        },
        _ => {},
    }
    assert(line_views(r@) =~= embed_details(*e));
    r
}

/// The lines of the post detail panel (see `detail_lines`).
#[verifier::rlimit(40)]
pub fn post_detail_lines(item: &FeedItem) -> (r: Vec<Line>)
    ensures
        line_views(r@) == detail_lines(*item),
{
    let p = &item.post;
    let mut r: Vec<Line> = Vec::new();
    push_line(&mut r, detail_line("CID: ", p.cid.clone()));
    push_line(&mut r, detail_line("URI: ", p.uri.clone()));
    push_line(&mut r, detail_line("Indexed At: ", p.indexed_at.clone()));
    push_line(&mut r, heading_line("Author: "));
    push_line(&mut r, detail_line("  DID: ", p.author.did.clone()));
    push_line(&mut r, detail_line("  Handle: ", p.author.handle.clone()));
    match &p.author.display_name {
        Some(d) => push_line(&mut r, detail_line("  Display Name: ", d.clone())),
        None => {},
    }
    let ghost a = line_views(r@);
    push_lines(&mut r, embed_detail_lines(&p.embed));
    let ghost b = line_views(r@);
    match &item.repost {
        Some(rp) => {
            push_line(&mut r, heading_line("Reposted: "));
            push_line(&mut r, detail_line("  By: ", name_with_handle_str(&rp.by.display_name, rp.by.handle.as_str())));
            push_line(&mut r, detail_line("  Indexed At: ", rp.indexed_at.clone()));
        },
        None => {},
    }
    let ghost c = line_views(r@);
    match &item.reply {
        Some(ReplyTo::Post(q)) => {
            push_line(&mut r, heading_line("Reply To: "));
            push_line(&mut r, detail_line("  Indexed At: ", q.indexed_at.clone()));
            push_line(&mut r, detail_line("  Author: ", name_with_handle_str(&q.author.display_name, q.author.handle.as_str())));
            match &q.record {
                Some(qr) => push_line(&mut r, detail_line("  Text: ", qr.text.clone())),
                None => {},
            }
        },
        Some(ReplyTo::Other) => {
            push_line(&mut r, heading_line("Reply To: "));
        },
        None => {},
    }
    let ghost d = line_views(r@);
    let mut spans: Vec<Span> = Vec::new();
    spans.push(span_str("Text: ", dim_style()));
    let last = line_of_spans(spans);
    assert(last@.spans =~= seq![sv("Text: "@, dim())]);
    push_line(&mut r, last);
    assert(line_views(r@) =~= detail_lines(*item));
    r
}

} // verus!
