use vstd::prelude::*;
use crate::post::{
    PostAction, PostActionView,
    ExternalView, Facet, FacetFeature, ImageView, Media, PostEmbed, PostRecord, PostView,
    RecordView, Viewer,
};
use crate::profile::{profile_name, profile_name_spans, Label, Profile, ProfileBasic};
use crate::spans::{
    bold, bold_style, color_style, colored, dim, dim_style, line_of, line_of_spans, line_views,
    lines_of, plain, plain_lines, plain_style, span, span_str, span_views, spans_line, sv, text_line,
    underlined, underlined_style, Color, Line, LineView, Span, SpanView, Style,
};
use crate::text::{i64_to_decimal, joined, signed_decimal, string_views, u64_to_decimal, decimal};
use crate::wrap::{wrap_text, wrapped};

verus! {

/// A row of the table that shows a post: a field, with its label (drawn
/// grey, right-aligned), its lines and the style of its cell; or a banner
/// line across the table.
#[derive(Debug)]
pub enum Row {
    Field { label: String, lines: Vec<Line>, style: Style },
    Banner(String),
}

pub ghost enum RowView {
    Field { label: Seq<char>, lines: Seq<LineView>, style: Style },
    Banner(Seq<char>),
}

impl View for Row {
    type V = RowView;

    open spec fn view(&self) -> RowView {
        match self {
            Row::Field { label, lines, style } => RowView::Field {
                label: label@,
                lines: line_views(lines@),
                style: *style,
            },
            Row::Banner(t) => RowView::Banner(t@),
        }
    }
}

pub open spec fn row_views(s: Seq<Row>) -> Seq<RowView> {
    s.map_values(|r: Row| r@)
}

/// A field row in the default cell style.
pub open spec fn field(label: Seq<char>, lines: Seq<LineView>) -> RowView {
    RowView::Field { label, lines, style: plain() }
}

/// `s` right-aligned in `width` columns: spaces before it up to that width.
pub open spec fn padded(s: Seq<char>, width: nat) -> Seq<char> {
    if s.len() < width {
        Seq::new((width - s.len()) as nat, |i: int| ' ') + s
    } else {
        s
    }
}

/// `s` right-aligned in `width` columns (see `padded`).
pub fn pad_left(s: String, width: usize) -> (r: String)
    ensures
        r@ == padded(s@, width as nat),
{
    let n = s.as_str().unicode_len();
    if n < width {
        let mut r = String::new();
        let mut i: usize = 0;
        while i < width - n
            invariant
                n < width,
                i <= width - n,
                r@ =~= Seq::new(i as nat, |k: int| ' '),
            decreases width - n - i,
        {
            crate::text::push_char(&mut r, ' ');
            i = i + 1;
        }
        r.append(s.as_str());
        r
    } else {
        s
    }
}

/// A count as shown: zero where the service gave none.
pub open spec fn count_of(c: Option<i64>) -> int {
    match c {
        Some(n) => n as int,
        None => 0,
    }
}

/// Unstyled where `b`, dimmed otherwise.
pub open spec fn emphasis(b: bool) -> Style {
    if b { plain() } else { dim() }
}

/// Whether the account reposted, and whether it liked, the post.
pub open spec fn viewer_marks(v: Option<Viewer>) -> (bool, bool) {
    match v {
        Some(viewer) => (viewer.repost is Some, viewer.like is Some),
        None => (false, false),
    }
}

/// The counts of a post as styled pieces, each number right-aligned in
/// `pad` columns: "N replies, N reposts, N quotes, N likes", each part
/// dimmed where its count is not positive (the quotes part going by the
/// reposts), the separators dimmed, the reposts number green where the
/// account reposted and the likes number red where it liked.
pub open spec fn counts_spans(p: PostView, pad: nat) -> Seq<SpanView> {
    let (reposted, liked) = viewer_marks(p.viewer);
    let replies = count_of(p.reply_count);
    let reposts = count_of(p.repost_count);
    let quotes = count_of(p.quote_count);
    let likes = count_of(p.like_count);
    seq![
        sv(padded(signed_decimal(replies), pad) + " replies"@, emphasis(replies > 0)),
        sv(", "@, dim()),
        sv(padded(signed_decimal(reposts), pad), if reposted { colored(Color::Green) } else { emphasis(reposts > 0) }),
        sv(" reposts"@, emphasis(reposts > 0)),
        sv(", "@, dim()),
        sv(padded(signed_decimal(quotes), pad), emphasis(reposts > 0)),
        sv(" quotes"@, emphasis(reposts > 0)),
        sv(", "@, dim()),
        sv(padded(signed_decimal(likes), pad), if liked { colored(Color::Red) } else { emphasis(likes > 0) }),
        sv(" likes"@, emphasis(likes > 0)),
    ]
}

fn emphasis_style(b: bool) -> (r: Style)
    ensures
        r == emphasis(b),
{
    if b { plain_style() } else { dim_style() }
}

/// The counts of a post as styled pieces (see `counts_spans`).
pub fn counts(p: &PostView, pad: usize) -> (r: Vec<Span>)
    ensures
        span_views(r@) == counts_spans(*p, pad as nat),
{
    let (reposted, liked) = match &p.viewer {
        Some(v) => (v.repost.is_some(), v.like.is_some()),
        None => (false, false),
    };
    let replies: i64 = match p.reply_count { Some(n) => n, None => 0 };
    let reposts: i64 = match p.repost_count { Some(n) => n, None => 0 };
    let quotes: i64 = match p.quote_count { Some(n) => n, None => 0 };
    let likes: i64 = match p.like_count { Some(n) => n, None => 0 };
    let mut r: Vec<Span> = Vec::new();
    let mut first = pad_left(i64_to_decimal(replies), pad);
    first.append(" replies");
    r.push(span(first, emphasis_style(replies > 0)));
    r.push(span_str(", ", dim_style()));
    r.push(span(pad_left(i64_to_decimal(reposts), pad), if reposted { color_style(Color::Green) } else { emphasis_style(reposts > 0) }));
    r.push(span_str(" reposts", emphasis_style(reposts > 0)));
    r.push(span_str(", ", dim_style()));
    r.push(span(pad_left(i64_to_decimal(quotes), pad), emphasis_style(reposts > 0)));
    r.push(span_str(" quotes", emphasis_style(reposts > 0)));
    r.push(span_str(", ", dim_style()));
    r.push(span(pad_left(i64_to_decimal(likes), pad), if liked { color_style(Color::Red) } else { emphasis_style(likes > 0) }));
    r.push(span_str(" likes", emphasis_style(likes > 0)));
    assert(span_views(r@) =~= counts_spans(*p, pad as nat));
    r
}

/// Whether `s` ends with "/self".
pub open spec fn ends_with_self(s: Seq<char>) -> bool {
    s.len() >= 5 && s.subrange(s.len() - 5, s.len() as int) == seq!['/', 's', 'e', 'l', 'f']
}

/// Whether `s` ends with "/self" (a label an account put on itself).
pub fn is_self_label(s: &str) -> (r: bool)
    ensures
        r == ends_with_self(s@),
{
    let n = s.unicode_len();
    if n < 5 {
        return false;
    }
    let r = s.get_char(n - 5) == '/' && s.get_char(n - 4) == 's' && s.get_char(n - 3) == 'e'
        && s.get_char(n - 2) == 'l' && s.get_char(n - 1) == 'f';
    proof {
        let t = s@.subrange(n - 5, n as int);
        if r {
            assert(t =~= seq!['/', 's', 'e', 'l', 'f']);
        } else if t == seq!['/', 's', 'e', 'l', 'f'] {
            assert(t[0] == s@[n - 5]);
            assert(t[1] == s@[n - 4]);
            assert(t[2] == s@[n - 3]);
            assert(t[3] == s@[n - 2]);
            assert(t[4] == s@[n - 1]);
        }
    }
    r
}

/// A label as a line: its value in magenta, and, where the labeller is not
/// the labelled account itself, a space and "by" the labeller, dimmed.
pub open spec fn label_line(l: Label) -> LineView {
    if ends_with_self(l.uri@) {
        spans_line(seq![sv(l.val@, colored(Color::Magenta))])
    } else {
        spans_line(seq![sv(l.val@, colored(Color::Magenta)), sv(" "@, plain()), sv("by "@ + l.src@, dim())])
    }
}

pub open spec fn label_lines(labels: Seq<Label>) -> Seq<LineView> {
    labels.map_values(|l: Label| label_line(l))
}

/// A label as a line (see `label_line`).
pub fn label_to_line(l: &Label) -> (r: Line)
    ensures
        r@ == label_line(*l),
{
    let mut spans: Vec<Span> = Vec::new();
    spans.push(span(l.val.clone(), color_style(Color::Magenta)));
    if !is_self_label(l.uri.as_str()) {
        spans.push(span_str(" ", plain_style()));
        let mut by = String::from_str("by ");
        by.append(l.src.as_str());
        spans.push(span(by, dim_style()));
    }
    let r = line_of_spans(spans);
    assert(r@.spans =~= label_line(*l).spans);
    r
}

/// The labels as lines, one each.
pub fn labels_to_lines(labels: &Vec<Label>) -> (r: Vec<Line>)
    ensures
        line_views(r@) == label_lines(labels@),
{
    let mut r: Vec<Line> = Vec::new();
    let mut i: usize = 0;
    while i < labels.len()
        invariant
            i <= labels@.len(),
            line_views(r@) =~= label_lines(labels@).take(i as int),
        decreases labels@.len() - i,
    {
        let ghost before = r@;
        r.push(label_to_line(&labels[i]));
        assert(line_views(r@) =~= line_views(before).push(r@.last()@));
        assert(label_lines(labels@).take(i + 1) =~= label_lines(labels@).take(i as int).push(label_line(labels@[i as int])));
        i = i + 1;
    }
    assert(label_lines(labels@).take(labels@.len() as int) =~= label_lines(labels@));
    r
}

/// The lines that show the author of a post: the handle; the display name
/// in bold, where it is not empty; a line per label of the account.
pub open spec fn author_lines(a: ProfileBasic) -> Seq<LineView> {
    let names = match a.display_name_view() {
        Some(d) => seq![text_line(a.handle@, plain()), LineView { spans: seq![sv(d, plain())], style: bold() }],
        None => seq![text_line(a.handle@, plain())],
    };
    names + label_lines(a.labels@)
}

/// The lines that show the author of a post (see `author_lines`).
pub fn author_to_lines(a: &ProfileBasic) -> (r: Vec<Line>)
    ensures
        line_views(r@) == author_lines(*a),
{
    let mut r: Vec<Line> = Vec::new();
    r.push(line_of(a.handle.clone(), plain_style()));
    match a.display_name() {
        Some(d) => {
            let mut l = line_of(String::from_str(d), plain_style());
            l.style = bold_style();
            r.push(l);
        },
        None => {},
    }
    let ghost names = line_views(r@);
    let mut labels = labels_to_lines(&a.labels);
    r.append(&mut labels);
    assert(line_views(r@) =~= author_lines(*a));
    r
}

/// A rich-text feature as text: "Mention(did)", "Link(uri)", "Tag(tag)" or
/// "Unknown".
pub open spec fn feature_text(f: FacetFeature) -> Seq<char> {
    match f {
        FacetFeature::Mention(d) => "Mention("@ + d@ + ")"@,
        FacetFeature::Link(u) => "Link("@ + u@ + ")"@,
        FacetFeature::Tag(t) => "Tag("@ + t@ + ")"@,
        FacetFeature::Unknown => "Unknown"@,
    }
}

/// A facet as a line: its byte range "[start-end] " in cyan, then its
/// features, separated by commas.
pub open spec fn facet_line(f: Facet) -> LineView {
    spans_line(seq![
        sv(seq!['['] + decimal(f.byte_start as nat) + seq!['-'] + decimal(f.byte_end as nat) + seq![']', ' '], colored(Color::Cyan)),
        sv(joined(f.features@.map_values(|x: FacetFeature| feature_text(x)), ", "@), plain()),
    ])
}

fn feature_to_text(f: &FacetFeature) -> (r: String)
    ensures
        r@ == feature_text(*f),
{
    match f {
        FacetFeature::Mention(d) => {
            let mut r = String::from_str("Mention(");
            r.append(d.as_str());
            r.append(")");
            r
        },
        FacetFeature::Link(u) => {
            let mut r = String::from_str("Link(");
            r.append(u.as_str());
            r.append(")");
            r
        },
        FacetFeature::Tag(t) => {
            let mut r = String::from_str("Tag(");
            r.append(t.as_str());
            r.append(")");
            r
        },
        FacetFeature::Unknown => String::from_str("Unknown"),
    }
}

/// A facet as a line (see `facet_line`).
pub fn facet_to_line(f: &Facet) -> (r: Line)
    ensures
        r@ == facet_line(*f),
{
    let mut texts: Vec<String> = Vec::new();
    let mut i: usize = 0;
    let ghost all = f.features@.map_values(|x: FacetFeature| feature_text(x));
    while i < f.features.len()
        invariant
            i <= f.features@.len(),
            all == f.features@.map_values(|x: FacetFeature| feature_text(x)),
            string_views(texts@) =~= all.take(i as int),
        decreases f.features@.len() - i,
    {
        let ghost before = texts@;
        texts.push(feature_to_text(&f.features[i]));
        assert(string_views(texts@) =~= string_views(before).push(texts@.last()@));
        assert(all.take(i + 1) =~= all.take(i as int).push(all[i as int]));
        i = i + 1;
    }
    assert(all.take(f.features@.len() as int) =~= all);
    let mut range = crate::text::char_string('[');
    range.append(u64_to_decimal(f.byte_start as u64).as_str());
    range.append("-");
    range.append(u64_to_decimal(f.byte_end as u64).as_str());
    range.append("] ");
    let mut spans: Vec<Span> = Vec::new();
    spans.push(span(range, color_style(Color::Cyan)));
    spans.push(span(crate::text::join(&texts, ", "), plain_style()));
    let r = line_of_spans(spans);
    proof {
        reveal_strlit("-");
        reveal_strlit("] ");
        assert("-"@ =~= seq!['-']);
        assert("] "@ =~= seq![']', ' ']);
        assert(r@.spans =~= facet_line(*f).spans);
    }
    r
}

pub open spec fn facet_lines(facets: Seq<Facet>) -> Seq<LineView> {
    facets.map_values(|f: Facet| facet_line(f))
}

/// The facets as lines, one each.
pub fn facets_to_lines(facets: &Vec<Facet>) -> (r: Vec<Line>)
    ensures
        line_views(r@) == facet_lines(facets@),
{
    let mut r: Vec<Line> = Vec::new();
    let mut i: usize = 0;
    while i < facets.len()
        invariant
            i <= facets@.len(),
            line_views(r@) =~= facet_lines(facets@).take(i as int),
        decreases facets@.len() - i,
    {
        let ghost before = r@;
        r.push(facet_to_line(&facets[i]));
        assert(line_views(r@) =~= line_views(before).push(r@.last()@));
        assert(facet_lines(facets@).take(i + 1) =~= facet_lines(facets@).take(i as int).push(facet_line(facets@[i as int])));
        i = i + 1;
    }
    assert(facet_lines(facets@).take(facets@.len() as int) =~= facet_lines(facets@));
    r
}

/// An embedded image as a line: "[alt](", the full-size URL underlined, ")".
pub open spec fn image_line(i: ImageView) -> LineView {
    spans_line(seq![sv(seq!['['] + i.alt@ + seq![']', '('], plain()), sv(i.fullsize@, underlined()), sv(seq![')'], plain())])
}

pub open spec fn image_lines(images: Seq<ImageView>) -> Seq<LineView> {
    images.map_values(|i: ImageView| image_line(i))
}

/// The embedded images as lines, one each (see `image_line`).
pub fn images_lines(images: &Vec<ImageView>) -> (r: Vec<Line>)
    ensures
        line_views(r@) == image_lines(images@),
{
    let mut r: Vec<Line> = Vec::new();
    let mut i: usize = 0;
    while i < images.len()
        invariant
            i <= images@.len(),
            line_views(r@) =~= image_lines(images@).take(i as int),
        decreases images@.len() - i,
    {
        let img = &images[i];
        let mut head = crate::text::char_string('[');
        head.append(img.alt.as_str());
        head.append("](");
        let mut spans: Vec<Span> = Vec::new();
        spans.push(span(head, plain_style()));
        spans.push(span(img.fullsize.clone(), underlined_style()));
        spans.push(span(crate::text::char_string(')'), plain_style()));
        let line = line_of_spans(spans);
        proof {
            reveal_strlit("](");
            assert("]("@ =~= seq![']', '(']);
            assert(line@.spans =~= image_line(*img).spans);
        }
        let ghost before = r@;
        r.push(line);
        assert(line_views(r@) =~= line_views(before).push(r@.last()@));
        assert(image_lines(images@).take(i + 1) =~= image_lines(images@).take(i as int).push(image_line(images@[i as int])));
        i = i + 1;
    }
    assert(image_lines(images@).take(images@.len() as int) =~= image_lines(images@));
    r
}

/// An external link as lines: its URI dimmed and underlined, its title in
/// bold, its description.
pub open spec fn external_lines(e: ExternalView) -> Seq<LineView> {
    seq![
        text_line(e.uri@, Style { fg: None, bold: false, dim: true, underlined: true }),
        LineView { spans: seq![sv(e.title@, plain())], style: bold() },
        text_line(e.description@, plain()),
    ]
}

/// An external link as lines (see `external_lines`).
pub fn external_to_lines(e: &ExternalView) -> (r: Vec<Line>)
    ensures
        line_views(r@) == external_lines(*e),
{
    let mut r: Vec<Line> = Vec::new();
    r.push(line_of(e.uri.clone(), Style { fg: None, bold: false, dim: true, underlined: true }));
    let mut title = line_of(e.title.clone(), plain_style());
    title.style = bold_style();
    r.push(title);
    r.push(line_of(e.description.clone(), plain_style()));
    assert(line_views(r@) =~= external_lines(*e));
    r
}

/// A quoted record as lines: for a post, the time it was indexed in green,
/// its author's name, and its text wrapped to `width`; nothing otherwise.
pub open spec fn record_lines(r: RecordView, width: usize) -> Seq<LineView> {
    match r {
        RecordView::Post(v) => match v.value {
            Some(rec) => seq![
                LineView { spans: seq![sv(v.indexed_at@, plain())], style: colored(Color::Green) },
                spans_line(profile_name_spans(v.author.display_name_view(), v.author.handle_view())),
            ] + plain_lines(wrapped(rec.text@, width, Seq::empty(), Seq::empty())),
            None => Seq::empty(),
        },
        RecordView::Other => Seq::empty(),
    }
}

/// The text of a post wrapped to `width`, as unstyled lines.
pub fn wrapped_lines(text: &str, width: usize) -> (r: Vec<Line>)
    ensures
        line_views(r@) == plain_lines(wrapped(text@, width, Seq::empty(), Seq::empty())),
{
    let lines = wrap_text(text, width, "", "");
    proof {
        reveal_strlit("");
        assert(""@ =~= Seq::<char>::empty());
    }
    lines_of(&lines)
}

/// A quoted record as lines (see `record_lines`).
pub fn record_to_lines(r: &RecordView, width: usize) -> (out: Vec<Line>)
    ensures
        line_views(out@) == record_lines(*r, width),
{
    match r {
        RecordView::Post(v) => match &v.value {
            Some(rec) => {
                let mut out: Vec<Line> = Vec::new();
                let mut time = line_of(v.indexed_at.clone(), plain_style());
                time.style = color_style(Color::Green);
                out.push(time);
                out.push(line_of_spans(profile_name(&v.author)));
                let mut text = wrapped_lines(rec.text.as_str(), width);
                out.append(&mut text);
                assert(line_views(out@) =~= record_lines(*r, width));
                out
            },
            None => {
                let out: Vec<Line> = Vec::new();
                assert(line_views(out@) =~= record_lines(*r, width));
                out
            },
        },
        RecordView::Other => {
            let out: Vec<Line> = Vec::new();
            assert(line_views(out@) =~= record_lines(*r, width));
            out
        },
    }
}

/// A yellow line naming a kind of embed.
pub open spec fn kind_line(k: Seq<char>) -> LineView {
    LineView { spans: seq![sv(k, plain())], style: colored(Color::Yellow) }
}

/// The lines of what a post embeds: the kind ("images", "external",
/// "record", "recordWithMedia") in yellow, then its images, link card
/// and quoted post.
pub open spec fn embed_lines(e: PostEmbed, width: usize) -> Seq<LineView> {
    match e {
        PostEmbed::Images(v) => seq![kind_line("images"@)] + image_lines(v@),
        PostEmbed::External(x) => seq![kind_line("external"@)] + external_lines(x),
        PostEmbed::Record(r) => seq![kind_line("record"@)] + record_lines(r, width),
        PostEmbed::RecordWithMedia(m, r) => seq![kind_line("recordWithMedia"@)] + (match m {
            Media::Images(v) => image_lines(v@),
            Media::External(x) => external_lines(x),
            Media::Other => Seq::empty(),
        }) + record_lines(r, width),
        PostEmbed::Other => Seq::empty(),
    }
}

fn kind_to_line(k: &str) -> (r: Line)
    ensures
        r@ == kind_line(k@),
{
    let mut l = line_of(String::from_str(k), plain_style());
    l.style = color_style(Color::Yellow);
    l
}

/// The lines of what a post embeds (see `embed_lines`).
pub fn embed_to_lines(e: &PostEmbed, width: usize) -> (r: Vec<Line>)
    ensures
        line_views(r@) == embed_lines(*e, width),
{
    let mut r: Vec<Line> = Vec::new();
    match e {
        PostEmbed::Images(v) => {
            r.push(kind_to_line("images"));
            let mut more = images_lines(v);
            r.append(&mut more);
        },
        PostEmbed::External(x) => {
            r.push(kind_to_line("external"));
            let mut more = external_to_lines(x);
            r.append(&mut more);
        },
        PostEmbed::Record(rec) => {
            r.push(kind_to_line("record"));
            let mut more = record_to_lines(rec, width);
            r.append(&mut more);
        },
        PostEmbed::RecordWithMedia(m, rec) => {
            r.push(kind_to_line("recordWithMedia"));
            let mut media = match m {
                Media::Images(v) => images_lines(v),
                Media::External(x) => external_to_lines(x),
                Media::Other => Vec::new(),
            };
            r.append(&mut media);
            let mut more = record_to_lines(rec, width);
            r.append(&mut more);
        },
        PostEmbed::Other => {},
    }
    assert(line_views(r@) =~= embed_lines(*e, width));
    r
}

/// The row of a post's languages, where it is tagged with any: "Langs:"
/// and the tags joined by ", ".
pub open spec fn langs_rows(langs: Option<Vec<String>>) -> Seq<RowView> {
    match langs {
        Some(v) => if v@.len() > 0 {
            seq![field("Langs:"@, seq![text_line(joined(string_views(v@), ", "@), plain())])]
        } else {
            Seq::empty()
        },
        None => Seq::empty(),
    }
}

/// The row of a post's labels, where it has any.
pub open spec fn labels_rows(labels: Option<Vec<Label>>) -> Seq<RowView> {
    match labels {
        Some(v) => if v@.len() > 0 {
            seq![field("Labels:"@, label_lines(v@))]
        } else {
            Seq::empty()
        },
        None => Seq::empty(),
    }
}

/// The row of a post's facets, where it has a list of them (even empty).
pub open spec fn facets_rows(facets: Option<Vec<Facet>>) -> Seq<RowView> {
    match facets {
        Some(v) => seq![field("Facets"@, facet_lines(v@))],
        None => Seq::empty(),
    }
}

/// The row of what a post embeds, where it embeds anything.
pub open spec fn embed_rows(embed: Option<PostEmbed>, width: usize) -> Seq<RowView> {
    match embed {
        Some(e) => seq![field("Embed:"@, embed_lines(e, width))],
        None => Seq::empty(),
    }
}

/// The rows that show a post whose record is a post, its text wrapped to
/// `width`: CID, time indexed (in green), author, counts, text; then its
/// languages, labels, facets and embed where it has them. A post whose
/// record is something else has no rows.
pub open spec fn spec_post_rows(p: PostView, width: usize) -> Option<Seq<RowView>> {
    match p.record {
        Some(rec) => Some(seq![
            field("CID:"@, seq![text_line(p.cid@, plain())]),
            RowView::Field {
                label: "IndexedAt:"@,
                lines: seq![text_line(p.indexed_at@, plain())],
                style: colored(Color::Green),
            },
            field("Author:"@, author_lines(p.author)),
            field("Counts:"@, seq![spans_line(counts_spans(p, 0))]),
            field("Text:"@, plain_lines(wrapped(rec.text@, width, Seq::empty(), Seq::empty()))),
        ] + langs_rows(rec.langs) + labels_rows(p.labels) + facets_rows(rec.facets) + embed_rows(p.embed, width)),
        None => None,
    }
}

fn field_row(label: &str, lines: Vec<Line>) -> (r: Row)
    ensures
        r@ == field(label@, line_views(lines@)),
{
    Row::Field { label: String::from_str(label), lines, style: plain_style() }
}

/// The rows that show a post (see `spec_post_rows`).
pub fn post_view_rows(p: &PostView, width: usize) -> (r: Option<Vec<Row>>)
    ensures
        match r {
            Some(rows) => spec_post_rows(*p, width) == Some(row_views(rows@)),
            None => spec_post_rows(*p, width) is None,
        },
{
    let rec = match &p.record {
        Some(rec) => rec,
        None => return None,
    };
    let mut rows: Vec<Row> = Vec::new();
    let cid_line = line_of(p.cid.clone(), plain_style());
    let ghost cid_v = cid_line@;
    let mut cid_lines: Vec<Line> = Vec::new();
    cid_lines.push(cid_line);
    assert(line_views(cid_lines@) =~= seq![cid_v]);
    rows.push(field_row("CID:", cid_lines));
    let time_line = line_of(p.indexed_at.clone(), plain_style());
    let ghost time_v = time_line@;
    let mut time_lines: Vec<Line> = Vec::new();
    time_lines.push(time_line);
    assert(line_views(time_lines@) =~= seq![time_v]);
    rows.push(Row::Field { label: String::from_str("IndexedAt:"), lines: time_lines, style: color_style(Color::Green) });
    rows.push(field_row("Author:", author_to_lines(&p.author)));
    let count_line = line_of_spans(counts(p, 0));
    let ghost count_v = count_line@;
    let mut count_lines: Vec<Line> = Vec::new();
    count_lines.push(count_line);
    assert(line_views(count_lines@) =~= seq![count_v]);
    rows.push(field_row("Counts:", count_lines));
    rows.push(field_row("Text:", wrapped_lines(rec.text.as_str(), width)));
    assert(row_views(rows@) =~= seq![
        field("CID:"@, seq![text_line(p.cid@, plain())]),
        RowView::Field {
            label: "IndexedAt:"@,
            lines: seq![text_line(p.indexed_at@, plain())],
            style: colored(Color::Green),
        },
        field("Author:"@, author_lines(p.author)),
        field("Counts:"@, seq![spans_line(counts_spans(*p, 0))]),
        field("Text:"@, plain_lines(wrapped(rec.text@, width, Seq::empty(), Seq::empty()))),
    ]);
    let ghost head = row_views(rows@);
    match &rec.langs {
        Some(langs) => {
            if langs.len() > 0 {
                let mut lang_lines: Vec<Line> = Vec::new();
                let jl = line_of(crate::text::join(langs, ", "), plain_style());
                let ghost lv = jl@;
                lang_lines.push(jl);
                assert(line_views(lang_lines@) =~= seq![lv]);
                let row = field_row("Langs:", lang_lines);
                let ghost rv = row@;
                assert(seq![rv] =~= langs_rows(rec.langs));
                rows.push(row);
                assert(row_views(rows@) =~= head.push(rv));
            }
        },
        None => {},
    }
    let ghost with_langs = row_views(rows@);
    assert(with_langs =~= head + langs_rows(rec.langs));
    match &p.labels {
        Some(labels) => {
            if labels.len() > 0 {
                let row = field_row("Labels:", labels_to_lines(labels));
                let ghost rv = row@;
                rows.push(row);
                assert(row_views(rows@) =~= with_langs.push(rv));
            }
        },
        None => {},
    }
    let ghost with_labels = row_views(rows@);
    assert(with_labels =~= with_langs + labels_rows(p.labels));
    match &rec.facets {
        Some(facets) => {
            let row = field_row("Facets", facets_to_lines(facets));
            let ghost rv = row@;
            rows.push(row);
            assert(row_views(rows@) =~= with_labels.push(rv));
        },
        None => {},
    }
    let ghost with_facets = row_views(rows@);
    assert(with_facets =~= with_labels + facets_rows(rec.facets));
    match &p.embed {
        Some(e) => {
            let row = field_row("Embed:", embed_to_lines(e, width));
            let ghost rv = row@;
            rows.push(row);
            assert(row_views(rows@) =~= with_facets.push(rv));
        },
        None => {},
    }
    assert(row_views(rows@) =~= with_facets + embed_rows(p.embed, width));
    assert(spec_post_rows(*p, width) == Some(row_views(rows@)));
    Some(rows)
}

/// The URI of the post that `e` quotes, where it quotes one.
pub open spec fn quoted_uri(e: Option<PostEmbed>) -> Option<Seq<char>> {
    match e {
        Some(PostEmbed::Record(RecordView::Post(v))) => Some(v.uri@),
        Some(PostEmbed::RecordWithMedia(_, RecordView::Post(v))) => Some(v.uri@),
        _ => None,
    }
}

/// How an action on a post is listed: "Show NAME's profile" (the name in
/// bold), "Reply" and "Repost" dimmed; "Like"; "Unlike"; "Delete" in red;
/// "Open URI"; "Show embedded record URI" with "embedded record" in yellow
/// and the URI underlined.
pub open spec fn action_line(a: PostActionView, p: PostView) -> LineView {
    match a {
        PostActionView::Profile => LineView {
            spans: seq![
                sv("Show "@, plain()),
                sv(crate::profile::name_as_shown(p.author.display_name_view(), p.author.handle_view()), bold()),
                sv("'s profile"@, plain()),
            ],
            style: dim(),
        },
        PostActionView::Reply => LineView { spans: seq![sv("Reply"@, plain())], style: dim() },
        PostActionView::Repost => LineView { spans: seq![sv("Repost"@, plain())], style: dim() },
        PostActionView::Like => text_line("Like"@, plain()),
        PostActionView::Unlike(_) => text_line("Unlike"@, plain()),
        PostActionView::Delete => LineView { spans: seq![sv("Delete"@, plain())], style: colored(Color::Red) },
        PostActionView::Open(u) => text_line("Open "@ + u, plain()),
        PostActionView::ViewRecord => spans_line(seq![
            sv("Show "@, plain()),
            sv("embedded record"@, colored(Color::Yellow)),
            sv(" "@, plain()),
            sv(match quoted_uri(p.embed) {
                Some(u) => u,
                None => Seq::empty(),
            }, underlined()),
        ]),
    }
}

fn styled_text_line(t: &str, style: Style) -> (r: Line)
    ensures
        r@ == (LineView { spans: seq![sv(t@, plain())], style }),
{
    let mut l = line_of(String::from_str(t), plain_style());
    l.style = style;
    l
}

/// How an action on `p` is listed (see `action_line`).
pub fn action_to_line(a: &PostAction, p: &PostView) -> (r: Line)
    ensures
        r@ == action_line(a@, *p),
{
    match a {
        PostAction::Profile => {
            let mut spans: Vec<Span> = Vec::new();
            spans.push(span_str("Show ", plain_style()));
            spans.push(span_str(crate::profile::profile_name_as_str(&p.author), bold_style()));
            spans.push(span_str("'s profile", plain_style()));
            let mut l = line_of_spans(spans);
            l.style = dim_style();
            assert(l@.spans =~= action_line(a@, *p).spans);
            l
        },
        PostAction::Reply => styled_text_line("Reply", dim_style()),
        PostAction::Repost => styled_text_line("Repost", dim_style()),
        PostAction::Like => line_of(String::from_str("Like"), plain_style()),
        PostAction::Unlike(_) => line_of(String::from_str("Unlike"), plain_style()),
        PostAction::Delete => styled_text_line("Delete", color_style(Color::Red)),
        PostAction::Open(u) => {
            let mut t = String::from_str("Open ");
            t.append(u.as_str());
            line_of(t, plain_style())
        },
        PostAction::ViewRecord => {
            let uri = match &p.embed {
                Some(PostEmbed::Record(RecordView::Post(v))) => v.uri.clone(),
                Some(PostEmbed::RecordWithMedia(_, RecordView::Post(v))) => v.uri.clone(),
                _ => String::new(),
            };
            let mut spans: Vec<Span> = Vec::new();
            spans.push(span_str("Show ", plain_style()));
            spans.push(span_str("embedded record", color_style(Color::Yellow)));
            spans.push(span_str(" ", plain_style()));
            spans.push(span(uri, underlined_style()));
            let l = line_of_spans(spans);
            assert(l@.spans =~= action_line(a@, *p).spans);
            l
        },
    }
}

/// The lines listing the actions on `p`, in order.
pub fn actions_to_lines(actions: &Vec<PostAction>, p: &PostView) -> (r: Vec<Line>)
    ensures
        line_views(r@) == crate::post::action_views(actions@).map_values(|a: PostActionView| action_line(a, *p)),
{
    let ghost target = crate::post::action_views(actions@).map_values(|a: PostActionView| action_line(a, *p));
    let mut r: Vec<Line> = Vec::new();
    let mut i: usize = 0;
    while i < actions.len()
        invariant
            i <= actions@.len(),
            target == crate::post::action_views(actions@).map_values(|a: PostActionView| action_line(a, *p)),
            line_views(r@) =~= target.take(i as int),
        decreases actions@.len() - i,
    {
        let ghost before = r@;
        r.push(action_to_line(&actions[i], p));
        assert(line_views(r@) =~= line_views(before).push(r@.last()@));
        assert(target.take(i + 1) =~= target.take(i as int).push(target[i as int]));
        i = i + 1;
    }
    assert(target.take(actions@.len() as int) =~= target);
    r
}

/// The rows of the table of a post's view: where the post it replies to is
/// known and shown, a banner " Reply to", its rows and a banner
/// " --------- "; then the post's rows. With them, the position of the
/// post's first row, which the table selects.
pub open spec fn spec_post_table(p: PostView, reply: Option<PostView>, width: usize) -> (Seq<RowView>, nat) {
    let head = match reply {
        Some(q) => match spec_post_rows(q, width) {
            Some(rows) => seq![RowView::Banner(" Reply to"@)] + rows + seq![RowView::Banner(" --------- "@)],
            None => Seq::empty(),
        },
        None => Seq::empty(),
    };
    let body = match spec_post_rows(p, width) {
        Some(rows) => rows,
        None => Seq::empty(),
    };
    (head + body, head.len())
}

/// The rows of the table of a post's view and the row it selects (see
/// `spec_post_table`).
pub fn post_table(p: &PostView, reply: &Option<PostView>, width: usize) -> (r: (Vec<Row>, usize))
    ensures
        spec_post_table(*p, *reply, width) == (row_views(r.0@), r.1 as nat),
{
    let mut rows: Vec<Row> = Vec::new();
    match reply {
        Some(q) => match post_view_rows(q, width) {
            Some(mut rs) => {
                rows.push(Row::Banner(String::from_str(" Reply to")));
                rows.append(&mut rs);
                rows.push(Row::Banner(String::from_str(" --------- ")));
            },
            None => {},
        },
        None => {},
    }
    let ghost head = row_views(rows@);
    let selected = rows.len();
    match post_view_rows(p, width) {
        Some(mut rs) => {
            rows.append(&mut rs);
        },
        None => {},
    }
    assert(row_views(rows@) =~= spec_post_table(*p, *reply, width).0);
    (rows, selected)
}

} // verus!
