use vstd::prelude::*;
use crate::text::string_views;

verus! {

/// A foreground colour of styled text.
#[derive(Clone, Copy, Debug, PartialEq, Eq, Structural)]
pub enum Color {
    /// The terminal's default colour, whatever the surrounding style.
    Reset,
    Gray,
    Green,
    Red,
    Yellow,
    Blue,
    Cyan,
    Magenta,
}

/// How a piece of text is drawn.
#[derive(Clone, Copy, Debug, PartialEq, Eq, Structural)]
pub struct Style {
    pub fg: Option<Color>,
    pub bold: bool,
    pub dim: bool,
    pub underlined: bool,
}

/// Text drawn without any style.
pub open spec fn plain() -> Style {
    Style { fg: None, bold: false, dim: false, underlined: false }
}

/// Text in a colour.
pub open spec fn colored(c: Color) -> Style {
    Style { fg: Some(c), bold: false, dim: false, underlined: false }
}

/// Bold text.
pub open spec fn bold() -> Style {
    Style { fg: None, bold: true, dim: false, underlined: false }
}

/// Dimmed text.
pub open spec fn dim() -> Style {
    Style { fg: None, bold: false, dim: true, underlined: false }
}

/// Underlined text.
pub open spec fn underlined() -> Style {
    Style { fg: None, bold: false, dim: false, underlined: true }
}

/// Text drawn without any style.
pub fn plain_style() -> (r: Style)
    ensures
        r == plain(),
{
    Style { fg: None, bold: false, dim: false, underlined: false }
}

/// Text in the colour `c`.
pub fn color_style(c: Color) -> (r: Style)
    ensures
        r == colored(c),
{
    Style { fg: Some(c), bold: false, dim: false, underlined: false }
}

/// Bold text.
pub fn bold_style() -> (r: Style)
    ensures
        r == bold(),
{
    Style { fg: None, bold: true, dim: false, underlined: false }
}

/// Dimmed text.
pub fn dim_style() -> (r: Style)
    ensures
        r == dim(),
{
    Style { fg: None, bold: false, dim: true, underlined: false }
}

/// Underlined text.
pub fn underlined_style() -> (r: Style)
    ensures
        r == underlined(),
{
    Style { fg: None, bold: false, dim: false, underlined: true }
}

/// A piece of text with its style.
#[derive(Debug)]
pub struct Span {
    pub content: String,
    pub style: Style,
}

/// A line of styled pieces, with a style over the whole line.
#[derive(Debug)]
pub struct Line {
    pub spans: Vec<Span>,
    pub style: Style,
}

pub ghost struct SpanView {
    pub content: Seq<char>,
    pub style: Style,
}

pub ghost struct LineView {
    pub spans: Seq<SpanView>,
    pub style: Style,
}

impl View for Span {
    type V = SpanView;

    open spec fn view(&self) -> SpanView {
        SpanView { content: self.content@, style: self.style }
    }
}

pub open spec fn span_views(s: Seq<Span>) -> Seq<SpanView> {
    s.map_values(|x: Span| x@)
}

impl View for Line {
    type V = LineView;

    open spec fn view(&self) -> LineView {
        LineView { spans: span_views(self.spans@), style: self.style }
    }
}

pub open spec fn line_views(s: Seq<Line>) -> Seq<LineView> {
    s.map_values(|x: Line| x@)
}

/// A piece of text `c` in style `s`.
pub open spec fn sv(c: Seq<char>, s: Style) -> SpanView {
    SpanView { content: c, style: s }
}

/// A line made of one piece `c` in style `s`, with no line style.
pub open spec fn text_line(c: Seq<char>, s: Style) -> LineView {
    LineView { spans: seq![sv(c, s)], style: plain() }
}

/// A line of these pieces with no line style.
pub open spec fn spans_line(spans: Seq<SpanView>) -> LineView {
    LineView { spans, style: plain() }
}

/// A piece of text in a style.
pub fn span(content: String, style: Style) -> (r: Span)
    ensures
        r@ == sv(content@, style),
{
    Span { content, style }
}

/// A piece of text, copied from `content`, in a style.
pub fn span_str(content: &str, style: Style) -> (r: Span)
    ensures
        r@ == sv(content@, style),
{
    Span { content: String::from_str(content), style }
}

/// A line of one piece of text in a style.
pub fn line_of(content: String, style: Style) -> (r: Line)
    ensures
        r@ == text_line(content@, style),
{
    let mut spans: Vec<Span> = Vec::new();
    spans.push(Span { content, style });
    let r = Line { spans, style: plain_style() };
    assert(r@.spans =~= seq![sv(content@, style)]);
    r
}

/// A line of these pieces.
pub fn line_of_spans(spans: Vec<Span>) -> (r: Line)
    ensures
        r@ == spans_line(span_views(spans@)),
{
    Line { spans, style: plain_style() }
}

/// One line per string, each unstyled.
pub open spec fn plain_lines(texts: Seq<Seq<char>>) -> Seq<LineView> {
    texts.map_values(|t: Seq<char>| text_line(t, plain()))
}

/// One unstyled line per string, in order.
pub fn lines_of(texts: &Vec<String>) -> (r: Vec<Line>)
    ensures
        line_views(r@) == plain_lines(string_views(texts@)),
{
    let mut r: Vec<Line> = Vec::new();
    let mut i: usize = 0;
    while i < texts.len()
        invariant
            i <= texts@.len(),
            line_views(r@) =~= plain_lines(string_views(texts@)).take(i as int),
        decreases texts@.len() - i,
    {
        let ghost before = r@;
        r.push(line_of(texts[i].clone(), plain_style()));
        proof {
            assert(line_views(r@) =~= line_views(before).push(r@.last()@));
            assert(plain_lines(string_views(texts@)).take(i + 1) =~= plain_lines(string_views(texts@)).take(
                i as int,
            ).push(text_line(texts@[i as int]@, plain())));
        }
        i = i + 1;
    }
    assert(plain_lines(string_views(texts@)).take(texts@.len() as int) =~= plain_lines(string_views(texts@)));
    r
}

} // verus!
