use vstd::prelude::*;
use crate::spans::{Span, SpanView, bold, bold_style, color_style, colored, plain, plain_style, span, span_str, span_views, sv, Color};

verus! {

/// A label put on an account or a post: its value, the URI of what it
/// labels, and the DID of the labeller.
#[derive(Clone, Debug)]
pub struct Label {
    pub val: String,
    pub uri: String,
    pub src: String,
}

/// What a post shows of its author: DID, handle, display name (possibly
/// empty) and labels.
#[derive(Clone, Debug)]
pub struct ProfileBasic {
    pub did: String,
    pub handle: String,
    pub display_name: Option<String>,
    pub labels: Vec<Label>,
}

/// Something with a handle and, possibly, a display name.
pub trait Profile {
    /// The display name, where there is a non-empty one.
    spec fn display_name_view(&self) -> Option<Seq<char>>;

    /// The handle.
    spec fn handle_view(&self) -> Seq<char>;

    /// The display name, where there is a non-empty one.
    fn display_name(&self) -> (r: Option<&str>)
        ensures
            match r {
                Some(s) => self.display_name_view() == Some(s@),
                None => self.display_name_view() is None,
            },
    ;

    /// The handle.
    fn handle(&self) -> (r: &str)
        ensures
            r@ == self.handle_view(),
    ;
}

/// A display name as shown: present only where it is not empty.
pub open spec fn shown_name(n: Option<String>) -> Option<Seq<char>> {
    match n {
        Some(s) => if s@.len() > 0 { Some(s@) } else { None },
        None => None,
    }
}

impl Profile for ProfileBasic {
    open spec fn display_name_view(&self) -> Option<Seq<char>> {
        shown_name(self.display_name)
    }

    open spec fn handle_view(&self) -> Seq<char> {
        self.handle@
    }

    fn display_name(&self) -> (r: Option<&str>) {
        match &self.display_name {
            Some(s) => if s.as_str().unicode_len() > 0 { Some(s.as_str()) } else { None },
            None => None,
        }
    }

    fn handle(&self) -> (r: &str) {
        self.handle.as_str()
    }
}

/// The name by which to show someone: the display name, or the handle
/// where there is none.
pub open spec fn name_as_shown(display_name: Option<Seq<char>>, handle: Seq<char>) -> Seq<char> {
    match display_name {
        Some(d) => d,
        None => handle,
    }
}

/// The name by which to show `author`: its display name, or its handle
/// where there is none.
pub fn profile_name_as_str<'a, P: Profile>(author: &'a P) -> (r: &'a str)
    ensures
        r@ == name_as_shown(author.display_name_view(), author.handle_view()),
{
    match author.display_name() {
        Some(d) => d,
        None => author.handle(),
    }
}

/// The styled name of someone: the display name in bold, a space, and
/// "@handle" in grey; or, where there is no display name, "@handle" in bold.
pub open spec fn profile_name_spans(display_name: Option<Seq<char>>, handle: Seq<char>) -> Seq<SpanView> {
    match display_name {
        Some(d) => seq![sv(d, bold()), sv(seq![' '], plain()), sv(seq!['@'] + handle, colored(Color::Gray))],
        None => seq![sv(seq!['@'] + handle, bold())],
    }
}

/// "@" followed by the handle.
pub fn at_handle(handle: &str) -> (r: String)
    ensures
        r@ == seq!['@'] + handle@,
{
    let mut r = crate::text::char_string('@');
    r.append(handle);
    r
}

/// The styled name of `author` (see `profile_name_spans`).
pub fn profile_name<P: Profile>(author: &P) -> (r: Vec<Span>)
    ensures
        span_views(r@) == profile_name_spans(author.display_name_view(), author.handle_view()),
{
    let mut r: Vec<Span> = Vec::new();
    match author.display_name() {
        Some(d) => {
            r.push(span_str(d, bold_style()));
            r.push(span(crate::text::char_string(' '), plain_style()));
            r.push(span(at_handle(author.handle()), color_style(Color::Gray)));
        },
        None => {
            r.push(span(at_handle(author.handle()), bold_style()));
        },
    }
    assert(span_views(r@) =~= profile_name_spans(author.display_name_view(), author.handle_view()));
    r
}

/// Someone's name with the handle in brackets, "Name (@handle)", or
/// "@handle" where there is no display name (an empty one counts).
pub open spec fn name_with_handle(display_name: Option<Seq<char>>, handle: Seq<char>) -> Seq<char> {
    match display_name {
        Some(d) => d + seq![' ', '(', '@'] + handle + seq![')'],
        None => seq!['@'] + handle,
    }
}

/// "Name (@handle)" where there is a display name, however empty, else
/// "@handle".
pub fn name_with_handle_str(display_name: &Option<String>, handle: &str) -> (r: String)
    ensures
        r@ == name_with_handle(
            match display_name {
                Some(d) => Some(d@),
                None => None,
            },
            handle@,
        ),
{
    match display_name {
        Some(d) => {
            let mut r = d.clone();
            r.append(" (@");
            r.append(handle);
            r.append(")");
            proof {
                reveal_strlit(" (@");
                reveal_strlit(")");
                assert(r@ =~= d@ + seq![' ', '(', '@'] + handle@ + seq![')']);
            }
            r
        },
        None => at_handle(handle),
    }
}

} // verus!
