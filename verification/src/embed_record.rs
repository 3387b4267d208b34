use vstd::prelude::*;
use crate::actions::ViewAction;
use crate::at_uri::{at_uri_parts, parse_at_uri, AtUriParts};
use crate::atproto::{at_identifier_valid, is_at_identifier, is_nsid, nsid_valid};
use crate::embed::{ModalAction, ModalData, StrongRef};
use crate::text::{join, joined, string_views};
use crate::spans::{bold, colored, line_of, plain, plain_style, text_line, Color, Line, LineView, Style};

verus! {

/// The part of the record modal that has the focus (`Unfocused` while a
/// record is being fetched).
#[derive(Clone, Copy, Debug, PartialEq, Eq, Structural)]
pub enum Focus {
    Unfocused,
    Input,
    Confirm,
    Delete,
}

pub open spec fn spec_next(f: Focus, delete: bool) -> Focus {
    match f {
        Focus::Unfocused => Focus::Input,
        Focus::Input => Focus::Confirm,
        Focus::Confirm => if delete { Focus::Delete } else { Focus::Confirm },
        Focus::Delete => Focus::Delete,
    }
}

pub open spec fn spec_prev(f: Focus, delete: bool) -> Focus {
    match f {
        Focus::Unfocused => Focus::Input,
        Focus::Input => Focus::Input,
        Focus::Confirm => Focus::Input,
        Focus::Delete => Focus::Confirm,
    }
}

impl Focus {
    /// The next part down; "Delete" is there only when `delete` holds, and
    /// the last part keeps the focus. From no focus, the input field.
    pub fn next(&self, delete: bool) -> (r: Focus)
        ensures
            r == spec_next(*self, delete),
    {
        match self {
            Focus::Unfocused => Focus::Input,
            Focus::Input => Focus::Confirm,
            Focus::Confirm => if delete { Focus::Delete } else { Focus::Confirm },
            Focus::Delete => Focus::Delete,
        }
    }

    /// The next part up; the input field keeps the focus. From no focus, the
    /// input field.
    pub fn prev(&self, delete: bool) -> (r: Focus)
        ensures
            r == spec_prev(*self, delete),
    {
        match self {
            Focus::Unfocused => Focus::Input,
            Focus::Input => Focus::Input,
            Focus::Confirm => Focus::Input,
            Focus::Delete => Focus::Confirm,
        }
    }
}

/// From no focus either move reaches the input field; a step down and a
/// step up return to where the step down started, for every part that a
/// step down leaves.
pub proof fn lemma_focus_moves(f: Focus, delete: bool)
    ensures
        spec_next(Focus::Unfocused, delete) == Focus::Input,
        spec_prev(Focus::Unfocused, delete) == Focus::Input,
        f != Focus::Unfocused && spec_next(f, delete) != f ==> spec_prev(spec_next(f, delete), delete) == f,
        spec_next(f, delete) != Focus::Unfocused,
        spec_prev(f, delete) != Focus::Unfocused,
{
}

/// What is known of the record the entered URI names.
#[derive(Debug)]
pub enum RecordState {
    /// Nothing fetched yet.
    Idle,
    /// Fetched; its content identifier.
    Found(String),
    /// Not usable; why.
    Failed(String),
}

/// A record to fetch from the public service, to learn its content identifier.
#[derive(Debug)]
pub struct RecordRequest {
    pub repo: String,
    pub collection: String,
    pub rkey: String,
}

/// Why an entered URI names no record: "invalid at uri" where it is not a
/// record's AT URI; "invalid authority or collection" where its authority is
/// no AT identifier or its collection no NSID.
pub open spec fn spec_record_uri_error(uri: Seq<char>) -> Option<Seq<char>> {
    if !(exists|a: Seq<char>, c: Seq<char>, k: Seq<char>| #[trigger] at_uri_parts(uri, a, c, k)) {
        Some("invalid at uri"@)
    } else {
        let (a, c, k) = choose|a: Seq<char>, c: Seq<char>, k: Seq<char>| #[trigger] at_uri_parts(uri, a, c, k);
        if !(at_identifier_valid(a) && nsid_valid(c)) {
            Some("invalid authority or collection"@)
        } else {
            None
        }
    }
}

/// The record request for an entered URI, or why it names no record (see
/// `spec_record_uri_error`).
pub fn check_record_uri(uri: &str) -> (r: Result<RecordRequest, String>)
    ensures
        match r {
            Ok(req) => spec_record_uri_error(uri@) is None && at_uri_parts(uri@, req.repo@, req.collection@, req.rkey@),
            Err(msg) => spec_record_uri_error(uri@) == Some(msg@),
        },
{
    match parse_at_uri(uri) {
        None => {
            assert(!(exists|a: Seq<char>, c: Seq<char>, k: Seq<char>| #[trigger] at_uri_parts(uri@, a, c, k)));
            Err(String::from_str("invalid at uri"))
        },
        Some(parts) => {
            let AtUriParts { authority, collection, rkey } = parts;
            proof {
                assert(at_uri_parts(uri@, authority@, collection@, rkey@));
                let (a, c, k) = choose|a: Seq<char>, c: Seq<char>, k: Seq<char>| #[trigger] at_uri_parts(uri@, a, c, k);
                crate::at_uri::lemma_at_uri_parts_unique(uri@, a, c, k, authority@, collection@, rkey@);
            }
            if is_at_identifier(authority.as_str()) && is_nsid(collection.as_str()) {
                Ok(RecordRequest { repo: authority, collection, rkey })
            } else {
                Err(String::from_str("invalid authority or collection"))
            }
        },
    }
}

/// The modal that picks a record to quote, by its AT URI. `has_record` tells
/// whether it edits a record already embedded (and so offers "Delete").
#[derive(Debug)]
pub struct RecordModal {
    pub focus: Focus,
    pub state: RecordState,
    pub has_record: bool,
}

/// The answer of the record modal to an action: what it tells the embed
/// modal, and the record it starts fetching.
#[derive(Debug)]
pub struct RecordStep {
    pub reply: Option<ModalAction>,
    pub fetch: Option<RecordRequest>,
}

impl RecordModal {
    /// The modal with the focus on the input field and nothing fetched.
    pub fn new(has_record: bool) -> (r: RecordModal)
        ensures
            r.focus == Focus::Input,
            r.state is Idle,
            r.has_record == has_record,
    {
        RecordModal { focus: Focus::Input, state: RecordState::Idle, has_record }
    }

    /// Whether a key press is typed into the input field: only while it has
    /// the focus, and not a confirming key.
    pub fn takes_key(&self, confirm: bool) -> (r: bool)
        ensures
            r == (self.focus is Input && !confirm),
    {
        matches!(self.focus, Focus::Input) && !confirm
    }

    /// The text of the input field changed: what was fetched no longer applies.
    pub fn input_changed(&mut self)
        ensures
            final(self).state is Idle,
            final(self).focus == old(self).focus,
            final(self).has_record == old(self).has_record,
    {
        self.state = RecordState::Idle;
    }

    /// A fetch finished: with the record's content identifier, or without
    /// ("failed to get record").
    pub fn fetched(&mut self, cid: Option<String>)
        ensures
            final(self).focus == old(self).focus,
            final(self).has_record == old(self).has_record,
            cid matches Some(c) ==> (final(self).state matches RecordState::Found(f) && f@ == c@),
            cid is None ==> (final(self).state matches RecordState::Failed(m) && m@ == "failed to get record"@),
    {
        self.state = match cid {
            Some(c) => RecordState::Found(c),
            None => RecordState::Failed(String::from_str("failed to get record")),
        };
    }

    /// The modal's answer to an action, given the lines of its input field.
    ///
    /// Next and Prev move the focus. Enter on "OK" (`Confirm`) hands back the
    /// record, with the input as its URI, once its content identifier was
    /// fetched; before that, it takes the focus away and starts fetching the
    /// record the input names, or reports why the input names none. Enter on
    /// "Delete" asks to delete the embedded record; elsewhere it moves the
    /// focus down. Back cancels.
    pub fn update(&mut self, action: ViewAction, input_lines: &Vec<String>) -> (r: RecordStep)
        ensures
            final(self).has_record == old(self).has_record,
            action is NextItem ==> final(self).focus == spec_next(old(self).focus, old(self).has_record)
                && (r.reply matches Some(ModalAction::Render)) && r.fetch is None,
            action is PrevItem ==> final(self).focus == spec_prev(old(self).focus, old(self).has_record)
                && (r.reply matches Some(ModalAction::Render)) && r.fetch is None,
            action is Enter && old(self).focus is Confirm ==> ({
                let uri = joined(string_views(input_lines@), Seq::empty());
                if old(self).state is Found {
                    &&& final(self).focus == old(self).focus
                    &&& r.fetch is None
                    &&& r.reply matches Some(ModalAction::Confirm(ModalData::Record(sr)))
                    &&& sr.uri@ == uri
                    &&& old(self).state matches RecordState::Found(c) && sr.cid@ == c@
                } else {
                    &&& final(self).focus is Unfocused
                    &&& r.reply matches Some(ModalAction::Render)
                    &&& match spec_record_uri_error(uri) {
                        Some(msg) => r.fetch is None && (final(self).state matches RecordState::Failed(m) && m@ == msg),
                        None => r.fetch matches Some(req) && at_uri_parts(uri, req.repo@, req.collection@, req.rkey@),
                    }
                }
            }),
            action is Enter && old(self).focus is Delete ==> final(self).focus == old(self).focus
                && (r.reply matches Some(ModalAction::Delete(i)) && i is None) && r.fetch is None,
            action is Enter && (old(self).focus is Input || old(self).focus is Unfocused) ==> final(self).focus
                == spec_next(old(self).focus, old(self).has_record) && (r.reply matches Some(ModalAction::Render)) && r.fetch is None,
            action is Back ==> final(self).focus == old(self).focus && (r.reply matches Some(ModalAction::Cancel)) && r.fetch is None,
            !(action is NextItem || action is PrevItem || action is Enter || action is Back) ==> final(self).focus
                == old(self).focus && r.reply is None && r.fetch is None,
    {
        match action {
            ViewAction::NextItem => {
                self.focus = self.focus.next(self.has_record);
                RecordStep { reply: Some(ModalAction::Render), fetch: None }
            },
            ViewAction::PrevItem => {
                self.focus = self.focus.prev(self.has_record);
                RecordStep { reply: Some(ModalAction::Render), fetch: None }
            },
            ViewAction::Enter => match self.focus {
                Focus::Confirm => {
                    let uri = join(input_lines, "");
                    proof {
                        reveal_strlit("");
                        assert(""@ =~= Seq::<char>::empty());
                    }
                    match &self.state {
                        RecordState::Found(cid) => {
                            let sr = StrongRef { uri, cid: cid.clone() };
                            RecordStep { reply: Some(ModalAction::Confirm(ModalData::Record(sr))), fetch: None }
                        },
                        _ => {
                            self.focus = Focus::Unfocused;
                            match check_record_uri(uri.as_str()) {
                                Ok(req) => RecordStep { reply: Some(ModalAction::Render), fetch: Some(req) },
                                Err(msg) => {
                                    self.state = RecordState::Failed(msg);
                                    RecordStep { reply: Some(ModalAction::Render), fetch: None }
                                },
                            }
                        },
                    }
                },
                Focus::Delete => RecordStep { reply: Some(ModalAction::Delete(None)), fetch: None },
                _ => {
                    self.focus = self.focus.next(self.has_record);
                    RecordStep { reply: Some(ModalAction::Render), fetch: None }
                },
            },
            ViewAction::Back => RecordStep { reply: Some(ModalAction::Cancel), fetch: None },
            _ => RecordStep { reply: None, fetch: None },
        }
    }
}

/// The colour of the URI field's border: green once the record was found,
/// red where it failed, the default otherwise.
pub open spec fn spec_border_color(state: RecordState) -> Color {
    match state {
        RecordState::Idle => Color::Reset,
        RecordState::Found(_) => Color::Green,
        RecordState::Failed(_) => Color::Red,
    }
}

/// The colour of the URI field's border (see `spec_border_color`).
pub fn border_color(state: &RecordState) -> (r: Color)
    ensures
        r == spec_border_color(*state),
{
    match state {
        RecordState::Idle => Color::Reset,
        RecordState::Found(_) => Color::Green,
        RecordState::Failed(_) => Color::Red,
    }
}

/// The status line under the URI field: empty before a fetch, "CID: "
/// and the record's CID in bold once found, the reason in red on failure.
pub open spec fn status_line(state: RecordState) -> LineView {
    match state {
        RecordState::Idle => text_line(Seq::empty(), plain()),
        RecordState::Found(cid) => LineView { spans: seq![crate::spans::sv("CID: "@ + cid@, plain())], style: bold() },
        RecordState::Failed(e) => LineView { spans: seq![crate::spans::sv(e@, plain())], style: colored(Color::Red) },
    }
}

/// The status line under the URI field (see `status_line`).
pub fn status_to_line(state: &RecordState) -> (r: Line)
    ensures
        r@ == status_line(*state),
{
    match state {
        RecordState::Idle => line_of(String::new(), plain_style()),
        RecordState::Found(cid) => {
            let mut t = String::from_str("CID: ");
            t.append(cid.as_str());
            let mut l = line_of(t, plain_style());
            l.style = crate::spans::bold_style();
            l
        },
        RecordState::Failed(e) => {
            let mut l = line_of(e.clone(), plain_style());
            l.style = crate::spans::color_style(Color::Red);
            l
        },
    }
}

/// The label of the confirm button: "OK" once the record was found, "Get
/// Record" before.
pub fn button_label(state: &RecordState) -> (r: String)
    ensures
        r@ == (if *state is Found { "OK"@ } else { "Get Record"@ }),
{
    match state {
        RecordState::Found(_) => String::from_str("OK"),
        _ => String::from_str("Get Record"),
    }
}

} // verus!
