use vstd::prelude::*;
use crate::actions::{Transition, ViewAction};
use crate::atproto::{grapheme_count, is_language_tag, language_tag_valid, post_text_len};
use crate::embed::{EmbedData, ModalAction, ModalData, image_views, record_view};
use crate::text::{
    decimal, join, joined, signed_decimal, split_char, split_on, string_views, trim, trimmed,
    u64_to_decimal, i64_to_decimal,
};

verus! {

/// Longest post text, in graphemes.
pub const MAX_POST_LEN: usize = 300;

/// The part of the new-post form that has the focus; `Unfocused` once the
/// post has been sent.
#[derive(Clone, Copy, Debug, PartialEq, Eq, Structural)]
pub enum Focus {
    Unfocused,
    Text,
    Embed,
    Langs,
    Submit,
}

pub open spec fn spec_next(f: Focus) -> Focus {
    match f {
        Focus::Unfocused => Focus::Text,
        Focus::Text => Focus::Embed,
        Focus::Embed => Focus::Langs,
        Focus::Langs => Focus::Submit,
        Focus::Submit => Focus::Text,
    }
}

pub open spec fn spec_prev(f: Focus) -> Focus {
    match f {
        Focus::Unfocused => Focus::Text,
        Focus::Text => Focus::Submit,
        Focus::Embed => Focus::Text,
        Focus::Langs => Focus::Embed,
        Focus::Submit => Focus::Langs,
    }
}

impl Focus {
    /// The next part: text, embed, languages, submit, and round to the text.
    pub fn next(&self) -> (r: Focus)
        ensures
            r == spec_next(*self),
    {
        match self {
            Focus::Unfocused => Focus::Text,
            Focus::Text => Focus::Embed,
            Focus::Embed => Focus::Langs,
            Focus::Langs => Focus::Submit,
            Focus::Submit => Focus::Text,
        }
    }

    /// The previous part, round from the text to submit.
    pub fn prev(&self) -> (r: Focus)
        ensures
            r == spec_prev(*self),
    {
        match self {
            Focus::Unfocused => Focus::Text,
            Focus::Text => Focus::Submit,
            Focus::Embed => Focus::Text,
            Focus::Langs => Focus::Embed,
            Focus::Submit => Focus::Langs,
        }
    }
}

/// On the four parts of the form, a step back undoes a step forward and the
/// other way round, and four steps forward come back to the same part; from
/// the sent state either step lands on the text.
pub proof fn lemma_focus_cycle(f: Focus)
    ensures
        f !is Unfocused ==> spec_prev(spec_next(f)) == f,
        f !is Unfocused ==> spec_next(spec_prev(f)) == f,
        f !is Unfocused ==> spec_next(spec_next(spec_next(spec_next(f)))) == f,
        spec_next(f) !is Unfocused && spec_prev(f) !is Unfocused,
        f is Unfocused ==> spec_next(f) is Text && spec_prev(f) is Text,
{
}

/// The text of the post: the lines of the text field joined by newlines.
pub open spec fn post_text(lines: Seq<Seq<char>>) -> Seq<char> {
    joined(lines, seq!['\n'])
}

/// The entries of the languages field: its lines run together, cut at each
/// comma, each piece without surrounding white space.
pub open spec fn lang_entries(lines: Seq<Seq<char>>) -> Seq<Seq<char>> {
    split_on(joined(lines, Seq::<char>::empty()), ',').map_values(|p: Seq<char>| trimmed(p))
}

/// The entries that are language tags, in order.
pub open spec fn language_tags(entries: Seq<Seq<char>>) -> Seq<Seq<char>>
    decreases entries.len(),
{
    if entries.len() == 0 {
        Seq::empty()
    } else {
        let rest = language_tags(entries.drop_last());
        if language_tag_valid(entries.last()) {
            rest.push(entries.last())
        } else {
            rest
        }
    }
}

/// Every language a post is tagged with is a language tag, and is one of
/// the entries of the languages field.
pub proof fn lemma_language_tags_valid(entries: Seq<Seq<char>>)
    ensures
        forall|i: int| 0 <= i < language_tags(entries).len() ==> language_tag_valid(#[trigger] language_tags(entries)[i]),
        forall|i: int| 0 <= i < language_tags(entries).len() ==> entries.contains(#[trigger] language_tags(entries)[i]),
    decreases entries.len(),
{
    if entries.len() > 0 {
        let r = entries.drop_last();
        lemma_language_tags_valid(r);
        assert forall|i: int| 0 <= i < language_tags(entries).len() implies entries.contains(#[trigger] language_tags(entries)[i]) by {
            let t = language_tags(entries);
            if i < language_tags(r).len() {
                assert(t[i] == language_tags(r)[i]);
                assert(r.contains(t[i]));
                let k = choose|k: int| 0 <= k < r.len() && r[k] == t[i];
                assert(entries[k] == t[i]);
            } else {
                assert(t[i] == entries.last());
                assert(entries[entries.len() - 1] == t[i]);
            }
        }
        assert forall|i: int| 0 <= i < language_tags(entries).len() implies language_tag_valid(#[trigger] language_tags(entries)[i]) by {
            let t = language_tags(entries);
            if i < language_tags(r).len() {
                assert(t[i] == language_tags(r)[i]);
            }
        }
    }
}

/// The languages a post is tagged with: the entries that are language tags,
/// or none at all when no entry is one.
pub open spec fn spec_post_langs(lines: Seq<Seq<char>>) -> Option<Seq<Seq<char>>> {
    let tags = language_tags(lang_entries(lines));
    if tags.len() == 0 {
        None
    } else {
        Some(tags)
    }
}

/// Whether every entry of the languages field is a language tag (an empty
/// field has one empty entry, which is not).
pub open spec fn spec_langs_valid(lines: Seq<Seq<char>>) -> bool {
    let entries = lang_entries(lines);
    forall|i: int| 0 <= i < entries.len() ==> language_tag_valid(#[trigger] entries[i])
}

/// The entries of the languages field (see `lang_entries`).
pub fn langs_entries(lines: &Vec<String>) -> (r: Vec<String>)
    ensures
        string_views(r@) == lang_entries(string_views(lines@)),
{
    let all = join(lines, "");
    proof {
        reveal_strlit("");
        assert(""@ =~= Seq::<char>::empty());
    }
    let parts = split_char(all.as_str(), ',');
    let mut r: Vec<String> = Vec::new();
    let mut i: usize = 0;
    let ghost target = lang_entries(string_views(lines@));
    while i < parts.len()
        invariant
            i <= parts@.len(),
            string_views(parts@) == split_on(joined(string_views(lines@), Seq::<char>::empty()), ','),
            target == lang_entries(string_views(lines@)),
            string_views(r@) =~= target.take(i as int),
        decreases parts@.len() - i,
    {
        let ghost before = r@;
        let t = trim(parts[i].as_str());
        r.push(t);
        proof {
            assert(string_views(r@) =~= string_views(before).push(r@.last()@));
            assert(target.take(i + 1) =~= target.take(i as int).push(target[i as int]));
            assert(target[i as int] == trimmed(string_views(parts@)[i as int]));
        }
        i = i + 1;
    }
    proof {
        assert(target.take(parts@.len() as int) =~= target);
    }
    r
}

/// The languages to tag a post with (see `spec_post_langs`).
pub fn post_langs(lines: &Vec<String>) -> (r: Option<Vec<String>>)
    ensures
        match r {
            Some(v) => spec_post_langs(string_views(lines@)) == Some(string_views(v@)),
            None => spec_post_langs(string_views(lines@)) is None,
        },
{
    let entries = langs_entries(lines);
    let ghost es = string_views(entries@);
    let mut tags: Vec<String> = Vec::new();
    let mut i: usize = 0;
    while i < entries.len()
        invariant
            i <= entries@.len(),
            es == string_views(entries@),
            string_views(tags@) == language_tags(es.take(i as int)),
        decreases entries@.len() - i,
    {
        proof {
            assert(es.take(i + 1).drop_last() =~= es.take(i as int));
            assert(es.take(i + 1).last() == entries@[i as int]@);
        }
        if is_language_tag(entries[i].as_str()) {
            let ghost before = tags@;
            tags.push(entries[i].clone());
            proof {
                assert(string_views(tags@) =~= string_views(before).push(tags@.last()@));
            }
        }
        i = i + 1;
    }
    proof {
        assert(es.take(entries@.len() as int) =~= es);
    }
    if tags.len() == 0 {
        None
    } else {
        Some(tags)
    }
}

/// Whether every entry of the languages field is a language tag (see
/// `spec_langs_valid`).
pub fn langs_valid(lines: &Vec<String>) -> (r: bool)
    ensures
        r == spec_langs_valid(string_views(lines@)),
{
    let entries = langs_entries(lines);
    let ghost es = string_views(entries@);
    let mut i: usize = 0;
    while i < entries.len()
        invariant
            i <= entries@.len(),
            es == string_views(entries@),
            es == lang_entries(string_views(lines@)),
            forall|j: int| 0 <= j < i ==> language_tag_valid(#[trigger] es[j]),
        decreases entries@.len() - i,
    {
        if !is_language_tag(entries[i].as_str()) {
            assert(!language_tag_valid(es[i as int]));
            return false;
        }
        i = i + 1;
    }
    true
}

/// How the length of the post text stands: empty, within the limit, or over it.
#[derive(Clone, Copy, Debug, PartialEq, Eq, Structural)]
pub enum LengthState {
    Empty,
    Fits,
    TooLong,
}

pub open spec fn spec_length_state(len: nat) -> LengthState {
    if len == 0 {
        LengthState::Empty
    } else if len <= MAX_POST_LEN {
        LengthState::Fits
    } else {
        LengthState::TooLong
    }
}

/// How a text of `len` graphemes stands against the limit.
pub fn length_state(len: usize) -> (r: LengthState)
    ensures
        r == spec_length_state(len as nat),
{
    if len == 0 {
        LengthState::Empty
    } else if len <= MAX_POST_LEN {
        LengthState::Fits
    } else {
        LengthState::TooLong
    }
}

/// The length of the post text made of these lines, in graphemes.
pub fn text_length(lines: &Vec<String>) -> (r: usize)
    ensures
        r == grapheme_count(post_text(string_views(lines@))),
{
    let text = join(lines, "\n");
    proof {
        reveal_strlit("\n");
        assert("\n"@ =~= seq!['\n']);
    }
    post_text_len(text.as_str())
}

/// The counter shown above the text: how many graphemes are left (negative
/// past the limit), followed by a space.
pub fn remaining_label(len: usize) -> (r: String)
    requires
        len <= i64::MAX,
    ensures
        r@ == signed_decimal(MAX_POST_LEN - len) + seq![' '],
{
    let left: i64 = 300 - (len as i64);
    let mut r = i64_to_decimal(left);
    r.append(" ");
    proof {
        reveal_strlit(" ");
    }
    r
}

/// The line under "+ Embed" that sums up what is embedded.
pub open spec fn embed_summary_text(has_record: bool, images: nat) -> Seq<char> {
    if has_record {
        if images == 0 {
            "  a record"@
        } else if images == 1 {
            "  a record with 1 image"@
        } else {
            "  a record with "@ + decimal(images) + " images"@
        }
    } else {
        "  "@ + decimal(images) + " images"@
    }
}

/// The summary of what is embedded (see `embed_summary_text`).
pub fn embed_summary(has_record: bool, images: usize) -> (r: String)
    ensures
        r@ == embed_summary_text(has_record, images as nat),
{
    if has_record {
        if images == 0 {
            String::from_str("  a record")
        } else if images == 1 {
            String::from_str("  a record with 1 image")
        } else {
            let mut r = String::from_str("  a record with ");
            let n = u64_to_decimal(images as u64);
            r.append(n.as_str());
            r.append(" images");
            r
        }
    } else {
        let mut r = String::from_str("  ");
        let n = u64_to_decimal(images as u64);
        r.append(n.as_str());
        r.append(" images");
        r
    }
}

/// The lines of the embed part of the form: "+ Embed", then the summary of
/// what is embedded, if anything is.
pub fn embed_lines(embed: &Option<EmbedData>) -> (r: Vec<String>)
    ensures
        embed is None ==> string_views(r@) == seq!["+ Embed"@],
        embed matches Some(e) ==> string_views(r@) == seq![
            "+ Embed"@,
            embed_summary_text(e.record is Some, e.images@.len()),
        ],
{
    let mut r: Vec<String> = Vec::new();
    r.push(String::from_str("+ Embed"));
    match embed {
        Some(e) => {
            r.push(embed_summary(e.record.is_some(), e.images.len()));
        },
        None => {},
    }
    proof {
        assert(string_views(r@) =~= r@.map_values(|s: String| s@));
    }
    r
}

/// Where a key press goes in the new-post view.
#[derive(Clone, Copy, Debug, PartialEq, Eq, Structural)]
pub enum KeyTarget {
    /// To the embed modal that is open on top of the form.
    Modal,
    /// Typed into the text field.
    Text,
    /// Into the languages field, which it confirms: the view answers Enter.
    LangsEnter,
    /// Typed into the languages field.
    Langs,
    /// Nowhere.
    Ignore,
}

/// Where a key press goes: to the open modal first; into the text field
/// whatever the key; into the languages field unless it confirms; nowhere
/// when a button has the focus.
pub fn key_target(modal_open: bool, focus: Focus, confirm: bool) -> (r: KeyTarget)
    ensures
        r == (if modal_open {
            KeyTarget::Modal
        } else {
            match focus {
                Focus::Text => KeyTarget::Text,
                Focus::Langs => if confirm { KeyTarget::LangsEnter } else { KeyTarget::Langs },
                _ => KeyTarget::Ignore,
            }
        }),
{
    if modal_open {
        KeyTarget::Modal
    } else {
        match focus {
            Focus::Text => KeyTarget::Text,
            Focus::Langs => if confirm { KeyTarget::LangsEnter } else { KeyTarget::Langs },
            _ => KeyTarget::Ignore,
        }
    }
}

/// The new-post form: where the focus is, what the post embeds, the length of
/// its text, and whether the embed modal is open on top of it.
#[derive(Debug)]
pub struct NewPost {
    pub focus: Focus,
    pub embed: Option<EmbedData>,
    pub text_len: usize,
    pub modal_open: bool,
}

/// What the form does with an action: its answer, whether it opens the embed
/// modal on what is embedded, and whether it sends the post.
#[derive(Clone, Copy, Debug, PartialEq, Eq, Structural)]
pub struct NewPostStep {
    pub reply: Option<ViewAction>,
    pub open_embed: bool,
    pub submit: bool,
}

pub open spec fn embed_view(e: Option<EmbedData>) -> Option<(Seq<crate::embed::ImageDataView>, Option<crate::embed::StrongRefView>)> {
    match e {
        Some(d) => Some((image_views(d.images@), record_view(d.record))),
        None => None,
    }
}

impl NewPost {
    /// An empty form with the focus on the text.
    pub fn new() -> (r: NewPost)
        ensures
            r.focus is Text,
            r.embed is None,
            r.text_len == 0,
            !r.modal_open,
    {
        NewPost { focus: Focus::Text, embed: None, text_len: 0, modal_open: false }
    }

    /// The form's answer to an action while the embed modal is closed: Next
    /// and Prev move the focus; Enter on the embed part opens the embed
    /// modal, and on the submit button sends the post and leaves nothing
    /// focused; Back leaves the view; a transition is passed on; anything
    /// else is ignored.
    pub fn update(&mut self, action: ViewAction) -> (r: NewPostStep)
        requires
            !old(self).modal_open,
        ensures
            final(self).text_len == old(self).text_len,
            embed_view(final(self).embed) == embed_view(old(self).embed),
            final(self).modal_open == r.open_embed,
            r == (match action {
                ViewAction::NextItem | ViewAction::PrevItem => NewPostStep {
                    reply: Some(ViewAction::Render),
                    open_embed: false,
                    submit: false,
                },
                ViewAction::Enter => if old(self).focus is Embed {
                    NewPostStep { reply: Some(ViewAction::Render), open_embed: true, submit: false }
                } else if old(self).focus is Submit {
                    NewPostStep { reply: Some(ViewAction::Render), open_embed: false, submit: true }
                } else {
                    NewPostStep { reply: None, open_embed: false, submit: false }
                },
                ViewAction::Back => NewPostStep {
                    reply: Some(ViewAction::Transition(Transition::Pop)),
                    open_embed: false,
                    submit: false,
                },
                ViewAction::Transition(t) => NewPostStep {
                    reply: Some(ViewAction::Transition(t)),
                    open_embed: false,
                    submit: false,
                },
                _ => NewPostStep { reply: None, open_embed: false, submit: false },
            }),
            final(self).focus == (match action {
                ViewAction::NextItem => spec_next(old(self).focus),
                ViewAction::PrevItem => spec_prev(old(self).focus),
                ViewAction::Enter => if old(self).focus is Submit {
                    Focus::Unfocused
                } else {
                    old(self).focus
                },
                _ => old(self).focus,
            }),
    {
        let none = NewPostStep { reply: None, open_embed: false, submit: false };
        match action {
            ViewAction::NextItem => {
                self.focus = self.focus.next();
                NewPostStep { reply: Some(ViewAction::Render), open_embed: false, submit: false }
            },
            ViewAction::PrevItem => {
                self.focus = self.focus.prev();
                NewPostStep { reply: Some(ViewAction::Render), open_embed: false, submit: false }
            },
            ViewAction::Enter => {
                match self.focus {
                    Focus::Embed => {
                        self.modal_open = true;
                        NewPostStep { reply: Some(ViewAction::Render), open_embed: true, submit: false }
                    },
                    Focus::Submit => {
                        self.focus = Focus::Unfocused;
                        NewPostStep { reply: Some(ViewAction::Render), open_embed: false, submit: true }
                    },
                    _ => none,
                }
            },
            ViewAction::Back => NewPostStep {
                reply: Some(ViewAction::Transition(Transition::Pop)),
                open_embed: false,
                submit: false,
            },
            ViewAction::Transition(t) => NewPostStep {
                reply: Some(ViewAction::Transition(t)),
                open_embed: false,
                submit: false,
            },
            _ => none,
        }
    }

    /// Takes the embed modal's answer: a confirmed embedding replaces what
    /// the post embeds (nothing, where it is empty) and closes the modal, as
    /// does a cancellation, both asking for a redraw; a redraw request is
    /// passed on; anything else leaves the modal open and asks for nothing.
    pub fn modal_done(&mut self, outcome: Option<ModalAction>) -> (r: Option<ViewAction>)
        requires
            old(self).modal_open,
        ensures
            final(self).focus == old(self).focus,
            final(self).text_len == old(self).text_len,
            outcome matches Some(ModalAction::Confirm(ModalData::Embed(e))) ==> {
                &&& !final(self).modal_open
                &&& r == Some(ViewAction::Render)
                &&& (e.images@.len() == 0 && e.record is None) ==> final(self).embed is None
                &&& !(e.images@.len() == 0 && e.record is None) ==> embed_view(final(self).embed)
                    == Some((image_views(e.images@), record_view(e.record)))
            },
            outcome matches Some(ModalAction::Cancel) ==> !final(self).modal_open && r == Some(
                ViewAction::Render,
            ) && embed_view(final(self).embed) == embed_view(old(self).embed),
            outcome matches Some(ModalAction::Render) ==> final(self).modal_open && r == Some(
                ViewAction::Render,
            ) && embed_view(final(self).embed) == embed_view(old(self).embed),
            !(outcome matches Some(ModalAction::Confirm(ModalData::Embed(_))) || outcome matches Some(
                ModalAction::Cancel,
            ) || outcome matches Some(ModalAction::Render)) ==> final(self).modal_open && r is None
                && embed_view(final(self).embed) == embed_view(old(self).embed),
    {
        match outcome {
            Some(ModalAction::Confirm(ModalData::Embed(e))) => {
                if e.is_empty() {
                    self.embed = None;
                } else {
                    self.embed = Some(e);
                }
                self.modal_open = false;
                Some(ViewAction::Render)
            },
            Some(ModalAction::Cancel) => {
                self.modal_open = false;
                Some(ViewAction::Render)
            },
            Some(ModalAction::Render) => Some(ViewAction::Render),
            _ => None,
        }
    }

    /// After a key was typed into the text field: the length of the text is
    /// measured again and its state returned (for the field's border); the
    /// view asks for a redraw where the text changed or the cursor moved.
    pub fn text_edited(&mut self, changed: bool, cursor_moved: bool, lines: &Vec<String>) -> (r: (
        Option<ViewAction>,
        LengthState,
    ))
        ensures
            final(self).text_len == grapheme_count(post_text(string_views(lines@))),
            r.1 == spec_length_state(final(self).text_len as nat),
            r.0 == (if changed || cursor_moved { Some(ViewAction::Render) } else { None }),
            final(self).focus == old(self).focus,
            final(self).modal_open == old(self).modal_open,
            embed_view(final(self).embed) == embed_view(old(self).embed),
    {
        self.text_len = text_length(lines);
        let state = length_state(self.text_len);
        (if changed || cursor_moved { Some(ViewAction::Render) } else { None }, state)
    }
}

/// After a key was typed into the languages field: where the text changed,
/// whether every entry is a language tag (for the field's border) and a
/// redraw; where only the cursor moved, a redraw; otherwise nothing.
pub fn langs_edited(changed: bool, cursor_moved: bool, lines: &Vec<String>) -> (r: (
    Option<ViewAction>,
    Option<bool>,
))
    ensures
        changed ==> r == (Some(ViewAction::Render), Some(spec_langs_valid(string_views(lines@)))),
        !changed && cursor_moved ==> r == (Some(ViewAction::Render), None::<bool>),
        !changed && !cursor_moved ==> r == (None::<ViewAction>, None::<bool>),
{
    if changed {
        (Some(ViewAction::Render), Some(langs_valid(lines)))
    } else if cursor_moved {
        (Some(ViewAction::Render), None)
    } else {
        (None, None)
    }
}

/// Largest image file that is attached to a post, in bytes; larger ones
/// are left out.
pub const MAX_IMAGE_BYTES: usize = 1_000_000;

/// What the image library reads from an image file's head: whether the
/// path's extension names a format it knows, and the width and height it
/// decodes.
#[derive(Clone, Copy, Debug, PartialEq, Eq, Structural)]
pub enum ImageProbe {
    UnknownFormat,
    Unreadable,
    Size(u32, u32),
}

/// What the image library reads from the bytes of the image at `path`.
pub uninterp spec fn probe_image(path: Seq<char>, bytes: Seq<u8>) -> ImageProbe;

/// Takes the format from the extension of `path` (`ImageFormat::from_path`)
/// and reads the dimensions of the image in `bytes` in that format
/// (`ImageReader::with_format(..).into_dimensions()`); the result is
/// `probe_image` of the path and the bytes.
#[verifier::external_body]
fn image_probe(path: &str, bytes: &[u8]) -> (r: ImageProbe)
    ensures
        r == probe_image(path@, bytes@),
{
    match image::ImageFormat::from_path(path) {
        Err(_) => ImageProbe::UnknownFormat,
        Ok(format) => {
            let reader = std::io::BufReader::new(std::io::Cursor::new(bytes));
            match image::ImageReader::with_format(reader, format).into_dimensions() {
                Ok((width, height)) => ImageProbe::Size(width, height),
                Err(_) => ImageProbe::Unreadable,
            }
        },
    }
}

/// What becomes of an image when a post is sent: left out (too large),
/// uploaded with its width and height, or the end of the attempt to post.
#[derive(Clone, Copy, Debug, PartialEq, Eq, Structural)]
pub enum ImageCheck {
    Skip,
    Ready(u32, u32),
    Fail,
}

pub open spec fn spec_check_image(len: nat, probe: ImageProbe) -> ImageCheck {
    if len > MAX_IMAGE_BYTES {
        ImageCheck::Skip
    } else {
        match probe {
            ImageProbe::Size(w, h) => if w == 0 || h == 0 {
                ImageCheck::Fail
            } else {
                ImageCheck::Ready(w, h)
            },
            _ => ImageCheck::Fail,
        }
    }
}

/// What becomes of an image of `len` bytes of which the image library read
/// `probe`: too large ones are left out; one whose format is unknown, which
/// cannot be read, or which has no width or height ends the attempt to post;
/// the others are uploaded with their dimensions.
pub fn check_probed_image(len: usize, probe: ImageProbe) -> (r: ImageCheck)
    ensures
        r == spec_check_image(len as nat, probe),
{
    if len > MAX_IMAGE_BYTES {
        ImageCheck::Skip
    } else {
        match probe {
            ImageProbe::Size(w, h) => if w == 0 || h == 0 {
                ImageCheck::Fail
            } else {
                ImageCheck::Ready(w, h)
            },
            _ => ImageCheck::Fail,
        }
    }
}

/// What becomes of the image at `path` whose file holds `bytes`; a large
/// file is left out without being read as an image.
pub fn check_image(path: &str, bytes: &[u8]) -> (r: ImageCheck)
    ensures
        bytes@.len() > MAX_IMAGE_BYTES ==> r is Skip,
        bytes@.len() <= MAX_IMAGE_BYTES ==> r == spec_check_image(
            bytes@.len(),
            probe_image(path@, bytes@),
        ),
{
    if bytes.len() > MAX_IMAGE_BYTES {
        ImageCheck::Skip
    } else {
        check_probed_image(bytes.len(), image_probe(path, bytes))
    }
}

/// The images to upload, in order: the position of each ready one with its
/// width and height.
pub open spec fn ready_images(checks: Seq<ImageCheck>) -> Seq<(usize, u32, u32)>
    decreases checks.len(),
{
    if checks.len() == 0 {
        Seq::empty()
    } else {
        let rest = ready_images(checks.drop_last());
        match checks.last() {
            ImageCheck::Ready(w, h) => rest.push(((checks.len() - 1) as usize, w, h)),
            _ => rest,
        }
    }
}

/// The position of the first image that ends the attempt to post, if any.
pub open spec fn first_failure(checks: Seq<ImageCheck>) -> Option<usize>
    decreases checks.len(),
{
    if checks.len() == 0 {
        None
    } else {
        match first_failure(checks.drop_last()) {
            Some(i) => Some(i),
            None => if checks.last() is Fail {
                Some((checks.len() - 1) as usize)
            } else {
                None
            },
        }
    }
}

/// Which images a post uploads: where one of them ends the attempt, the
/// first such position; otherwise the ready images in order, the ones left
/// out skipped.
pub fn upload_plan(checks: &Vec<ImageCheck>) -> (r: Result<Vec<(usize, u32, u32)>, usize>)
    ensures
        match first_failure(checks@) {
            Some(i) => r == Err::<Vec<(usize, u32, u32)>, usize>(i),
            None => r matches Ok(v) && v@ == ready_images(checks@),
        },
{
    let mut ready: Vec<(usize, u32, u32)> = Vec::new();
    let mut i: usize = 0;
    while i < checks.len()
        invariant
            i <= checks@.len(),
            first_failure(checks@.take(i as int)) is None,
            ready@ == ready_images(checks@.take(i as int)),
        decreases checks@.len() - i,
    {
        proof {
            assert(checks@.take(i + 1).drop_last() =~= checks@.take(i as int));
            assert(checks@.take(i + 1).last() == checks@[i as int]);
        }
        match checks[i] {
            ImageCheck::Fail => {
                proof {
                    lemma_first_failure_prefix(checks@, i + 1);
                }
                return Err(i);
            },
            ImageCheck::Ready(w, h) => {
                ready.push((i, w, h));
            },
            ImageCheck::Skip => {},
        }
        i = i + 1;
    }
    proof {
        assert(checks@.take(checks@.len() as int) =~= checks@);
    }
    Ok(ready)
}

/// Where a prefix of the images already holds a failure, the whole list
/// has the same first failure.
proof fn lemma_first_failure_prefix(checks: Seq<ImageCheck>, n: int)
    requires
        0 <= n <= checks.len(),
        first_failure(checks.take(n)) is Some,
    ensures
        first_failure(checks) == first_failure(checks.take(n)),
    decreases checks.len() - n,
{
    if n < checks.len() {
        assert(checks.take(n + 1).drop_last() =~= checks.take(n));
        lemma_first_failure_prefix(checks, n + 1);
    } else {
        assert(checks.take(n) =~= checks);
    }
}

/// How a post embeds what it embeds.
#[derive(Clone, Copy, Debug, PartialEq, Eq, Structural)]
pub enum PostEmbedKind {
    /// The quoted record alone.
    Record,
    /// The quoted record with the uploaded images.
    RecordWithMedia,
    /// The uploaded images alone.
    Images,
}

/// How a post embeds a record (if it quotes one) and `uploaded` images: a
/// record alone where no image was uploaded, a record with media where some
/// were, and images where there is no record.
pub fn embed_kind(has_record: bool, uploaded: usize) -> (r: PostEmbedKind)
    ensures
        r == (if has_record {
            if uploaded == 0 { PostEmbedKind::Record } else { PostEmbedKind::RecordWithMedia }
        } else {
            PostEmbedKind::Images
        }),
{
    if has_record {
        if uploaded == 0 { PostEmbedKind::Record } else { PostEmbedKind::RecordWithMedia }
    } else {
        PostEmbedKind::Images
    }
}

} // verus!
