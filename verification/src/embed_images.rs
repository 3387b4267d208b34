use vstd::prelude::*;
use crate::actions::ViewAction;
use crate::embed::{ImageData, ImageDataView, ModalAction, ModalData};
use crate::text::{join, joined, string_views};
use crate::spans::{colored, dim, dim_style, color_style, Color, Style};

verus! {

/// The part of the image modal that has the focus.
#[derive(Clone, Copy, Debug, PartialEq, Eq, Structural)]
pub enum Focus {
    Path,
    Alt,
    Confirm,
    Delete,
}

pub open spec fn spec_next(f: Focus, delete: bool) -> Focus {
    match f {
        Focus::Path => Focus::Alt,
        Focus::Alt => Focus::Confirm,
        Focus::Confirm => if delete { Focus::Delete } else { Focus::Confirm },
        Focus::Delete => Focus::Delete,
    }
}

pub open spec fn spec_prev(f: Focus, delete: bool) -> Focus {
    match f {
        Focus::Path => Focus::Path,
        Focus::Alt => Focus::Path,
        Focus::Confirm => Focus::Alt,
        Focus::Delete => Focus::Confirm,
    }
}

/// Position of a focus from top to bottom.
pub open spec fn rank(f: Focus) -> nat {
    match f {
        Focus::Path => 0,
        Focus::Alt => 1,
        Focus::Confirm => 2,
        Focus::Delete => 3,
    }
}

impl Focus {
    /// The next part down; "Delete" is there only when `delete` holds, and
    /// the last part keeps the focus.
    pub fn next(&self, delete: bool) -> (r: Focus)
        ensures
            r == spec_next(*self, delete),
    {
        match self {
            Focus::Path => Focus::Alt,
            Focus::Alt => Focus::Confirm,
            Focus::Confirm => if delete { Focus::Delete } else { Focus::Confirm },
            Focus::Delete => Focus::Delete,
        }
    }

    /// The next part up; the path field keeps the focus.
    pub fn prev(&self, delete: bool) -> (r: Focus)
        ensures
            r == spec_prev(*self, delete),
    {
        match self {
            Focus::Path => Focus::Path,
            Focus::Alt => Focus::Path,
            Focus::Confirm => Focus::Alt,
            Focus::Delete => Focus::Confirm,
        }
    }
}

/// Moving down never moves up and moving up never moves down; "Delete" is
/// reached only where deleting is offered; a step down and a step up return
/// where a step down moved, and a step up and a step down return where a step
/// up moved.
pub proof fn lemma_focus_moves(f: Focus, delete: bool)
    ensures
        rank(spec_next(f, delete)) >= rank(f),
        rank(spec_prev(f, delete)) <= rank(f),
        !delete && f != Focus::Delete ==> spec_next(f, delete) != Focus::Delete,
        spec_next(f, delete) != f ==> spec_prev(spec_next(f, delete), delete) == f,
        spec_prev(f, delete) != f ==> spec_next(spec_prev(f, delete), delete) == f || (f == Focus::Delete && !delete),
{
}

/// What the file at the entered path looks like.
#[derive(Clone, Copy, Debug, PartialEq, Eq, Structural)]
pub enum PathState {
    /// Nothing is there (or it cannot be read).
    Missing,
    /// A file of at most a million bytes that decodes as an image.
    Valid,
    /// Something that cannot be attached.
    Invalid,
}

/// Whether a file is worth decoding: a regular file of at most a million bytes.
pub open spec fn spec_worth_decoding(is_file: bool, len: u64) -> bool {
    is_file && len <= 1_000_000
}

/// Whether the file should be decoded to check it (see `spec_worth_decoding`).
pub fn worth_decoding(is_file: bool, len: u64) -> (r: bool)
    ensures
        r == spec_worth_decoding(is_file, len),
{
    is_file && len <= 1_000_000
}

/// The state of a path, from what the file system tells of it (none where
/// it has nothing there) and whether the file decodes as an image (asked only
/// where it is worth decoding).
pub open spec fn spec_path_state(metadata: Option<(bool, u64)>, decodes: bool) -> PathState {
    match metadata {
        Some((is_file, len)) => if spec_worth_decoding(is_file, len) && decodes {
            PathState::Valid
        } else {
            PathState::Invalid
        },
        None => PathState::Missing,
    }
}

/// The state of a path (see `spec_path_state`).
pub fn path_state(metadata: Option<(bool, u64)>, decodes: bool) -> (r: PathState)
    ensures
        r == spec_path_state(metadata, decodes),
{
    match metadata {
        Some((is_file, len)) => if worth_decoding(is_file, len) && decodes {
            PathState::Valid
        } else {
            PathState::Invalid
        },
        None => PathState::Missing,
    }
}

/// Where a key press goes in the image modal.
#[derive(Clone, Copy, Debug, PartialEq, Eq, Structural)]
pub enum KeyRoute {
    /// Into the path field (after which the path is checked again).
    Path,
    /// Into the alternative text field.
    Alt,
    /// Nowhere.
    Ignore,
}

/// Where a key press goes: confirming keys are not typed into the path
/// field; the buttons take no keys.
pub fn key_route(focus: Focus, confirm: bool) -> (r: KeyRoute)
    ensures
        r == (match focus {
            Focus::Path => if confirm { KeyRoute::Ignore } else { KeyRoute::Path },
            Focus::Alt => KeyRoute::Alt,
            _ => KeyRoute::Ignore,
        }),
{
    match focus {
        Focus::Path => if confirm { KeyRoute::Ignore } else { KeyRoute::Path },
        Focus::Alt => KeyRoute::Alt,
        _ => KeyRoute::Ignore,
    }
}

/// The modal that adds an image to a post or edits one (`index` is the
/// position of the image it edits).
#[derive(Clone, Copy, Debug, PartialEq, Eq, Structural)]
pub struct ImagesModal {
    pub focus: Focus,
    pub state: PathState,
    pub index: Option<usize>,
}

impl ImagesModal {
    /// The modal with the focus on the path, the path in `state`.
    pub fn new(index: Option<usize>, state: PathState) -> (r: ImagesModal)
        ensures
            r == (ImagesModal { focus: Focus::Path, state, index }),
    {
        ImagesModal { focus: Focus::Path, state, index }
    }

    /// The modal's answer to an action, given the lines of its path and
    /// alternative text fields.
    ///
    /// Next and Prev move the focus. Enter on "OK" (`Confirm`) hands back the image (the
    /// path's lines joined, the text's lines joined by line breaks) where the
    /// path is attachable, and nothing otherwise; on "Delete" asks to delete
    /// the edited image; elsewhere it moves the focus down. Back cancels.
    pub fn update(&mut self, action: ViewAction, path_lines: &Vec<String>, alt_lines: &Vec<String>) -> (r: Option<ModalAction>)
        ensures
            final(self).state == old(self).state,
            final(self).index == old(self).index,
            action is NextItem ==> final(self).focus == spec_next(old(self).focus, old(self).index is Some)
                && (r matches Some(ModalAction::Render)),
            action is PrevItem ==> final(self).focus == spec_prev(old(self).focus, old(self).index is Some)
                && (r matches Some(ModalAction::Render)),
            action is Enter ==> match old(self).focus {
                Focus::Confirm => final(self).focus == old(self).focus && if old(self).state is Valid {
                    r matches Some(ModalAction::Confirm(ModalData::Image(img, index)))
                        && img@ == (ImageDataView { path: joined(string_views(path_lines@), Seq::empty()), alt: joined(string_views(alt_lines@), seq!['\n']) })
                        && index == old(self).index
                } else {
                    r is None
                },
                Focus::Delete => final(self).focus == old(self).focus && (r matches Some(ModalAction::Delete(i)) && i == old(self).index),
                _ => final(self).focus == spec_next(old(self).focus, old(self).index is Some) && (r matches Some(ModalAction::Render)),
            },
            action is Back ==> final(self).focus == old(self).focus && (r matches Some(ModalAction::Cancel)),
            !(action is NextItem || action is PrevItem || action is Enter || action is Back) ==> final(self).focus
                == old(self).focus && r is None,
    {
        match action {
            ViewAction::NextItem => {
                self.focus = self.focus.next(self.index.is_some());
                Some(ModalAction::Render)
            },
            ViewAction::PrevItem => {
                self.focus = self.focus.prev(self.index.is_some());
                Some(ModalAction::Render)
            },
            ViewAction::Enter => match self.focus {
                Focus::Confirm => {
                    if matches!(self.state, PathState::Valid) {
                        let path = join(path_lines, "");
                        let alt = join(alt_lines, "\n");
                        proof {
                            reveal_strlit("");
                            reveal_strlit("\n");
                            assert(""@ =~= Seq::<char>::empty());
                            assert("\n"@ =~= seq!['\n']);
                        }
                        Some(ModalAction::Confirm(ModalData::Image(ImageData { path, alt }, self.index)))
                    } else {
                        None
                    }
                },
                Focus::Delete => Some(ModalAction::Delete(self.index)),
                _ => {
                    self.focus = self.focus.next(self.index.is_some());
                    Some(ModalAction::Render)
                },
            },
            ViewAction::Back => Some(ModalAction::Cancel),
            _ => None,
        }
    }
}

/// The style of the OK button: blue where the path is a usable image,
/// dimmed otherwise.
pub fn ok_button_style(state: PathState) -> (r: Style)
    ensures
        r == (if state is Valid { colored(Color::Blue) } else { dim() }),
{
    match state {
        PathState::Valid => color_style(Color::Blue),
        _ => dim_style(),
    }
}

} // verus!
