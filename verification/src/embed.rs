use vstd::prelude::*;
use crate::actions::ViewAction;
use crate::spans::{dim, dim_style, line_of, line_views, plain, plain_style, text_line, Line, LineView};

verus! {

/// An image to attach to a post: the file's path and its alternative text.
#[derive(Debug)]
pub struct ImageData {
    pub path: String,
    pub alt: String,
}

/// A reference to a record: its URI and content identifier.
#[derive(Debug)]
pub struct StrongRef {
    pub uri: String,
    pub cid: String,
}

/// What a post embeds: images and, optionally, a quoted record.
#[derive(Debug)]
pub struct EmbedData {
    pub images: Vec<ImageData>,
    pub record: Option<StrongRef>,
}

pub ghost struct ImageDataView {
    pub path: Seq<char>,
    pub alt: Seq<char>,
}

pub ghost struct StrongRefView {
    pub uri: Seq<char>,
    pub cid: Seq<char>,
}

impl View for ImageData {
    type V = ImageDataView;

    open spec fn view(&self) -> ImageDataView {
        ImageDataView { path: self.path@, alt: self.alt@ }
    }
}

impl View for StrongRef {
    type V = StrongRefView;

    open spec fn view(&self) -> StrongRefView {
        StrongRefView { uri: self.uri@, cid: self.cid@ }
    }
}

pub open spec fn image_views(s: Seq<ImageData>) -> Seq<ImageDataView> {
    s.map_values(|i: ImageData| i@)
}

pub open spec fn record_view(r: Option<StrongRef>) -> Option<StrongRefView> {
    match r {
        Some(s) => Some(s@),
        None => None,
    }
}

impl ImageData {
    /// A copy of this value.
    pub fn duplicate(&self) -> (r: ImageData)
        ensures
            r@ == self@,
    {
        ImageData { path: self.path.clone(), alt: self.alt.clone() }
    }
}

impl StrongRef {
    /// A copy of this value.
    pub fn duplicate(&self) -> (r: StrongRef)
        ensures
            r@ == self@,
    {
        StrongRef { uri: self.uri.clone(), cid: self.cid.clone() }
    }
}

pub fn duplicate_record(r: &Option<StrongRef>) -> (c: Option<StrongRef>)
    ensures
        record_view(c) == record_view(*r),
{
    match r {
        Some(s) => Some(s.duplicate()),
        None => None,
    }
}

pub fn duplicate_images(v: &Vec<ImageData>) -> (c: Vec<ImageData>)
    ensures
        image_views(c@) == image_views(v@),
{
    let mut c: Vec<ImageData> = Vec::new();
    let mut i: usize = 0;
    while i < v.len()
        invariant
            i <= v@.len(),
            image_views(c@) =~= image_views(v@).take(i as int),
        decreases v@.len() - i,
    {
        let ghost before = c@;
        c.push(v[i].duplicate());
        assert(image_views(v@).take(i + 1) =~= image_views(v@).take(i as int).push(v@[i as int]@));
        assert(image_views(c@) =~= image_views(before).push(c@.last()@));
        i = i + 1;
    }
    assert(image_views(v@).take(v@.len() as int) =~= image_views(v@));
    c
}

impl EmbedData {
    /// Nothing embedded.
    pub fn empty() -> (r: EmbedData)
        ensures
            r.images@.len() == 0,
            r.record is None,
    {
        EmbedData { images: Vec::new(), record: None }
    }

    /// Whether nothing is embedded.
    pub fn is_empty(&self) -> (r: bool)
        ensures
            r == (self.images@.len() == 0 && self.record is None),
    {
        self.images.len() == 0 && self.record.is_none()
    }

    /// A copy of this value.
    pub fn duplicate(&self) -> (r: EmbedData)
        ensures
            image_views(r.images@) == image_views(self.images@),
            record_view(r.record) == record_view(self.record),
    {
        EmbedData { images: duplicate_images(&self.images), record: duplicate_record(&self.record) }
    }
}

/// What a modal hands back when it closes with a result.
#[derive(Debug)]
pub enum ModalData {
    Embed(EmbedData),
    /// An image, and the position of the image it replaces (none for a new one).
    Image(ImageData, Option<usize>),
    Record(StrongRef),
}

/// What a modal answers to an action.
#[derive(Debug)]
pub enum ModalAction {
    Confirm(ModalData),
    /// Delete the image at this position, or the record where none is given.
    Delete(Option<usize>),
    Cancel,
    Render,
}

/// Which modal the embed modal opens on top of itself.
#[derive(Debug)]
pub enum ChildRequest {
    /// Edit the image at this position, starting from this image.
    EditImage(usize, ImageData),
    AddImage,
    /// Edit the record, starting from its URI.
    EditRecord(String),
    AddRecord,
}


/// The modal that edits what a new post embeds: a list of the embedded
/// record and images, and below it the actions "Add images", "Add external",
/// "Add record" and "OK". At most one row of the two lists is selected.
#[derive(Debug)]
pub struct EmbedModal {
    pub embeds_selected: Option<usize>,
    pub actions_selected: Option<usize>,
    pub record: Option<StrongRef>,
    pub images: Vec<ImageData>,
    /// Whether an image or record modal is open on top of this one.
    pub child_open: bool,
    /// Whether the modal open on top was opened to add an image.
    pub adding_image: bool,
}

/// The answer of the embed modal to an action: what it tells the view, and
/// which modal it opens on top of itself.
#[derive(Debug)]
pub struct EmbedStep {
    pub reply: Option<ModalAction>,
    pub open: Option<ChildRequest>,
}

/// The number of rows of the embedded list: the record, if any, and the images.
pub open spec fn embed_rows(record: Option<StrongRef>, images: Seq<ImageData>) -> nat {
    (if record is Some { 1nat } else { 0nat }) + images.len()
}

/// Selection after moving down: from the last embedded row to the first
/// action, down the embedded rows, down the actions (stopping at "OK"), or
/// onto the first action when nothing is selected.
pub open spec fn next_selection(e: Option<usize>, a: Option<usize>, rows: nat) -> (Option<usize>, Option<usize>) {
    match (e, a) {
        (Some(i), None) => if i == rows - 1 {
            (None, Some(0usize))
        } else {
            (Some((i + 1) as usize), None)
        },
        (None, Some(i)) => (None, Some(if i + 1 < 3 { (i + 1) as usize } else { 3usize })),
        _ => (e, Some(0usize)),
    }
}

/// Selection after moving up: up the embedded rows (stopping at the top),
/// from the first action to the last embedded row where there is one, up the
/// actions, or onto the last action when nothing is selected.
pub open spec fn prev_selection(e: Option<usize>, a: Option<usize>, rows: nat) -> (Option<usize>, Option<usize>) {
    match (e, a) {
        (Some(i), None) => (Some(if i >= 1 { (i - 1) as usize } else { 0usize }), None),
        (None, Some(i)) => if i == 0 {
            if rows > 0 {
                (Some((rows - 1) as usize), None)
            } else {
                (None, Some(0usize))
            }
        } else {
            (None, Some((i - 1) as usize))
        },
        _ => (e, Some(3usize)),
    }
}

impl EmbedModal {
    /// At most four images are attached, and a modal opened to add one is
    /// open only while fewer than four are.
    pub open spec fn within_limit(&self) -> bool {
        &&& self.images@.len() <= 4
        &&& self.child_open && self.adding_image ==> self.images@.len() < 4
    }

    /// The selections fit the lists: at most one is set, an embedded row
    /// exists, and an action is one of the four.
    pub open spec fn wf(&self) -> bool {
        &&& !(self.embeds_selected is Some && self.actions_selected is Some)
        &&& self.embeds_selected matches Some(i) ==> i < embed_rows(self.record, self.images@)
        &&& self.actions_selected matches Some(i) ==> i <= 3
    }

    /// The modal opened on what the post embeds so far, nothing selected.
    pub fn new(init: Option<EmbedData>) -> (r: EmbedModal)
        ensures
            r.wf(),
            !r.child_open,
            r.embeds_selected is None,
            r.actions_selected is None,
            !r.adding_image,
            (init matches Some(d) ==> d.images@.len() <= 4) ==> r.within_limit(),
            init matches Some(d) ==> image_views(r.images@) == image_views(d.images@) && record_view(r.record)
                == record_view(d.record),
            init is None ==> r.images@.len() == 0 && r.record is None,
    {
        let (record, images) = match init {
            Some(data) => (data.record, data.images),
            None => (None, Vec::new()),
        };
        EmbedModal { embeds_selected: None, actions_selected: None, record, images, child_open: false, adding_image: false }
    }

    fn rows(&self) -> (n: usize)
        requires
            self.images@.len() < usize::MAX,
        ensures
            n == embed_rows(self.record, self.images@),
    {
        (if self.record.is_some() { 1 } else { 0 }) + self.images.len()
    }

    /// The modal's answer to an action while no modal is open on top of it.
    ///
    /// Next and Prev move the selection (see `next_selection`,
    /// `prev_selection`). Enter on the record opens the record modal on it;
    /// on an image, the image modal on that image; on "Add images" (while
    /// fewer than four images are attached), an empty image modal; on "Add
    /// record", an empty record modal; on "OK", the modal closes with what is
    /// embedded. Back cancels. Every move and Enter other than "OK" asks for a
    /// redraw; other actions are ignored.
    pub fn update(&mut self, action: ViewAction) -> (r: EmbedStep)
        requires
            old(self).wf(),
            !old(self).child_open,
            old(self).images@.len() < usize::MAX,
        ensures
            final(self).wf(),
            old(self).within_limit() ==> final(self).within_limit(),
            final(self).images@.len() == old(self).images@.len(),
            r.open is Some ==> final(self).adding_image == (r.open matches Some(ChildRequest::AddImage)),
            r.open is None ==> final(self).adding_image == old(self).adding_image,
            image_views(final(self).images@) == image_views(old(self).images@),
            record_view(final(self).record) == record_view(old(self).record),
            action is NextItem ==> {
                &&& (final(self).embeds_selected, final(self).actions_selected) == next_selection(
                    old(self).embeds_selected, old(self).actions_selected, embed_rows(old(self).record, old(self).images@))
                &&& r.reply matches Some(ModalAction::Render)
                &&& r.open is None
                &&& !final(self).child_open
            },
            action is PrevItem ==> {
                &&& (final(self).embeds_selected, final(self).actions_selected) == prev_selection(
                    old(self).embeds_selected, old(self).actions_selected, embed_rows(old(self).record, old(self).images@))
                &&& r.reply matches Some(ModalAction::Render)
                &&& r.open is None
                &&& !final(self).child_open
            },
            action is Enter ==> {
                &&& final(self).embeds_selected == old(self).embeds_selected
                &&& final(self).actions_selected == old(self).actions_selected
                &&& final(self).child_open == r.open is Some
                &&& old(self).actions_selected == Some(3usize) ==> r.open is None && (r.reply matches Some(ModalAction::Confirm(ModalData::Embed(d)))
                    && image_views(d.images@) == image_views(old(self).images@) && record_view(d.record) == record_view(old(self).record))
                &&& old(self).actions_selected != Some(3usize) ==> (r.reply matches Some(ModalAction::Render))
                &&& old(self).actions_selected == Some(0usize) && old(self).images@.len() < 4 ==> (r.open matches Some(ChildRequest::AddImage))
                &&& old(self).actions_selected == Some(2usize) ==> (r.open matches Some(ChildRequest::AddRecord))
                &&& (old(self).actions_selected == Some(1usize) || (old(self).actions_selected == Some(0usize) && old(self).images@.len() >= 4)) ==> r.open is None
                &&& old(self).embeds_selected is None && old(self).actions_selected is None ==> r.open is None
                &&& old(self).embeds_selected matches Some(i) ==> ((i == 0 && old(self).record is Some) ==> (r.open matches Some(ChildRequest::EditRecord(u)) && u@ == old(self).record->0.uri@))
                &&& old(self).embeds_selected matches Some(i) ==> (!(i == 0 && old(self).record is Some) ==> {
                    let j = i - (if old(self).record is Some { 1int } else { 0int });
                    r.open matches Some(ChildRequest::EditImage(k, img)) && k == j && img@ == old(self).images@[j]@
                })
            },
            action is Back ==> ((r.reply matches Some(ModalAction::Cancel)) && r.open is None && !final(self).child_open
                && final(self).embeds_selected == old(self).embeds_selected && final(self).actions_selected == old(self).actions_selected),
            !(action is NextItem || action is PrevItem || action is Enter || action is Back) ==> r.reply is None && r.open is None
                && !final(self).child_open && final(self).embeds_selected == old(self).embeds_selected
                && final(self).actions_selected == old(self).actions_selected,
    {
        let rows = self.rows();
        match action {
            ViewAction::NextItem => {
                match (self.embeds_selected, self.actions_selected) {
                    (Some(i), None) => {
                        if i == rows - 1 {
                            self.embeds_selected = None;
                            self.actions_selected = Some(0);
                        } else {
                            self.embeds_selected = Some(i + 1);
                        }
                    },
                    (None, Some(i)) => {
                        self.actions_selected = Some(if i + 1 < 3 { i + 1 } else { 3 });
                    },
                    _ => {
                        self.actions_selected = Some(0);
                    },
                }
                EmbedStep { reply: Some(ModalAction::Render), open: None }
            },
            ViewAction::PrevItem => {
                match (self.embeds_selected, self.actions_selected) {
                    (Some(i), None) => {
                        self.embeds_selected = Some(if i >= 1 { i - 1 } else { 0 });
                    },
                    (None, Some(i)) => {
                        if i == 0 {
                            if rows > 0 {
                                self.actions_selected = None;
                                self.embeds_selected = Some(rows - 1);
                            }
                        } else {
                            self.actions_selected = Some(i - 1);
                        }
                    },
                    _ => {
                        self.actions_selected = Some(3);
                    },
                }
                EmbedStep { reply: Some(ModalAction::Render), open: None }
            },
            ViewAction::Enter => {
                let mut open: Option<ChildRequest> = None;
                match self.embeds_selected {
                    Some(i) => {
                        if i == 0 && self.record.is_some() {
                            match &self.record {
                                Some(record) => {
                                    open = Some(ChildRequest::EditRecord(record.uri.clone()));
                                },
                                None => {},
                            }
                        } else {
                            let j = i - (if self.record.is_some() { 1 } else { 0 });
                            open = Some(ChildRequest::EditImage(j, self.images[j].duplicate()));
                        }
                    },
                    None => {},
                }
                match self.actions_selected {
                    Some(0) => {
                        if self.images.len() < 4 {
                            open = Some(ChildRequest::AddImage);
                        }
                    },
                    Some(2) => {
                        open = Some(ChildRequest::AddRecord);
                    },
                    Some(3) => {
                        let data = EmbedData { images: duplicate_images(&self.images), record: duplicate_record(&self.record) };
                        return EmbedStep { reply: Some(ModalAction::Confirm(ModalData::Embed(data))), open: None };
                    },
                    _ => {},
                }
                self.child_open = open.is_some();
                match open {
                    Some(ChildRequest::AddImage) => {
                        self.adding_image = true;
                    },
                    Some(_) => {
                        self.adding_image = false;
                    },
                    None => {},
                }
                EmbedStep { reply: Some(ModalAction::Render), open }
            },
            ViewAction::Back => EmbedStep { reply: Some(ModalAction::Cancel), open: None },
            _ => EmbedStep { reply: None, open: None },
        }
    }

    /// Takes the answer of the modal open on top of this one. A result
    /// replaces the image at its position or adds a new image, or sets the
    /// record; a deletion removes that image, or the record, and clears the
    /// embedded selection; a cancellation just closes the child. Each of these
    /// closes the child and asks for a redraw; any other answer is passed on
    /// with the child left open. A new image comes only from a modal opened
    /// to add one, and an image or deletion at a position only for an image
    /// that is attached: each modal answers for what it was opened on.
    pub fn child_done(&mut self, outcome: Option<ModalAction>) -> (r: Option<ModalAction>)
        requires
            old(self).wf(),
            old(self).child_open,
            outcome matches Some(ModalAction::Confirm(ModalData::Image(_, Some(i)))) ==> i < old(self).images@.len(),
            outcome matches Some(ModalAction::Delete(Some(i))) ==> i < old(self).images@.len(),
            outcome matches Some(ModalAction::Confirm(ModalData::Image(_, None))) ==> old(self).adding_image,
        ensures
            final(self).wf(),
            old(self).within_limit() ==> final(self).within_limit(),
            final(self).child_open ==> final(self).adding_image == old(self).adding_image,
            !final(self).child_open ==> !final(self).adding_image,
            final(self).actions_selected == old(self).actions_selected,
            outcome matches Some(ModalAction::Confirm(d)) ==> {
                &&& !final(self).child_open
                &&& r matches Some(ModalAction::Render)
                &&& final(self).embeds_selected == old(self).embeds_selected
                &&& match d {
                    ModalData::Image(img, Some(i)) => image_views(final(self).images@) == image_views(old(self).images@).update(i as int, img@)
                        && record_view(final(self).record) == record_view(old(self).record),
                    ModalData::Image(img, None) => image_views(final(self).images@) == image_views(old(self).images@).push(img@)
                        && record_view(final(self).record) == record_view(old(self).record),
                    ModalData::Record(s) => image_views(final(self).images@) == image_views(old(self).images@)
                        && record_view(final(self).record) == Some(s@),
                    ModalData::Embed(_) => image_views(final(self).images@) == image_views(old(self).images@)
                        && record_view(final(self).record) == record_view(old(self).record),
                }
            },
            outcome matches Some(ModalAction::Delete(index)) ==> {
                &&& !final(self).child_open
                &&& r matches Some(ModalAction::Render)
                &&& final(self).embeds_selected is None
                &&& match index {
                    Some(i) => image_views(final(self).images@) == image_views(old(self).images@).remove(i as int)
                        && record_view(final(self).record) == record_view(old(self).record),
                    None => image_views(final(self).images@) == image_views(old(self).images@)
                        && final(self).record is None,
                }
            },
            outcome matches Some(ModalAction::Cancel) ==> !final(self).child_open && (r matches Some(ModalAction::Render))
                && final(self).embeds_selected == old(self).embeds_selected
                && image_views(final(self).images@) == image_views(old(self).images@)
                && record_view(final(self).record) == record_view(old(self).record),
            (outcome is None || outcome matches Some(ModalAction::Render)) ==> final(self).child_open
                && (outcome is None ==> r is None) && (outcome matches Some(ModalAction::Render) ==> (r matches Some(ModalAction::Render)))
                && final(self).embeds_selected == old(self).embeds_selected
                && image_views(final(self).images@) == image_views(old(self).images@)
                && record_view(final(self).record) == record_view(old(self).record),
    {
        match outcome {
            Some(ModalAction::Confirm(data)) => {
                match data {
                    ModalData::Image(image, index) => {
                        match index {
                            Some(i) => {
                                let ghost before = self.images@;
                                self.images.set(i, image);
                                proof {
                                    assert(image_views(self.images@) =~= image_views(before).update(i as int, self.images@[i as int]@));
                                }
                            },
                            None => {
                                let ghost before = self.images@;
                                self.images.push(image);
                                proof {
                                    assert(image_views(self.images@) =~= image_views(before).push(self.images@.last()@));
                                }
                            },
                        }
                    },
                    ModalData::Record(strong_ref) => {
                        self.record = Some(strong_ref);
                    },
                    ModalData::Embed(_) => {},
                }
                self.child_open = false;
                self.adding_image = false;
                Some(ModalAction::Render)
            },
            Some(ModalAction::Delete(index)) => {
                match index {
                    Some(i) => {
                        let ghost before = self.images@;
                        self.images.remove(i);
                        proof {
                            assert(image_views(self.images@) =~= image_views(before).remove(i as int));
                        }
                    },
                    None => {
                        self.record = None;
                    },
                }
                self.child_open = false;
                self.adding_image = false;
                self.embeds_selected = None;
                Some(ModalAction::Render)
            },
            Some(ModalAction::Cancel) => {
                self.child_open = false;
                self.adding_image = false;
                Some(ModalAction::Render)
            },
            other => other,
        }
    }
}
/// An entry of the embedded list: a title line and a dimmed line below.
pub open spec fn entry(title: Seq<char>, detail: Seq<char>) -> Seq<LineView> {
    seq![text_line(title, plain()), LineView { spans: seq![crate::spans::sv("  "@ + detail, plain())], style: dim() }]
}

/// The entries of the embedded list: the record ("record: URI", its CID),
/// then each image ("imageN: PATH" counting from one, its alternative text).
pub open spec fn embed_entries(record: Option<StrongRef>, images: Seq<ImageData>) -> Seq<Seq<LineView>> {
    let head = match record {
        Some(r) => seq![entry("record: "@ + r.uri@, r.cid@)],
        None => Seq::empty(),
    };
    head + Seq::new(images.len(), |i: int| entry("image"@ + crate::text::decimal((i + 1) as nat) + ": "@ + images[i].path@, images[i].alt@))
}

pub open spec fn entry_views(s: Seq<Vec<Line>>) -> Seq<Seq<LineView>> {
    s.map_values(|t: Vec<Line>| line_views(t@))
}

fn entry_lines(title: String, detail: &str) -> (r: Vec<Line>)
    ensures
        line_views(r@) == entry(title@, detail@),
{
    let mut r: Vec<Line> = Vec::new();
    r.push(line_of(title, plain_style()));
    let mut d = String::from_str("  ");
    d.append(detail);
    let mut l = line_of(d, plain_style());
    l.style = dim_style();
    r.push(l);
    assert(line_views(r@) =~= entry(title@, detail@));
    r
}

/// The entries of the embedded list (see `embed_entries`).
pub fn embed_list_entries(record: &Option<StrongRef>, images: &Vec<ImageData>) -> (r: Vec<Vec<Line>>)
    requires
        images@.len() < u64::MAX,
    ensures
        entry_views(r@) == embed_entries(*record, images@),
{
    let mut r: Vec<Vec<Line>> = Vec::new();
    match record {
        Some(rec) => {
            let mut title = String::from_str("record: ");
            title.append(rec.uri.as_str());
            r.push(entry_lines(title, rec.cid.as_str()));
        },
        None => {},
    }
    let ghost head = entry_views(r@);
    let ghost tail = Seq::new(images@.len(), |i: int| entry("image"@ + crate::text::decimal((i + 1) as nat) + ": "@ + images@[i].path@, images@[i].alt@));
    let mut i: usize = 0;
    while i < images.len()
        invariant
            i <= images@.len(),
            images@.len() < u64::MAX,
            tail == Seq::new(images@.len(), |i: int| entry("image"@ + crate::text::decimal((i + 1) as nat) + ": "@ + images@[i].path@, images@[i].alt@)),
            entry_views(r@) =~= head + tail.take(i as int),
        decreases images@.len() - i,
    {
        let mut title = String::from_str("image");
        title.append(crate::text::u64_to_decimal((i + 1) as u64).as_str());
        title.append(": ");
        title.append(images[i].path.as_str());
        let lines = entry_lines(title, images[i].alt.as_str());
        let ghost before = r@;
        r.push(lines);
        assert(entry_views(r@) =~= entry_views(before).push(line_views(r@.last()@)));
        assert(tail.take(i + 1) =~= tail.take(i as int).push(tail[i as int]));
        i = i + 1;
    }
    assert(tail.take(images@.len() as int) =~= tail);
    r
}

} // verus!
