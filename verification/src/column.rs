use vstd::prelude::*;
use crate::actions::{AppAction, IdType, Transition, ViewAction, ViewKind};
use crate::text::{decimal, u64_to_decimal};

verus! {

/// What went wrong when a column changed its views.
#[derive(Clone, Copy, Debug, PartialEq, Eq, Structural)]
pub enum ColumnError {
    /// A view was to be opened before the column was signed in.
    WatcherMissing,
}

/// The stack of views after a transition: pushing adds a view on top,
/// popping removes the top one (nothing, when there is none), replacing
/// swaps the top one for another (or adds it, when there is none).
pub open spec fn spec_transition(views: Seq<ViewKind>, t: Transition) -> Seq<ViewKind> {
    match t {
        Transition::Push(k) => views.push(k),
        Transition::Pop => if views.len() > 0 { views.drop_last() } else { views },
        Transition::Replace(k) => (if views.len() > 0 { views.drop_last() } else { views }).push(k),
    }
}

/// The stack of views after a transition that could not open its view: a
/// replacement has already removed the top view, a push has changed nothing.
pub open spec fn spec_refused_transition(views: Seq<ViewKind>, t: Transition) -> Seq<ViewKind> {
    match t {
        Transition::Replace(_) => spec_transition(views, Transition::Pop),
        _ => views,
    }
}

/// The views of a column after routing `action`: once signed in, New Post
/// opens the new-post view unless it is already on top.
pub open spec fn routed_views(views: Seq<ViewKind>, signed_in: bool, action: ViewAction) -> Seq<ViewKind> {
    if action is NewPost && signed_in && !new_post_on_top(views) {
        views.push(ViewKind::NewPost)
    } else {
        views
    }
}

/// Whether the menu is open after routing `action`: once signed in, Menu
/// opens or closes it.
pub open spec fn routed_menu(menu_active: bool, signed_in: bool, action: ViewAction) -> bool {
    if action is Menu && signed_in {
        !menu_active
    } else {
        menu_active
    }
}

/// Whether the new-post view is on top of the views.
pub open spec fn new_post_on_top(views: Seq<ViewKind>) -> bool {
    views.len() > 0 && views.last() == ViewKind::NewPost
}

/// How routing treats `action`: a redraw request, New Post where it opens
/// the new-post view, and Menu once signed in are answered at once with a
/// redraw; anything else goes to the menu where it is open, else to the top
/// view.
pub open spec fn routed(views: Seq<ViewKind>, signed_in: bool, menu_active: bool, action: ViewAction) -> ColumnRoute {
    if action is Render || (action is NewPost && signed_in && !new_post_on_top(views)) || (action is Menu && signed_in) {
        ColumnRoute::Answer(Some(AppAction::Render))
    } else if menu_active {
        ColumnRoute::Menu
    } else {
        ColumnRoute::View
    }
}

/// The view action of an application action addressed to column `id`.
pub open spec fn addressed_to(id: IdType, action: AppAction) -> Option<ViewAction> {
    match action {
        AppAction::View(to, a) => if to == id { Some(a) } else { None },
        _ => None,
    }
}

/// Once signed in, asking for the menu is answered with a redraw, and asking
/// twice leaves the menu as it was, and the views with it.
pub proof fn lemma_menu_toggle_twice(menu_active: bool, views: Seq<ViewKind>)
    ensures
        routed(views, true, menu_active, ViewAction::Menu) == ColumnRoute::Answer(Some(AppAction::Render)),
        routed_menu(routed_menu(menu_active, true, ViewAction::Menu), true, ViewAction::Menu) == menu_active,
        routed_views(routed_views(views, true, ViewAction::Menu), true, ViewAction::Menu) == views,
{
}

/// How the routing of a column treats a view action addressed to it.
#[derive(Debug)]
pub enum ColumnRoute {
    /// Answered at once with this application action.
    Answer(Option<AppAction>),
    /// Offered to the menu first, then to the top view.
    Menu,
    /// Handed to the top view.
    View,
}

/// A column: its identifier, its stack of views, whether it is signed in
/// (it then watches the service), whether its menu is open, and the handle
/// of its session once known.
#[derive(Debug)]
pub struct ColumnState {
    pub id: IdType,
    pub views: Vec<ViewKind>,
    pub signed_in: bool,
    pub menu_active: bool,
    pub handle: Option<String>,
}

impl ColumnState {
    /// A column with no views, not signed in, its menu closed.
    pub fn new(id: IdType) -> (r: ColumnState)
        ensures
            r.id == id,
            r.views@.len() == 0,
            !r.signed_in,
            !r.menu_active,
            r.handle is None,
    {
        ColumnState { id, views: Vec::new(), signed_in: false, menu_active: false, handle: None }
    }

    /// Starts the column on the sign-in view.
    pub fn init(&mut self)
        ensures
            final(self).views@ == seq![ViewKind::Login],
            final(self).id == old(self).id,
            final(self).signed_in == old(self).signed_in,
            final(self).menu_active == old(self).menu_active,
            final(self).handle == old(self).handle,
    {
        let mut views: Vec<ViewKind> = Vec::new();
        views.push(ViewKind::Login);
        self.views = views;
    }

    /// The title of the column: its session's handle, or its identifier
    /// before a session is known, with a space on each side.
    pub fn title(&self) -> (r: String)
        ensures
            r@ == match self.handle {
                Some(h) => seq![' '] + h@ + seq![' '],
                None => " id: "@ + decimal(self.id as nat) + seq![' '],
            },
    {
        match &self.handle {
            Some(h) => {
                let mut r = crate::text::char_string(' ');
                r.append(h.as_str());
                crate::text::push_char(&mut r, ' ');
                r
            },
            None => {
                let mut r = String::from_str(" id: ");
                r.append(u64_to_decimal(self.id as u64).as_str());
                crate::text::push_char(&mut r, ' ');
                r
            },
        }
    }

    /// Changes the stack of views (see `spec_transition`). Opening a view
    /// needs the column to be signed in; otherwise the error is returned
    /// after what comes before the opening (see `spec_refused_transition`).
    /// A redraw is asked for.
    pub fn transition(&mut self, t: Transition) -> (r: Result<Option<AppAction>, ColumnError>)
        ensures
            final(self).id == old(self).id,
            final(self).signed_in == old(self).signed_in,
            final(self).menu_active == old(self).menu_active,
            final(self).handle == old(self).handle,
            (t is Pop || old(self).signed_in) ==> r == Ok::<Option<AppAction>, ColumnError>(Some(AppAction::Render))
                && final(self).views@ == spec_transition(old(self).views@, t),
            !(t is Pop || old(self).signed_in) ==> r == Err::<Option<AppAction>, ColumnError>(ColumnError::WatcherMissing)
                && final(self).views@ == spec_refused_transition(old(self).views@, t),
    {
        match t {
            Transition::Push(k) => {
                if !self.signed_in {
                    return Err(ColumnError::WatcherMissing);
                }
                self.views.push(k);
            },
            Transition::Pop => {
                if self.views.len() > 0 {
                    self.views.pop();
                }
            },
            Transition::Replace(k) => {
                if self.views.len() > 0 {
                    self.views.pop();
                }
                if !self.signed_in {
                    return Err(ColumnError::WatcherMissing);
                }
                self.views.push(k);
            },
        }
        Ok(Some(AppAction::Render))
    }

    /// The first step of a view action addressed to this column. A redraw
    /// request is passed up. Once signed in, New Post opens the new-post
    /// view, unless it is already on top (then the action goes on to the
    /// views), and Menu opens or closes the menu; both ask for a redraw.
    /// Otherwise the action goes to the menu where it is open, and to the
    /// top view.
    pub fn route(&mut self, action: ViewAction) -> (r: ColumnRoute)
        ensures
            final(self).views@ == routed_views(old(self).views@, old(self).signed_in, action),
            final(self).menu_active == routed_menu(old(self).menu_active, old(self).signed_in, action),
            r == routed(old(self).views@, old(self).signed_in, old(self).menu_active, action),
            final(self).id == old(self).id,
            final(self).signed_in == old(self).signed_in,
            final(self).handle == old(self).handle,
    {
        let signed_in = self.signed_in;
        if matches!(action, ViewAction::Render) {
            return ColumnRoute::Answer(Some(AppAction::Render));
        }
        if matches!(action, ViewAction::NewPost) && signed_in {
            let n = self.views.len();
            let on_top = n > 0 && self.views[n - 1] == ViewKind::NewPost;
            if !on_top {
                self.views.push(ViewKind::NewPost);
                return ColumnRoute::Answer(Some(AppAction::Render));
            }
        } else if matches!(action, ViewAction::Menu) && signed_in {
            self.menu_active = !self.menu_active;
            return ColumnRoute::Answer(Some(AppAction::Render));
        }
        if self.menu_active { ColumnRoute::Menu } else { ColumnRoute::View }
    }

    /// The view action that `action` addresses to this column, if any.
    pub fn addressed(&self, action: &AppAction) -> (r: Option<ViewAction>)
        ensures
            r == addressed_to(self.id, *action),
    {
        match action {
            AppAction::View(to, a) => if *to == self.id { Some(*a) } else { None },
            _ => None,
        }
    }

    /// The first step of an application action: nothing where it is not a
    /// view action addressed to this column, else its routing (see `route`).
    pub fn update(&mut self, action: &AppAction) -> (r: Option<ColumnRoute>)
        ensures
            final(self).id == old(self).id,
            final(self).signed_in == old(self).signed_in,
            final(self).handle == old(self).handle,
            match addressed_to(old(self).id, *action) {
                None => r is None && final(self).views@ == old(self).views@
                    && final(self).menu_active == old(self).menu_active,
                Some(a) => r == Some(routed(old(self).views@, old(self).signed_in, old(self).menu_active, a))
                    && final(self).views@ == routed_views(old(self).views@, old(self).signed_in, a)
                    && final(self).menu_active == routed_menu(old(self).menu_active, old(self).signed_in, a),
            },
    {
        match self.addressed(action) {
            Some(a) => Some(self.route(a)),
            None => None,
        }
    }

    /// What the column makes of the menu's answer: an answer is passed up
    /// for this column; none sends the action on to the top view.
    pub fn menu_answered(&self, answer: Option<ViewAction>) -> (r: Option<AppAction>)
        ensures
            r == match answer {
                Some(a) => Some(AppAction::View(self.id, a)),
                None => None,
            },
    {
        match answer {
            Some(a) => Some(AppAction::View(self.id, a)),
            None => None,
        }
    }

    /// What the column makes of its top view's answer. Signing out forgets
    /// the session, stops watching and leaves only a sign-in view; a
    /// transition changes the views; both ask for a redraw. Any other answer
    /// is passed up for this column.
    pub fn view_answered(&mut self, answer: Option<ViewAction>) -> (r: Result<Option<AppAction>, ColumnError>)
        ensures
            final(self).id == old(self).id,
            final(self).menu_active == old(self).menu_active,
            answer == Some(ViewAction::Logout) ==> r == Ok::<Option<AppAction>, ColumnError>(Some(AppAction::Render))
                && final(self).views@ == seq![ViewKind::Login] && !final(self).signed_in && final(self).handle is None,
            answer matches Some(ViewAction::Transition(t)) ==> final(self).signed_in == old(self).signed_in
                && final(self).handle == old(self).handle
                && ((t is Pop || old(self).signed_in) ==> r == Ok::<Option<AppAction>, ColumnError>(Some(AppAction::Render))
                    && final(self).views@ == spec_transition(old(self).views@, t))
                && (!(t is Pop || old(self).signed_in) ==> r == Err::<Option<AppAction>, ColumnError>(ColumnError::WatcherMissing)
                    && final(self).views@ == spec_refused_transition(old(self).views@, t)),
            !(answer == Some(ViewAction::Logout) || answer matches Some(ViewAction::Transition(_))) ==> final(self).views@
                == old(self).views@ && final(self).signed_in == old(self).signed_in && final(self).handle == old(self).handle
                && r == Ok::<Option<AppAction>, ColumnError>(match answer {
                    Some(a) => Some(AppAction::View(old(self).id, a)),
                    None => None,
                }),
    {
        match answer {
            Some(ViewAction::Logout) => {
                self.handle = None;
                self.signed_in = false;
                self.init();
                Ok(Some(AppAction::Render))
            },
            Some(ViewAction::Transition(t)) => self.transition(t),
            Some(a) => Ok(Some(AppAction::View(self.id, a))),
            None => Ok(None),
        }
    }

    /// Signs the column in: it starts watching the service and its views are
    /// replaced by the root view; a redraw is asked for.
    pub fn signed_in_with_agent(&mut self) -> (r: Option<AppAction>)
        ensures
            final(self).signed_in,
            final(self).id == old(self).id,
            final(self).menu_active == old(self).menu_active,
            final(self).handle == old(self).handle,
            final(self).views@ == spec_transition(old(self).views@, Transition::Replace(ViewKind::Root)),
            r == Some(AppAction::Render),
    {
        self.signed_in = true;
        match self.transition(Transition::Replace(ViewKind::Root)) {
            Ok(a) => a,
            Err(_) => None,
        }
    }

    /// The action a key press asks of this column: the top view's own
    /// answer to the key where the menu is closed and the view has one,
    /// else the action bound to the key in columns, if any; either is
    /// addressed to this column.
    pub fn key_action(&self, view_answer: Option<ViewAction>, bound: Option<ViewAction>) -> (r: Option<AppAction>)
        ensures
            r == (if !self.menu_active && view_answer is Some {
                Some(AppAction::View(self.id, view_answer->0))
            } else {
                match bound {
                    Some(a) => Some(AppAction::View(self.id, a)),
                    None => None,
                }
            }),
    {
        if !self.menu_active {
            match view_answer {
                Some(a) => {
                    return Some(AppAction::View(self.id, a));
                },
                None => {},
            }
        }
        match bound {
            Some(a) => Some(AppAction::View(self.id, a)),
            None => None,
        }
    }
}

/// Pushing a view and popping it again leaves the stack as it was.
pub proof fn lemma_push_pop(views: Seq<ViewKind>, k: ViewKind)
    ensures
        spec_transition(spec_transition(views, Transition::Push(k)), Transition::Pop) == views,
{
    assert(views.push(k).drop_last() =~= views);
}

/// Replacing keeps the depth of a non-empty stack and puts the new view on
/// top; everything below is unchanged.
pub proof fn lemma_replace(views: Seq<ViewKind>, k: ViewKind)
    requires
        views.len() > 0,
    ensures
        spec_transition(views, Transition::Replace(k)).len() == views.len(),
        spec_transition(views, Transition::Replace(k)).last() == k,
        spec_transition(views, Transition::Replace(k)).drop_last() == views.drop_last(),
{
    assert(views.drop_last().push(k).drop_last() =~= views.drop_last());
}

/// Replacing is popping then pushing.
pub proof fn lemma_replace_is_pop_push(views: Seq<ViewKind>, k: ViewKind)
    ensures
        spec_transition(views, Transition::Replace(k)) == spec_transition(
            spec_transition(views, Transition::Pop),
            Transition::Push(k),
        ),
{
}

} // verus!
