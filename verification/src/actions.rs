use vstd::prelude::*;

verus! {

/// Identifier of a column.
pub type IdType = u32;

/// The kinds of view a column can show.
#[derive(Clone, Copy, Debug, PartialEq, Eq, Structural)]
pub enum ViewKind {
    Login,
    Root,
    NewPost,
    Feed,
    Post,
}

/// A change of a column's view stack.
#[derive(Clone, Copy, Debug, PartialEq, Eq, Structural)]
pub enum Transition {
    Push(ViewKind),
    Pop,
    Replace(ViewKind),
}

/// What a view is asked to do, or tells its column. `Login` and `Update`
/// carry data that the caller keeps beside the action.
#[derive(Clone, Copy, Debug, PartialEq, Eq, Structural)]
pub enum ViewAction {
    Render,
    NextItem,
    PrevItem,
    Enter,
    Back,
    Refresh,
    NewPost,
    Menu,
    Login,
    Logout,
    Update,
    Transition(Transition),
}

/// What the application is asked to do. `Login` carries an agent that the
/// caller keeps beside the action.
#[derive(Clone, Debug)]
pub enum AppAction {
    Error(String),
    Help,
    Quit,
    Tick(usize),
    Render,
    NextFocus,
    PrevFocus,
    Suspend,
    View(IdType, ViewAction),
    Login(IdType),
}

} // verus!
