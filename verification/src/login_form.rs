use vstd::prelude::*;
use crate::actions::ViewAction;
use crate::keys::{Key, KeyCode, CONTROL};

verus! {

/// The field of the sign-in form that has the focus.
#[derive(Clone, Copy, Debug, PartialEq, Eq, Structural)]
pub enum Focus {
    Service,
    Identifier,
    Password,
    Submit,
}

pub open spec fn spec_next(f: Focus) -> Focus {
    match f {
        Focus::Service => Focus::Identifier,
        Focus::Identifier => Focus::Password,
        Focus::Password => Focus::Submit,
        Focus::Submit => Focus::Service,
    }
}

pub open spec fn spec_prev(f: Focus) -> Focus {
    match f {
        Focus::Service => Focus::Submit,
        Focus::Identifier => Focus::Service,
        Focus::Password => Focus::Identifier,
        Focus::Submit => Focus::Password,
    }
}

impl Focus {
    /// The next field, from the submit button back to the service field.
    pub fn next(&self) -> (r: Focus)
        ensures
            r == spec_next(*self),
    {
        match self {
            Focus::Service => Focus::Identifier,
            Focus::Identifier => Focus::Password,
            Focus::Password => Focus::Submit,
            Focus::Submit => Focus::Service,
        }
    }

    /// The previous field, from the service field round to the submit button.
    pub fn prev(&self) -> (r: Focus)
        ensures
            r == spec_prev(*self),
    {
        match self {
            Focus::Service => Focus::Submit,
            Focus::Identifier => Focus::Service,
            Focus::Password => Focus::Identifier,
            Focus::Submit => Focus::Password,
        }
    }

    /// Whether the focused field is a text field.
    pub fn is_text_field(&self) -> (r: bool)
        ensures
            r == !(*self is Submit),
    {
        !matches!(self, Focus::Submit)
    }
}

/// Moving the focus forward and back, or back and forward, returns to the
/// same field; four steps forward go round the whole form.
pub proof fn lemma_focus_cycle(f: Focus)
    ensures
        spec_prev(spec_next(f)) == f,
        spec_next(spec_prev(f)) == f,
        spec_next(spec_next(spec_next(spec_next(f)))) == f,
{
}

/// What the sign-in form does with an action: where the focus goes, whether
/// a sign-in starts, and the action it answers with.
#[derive(Clone, Copy, Debug, PartialEq, Eq, Structural)]
pub struct LoginStep {
    pub focus: Focus,
    pub submit: bool,
    pub reply: Option<ViewAction>,
}

pub open spec fn spec_login_update(focus: Focus, action: ViewAction) -> LoginStep {
    match action {
        ViewAction::NextItem => LoginStep { focus: spec_next(focus), submit: false, reply: Some(ViewAction::Render) },
        ViewAction::PrevItem => LoginStep { focus: spec_prev(focus), submit: false, reply: Some(ViewAction::Render) },
        ViewAction::Enter => if focus is Submit {
            LoginStep { focus, submit: true, reply: Some(ViewAction::Render) }
        } else {
            LoginStep { focus: spec_next(focus), submit: false, reply: Some(ViewAction::Render) }
        },
        _ => LoginStep { focus, submit: false, reply: None },
    }
}

/// The sign-in form's answer to an action: Next and Prev move the focus;
/// Enter signs in on the submit button and moves on elsewhere; everything
/// else is ignored.
pub fn login_update(focus: Focus, action: ViewAction) -> (r: LoginStep)
    ensures
        r == spec_login_update(focus, action),
{
    match action {
        ViewAction::NextItem => LoginStep { focus: focus.next(), submit: false, reply: Some(ViewAction::Render) },
        ViewAction::PrevItem => LoginStep { focus: focus.prev(), submit: false, reply: Some(ViewAction::Render) },
        ViewAction::Enter => if matches!(focus, Focus::Submit) {
            LoginStep { focus, submit: true, reply: Some(ViewAction::Render) }
        } else {
            LoginStep { focus: focus.next(), submit: false, reply: Some(ViewAction::Render) }
        },
        _ => LoginStep { focus, submit: false, reply: None },
    }
}

/// Whether a key press confirms a text field rather than typing into it:
/// Enter with any modifiers, or Ctrl-m.
pub open spec fn is_confirm_key(k: Key) -> bool {
    k.0 is Enter || (k.0 == KeyCode::Char('m') && k.1 == CONTROL)
}

/// Whether a key press confirms a text field (see `is_confirm_key`).
pub fn confirm_key(k: &Key) -> (r: bool)
    ensures
        r == is_confirm_key(*k),
{
    match k.0 {
        KeyCode::Enter => true,
        KeyCode::Char(c) => c == 'm' && k.1 == CONTROL,
        _ => false,
    }
}

/// The field that has the focus when the form opens: the identifier (the
/// service is filled in already).
pub fn initial_focus() -> (r: Focus)
    ensures
        r is Identifier,
{
    Focus::Identifier
}

/// The service address the form starts with.
pub fn default_service() -> (r: String)
    ensures
        r@ == "https://bsky.social"@,
{
    String::from_str("https://bsky.social")
}

/// Where a key press goes in the sign-in form.
#[derive(Clone, Copy, Debug, PartialEq, Eq, Structural)]
pub enum LoginKey {
    /// It confirms the field: the form answers Enter.
    Confirm,
    /// It is typed into the focused field.
    Input,
    /// Nowhere: the submit button has the focus.
    Ignore,
}

/// Where a key press goes: nowhere on the submit button; in a text field,
/// a confirming key answers Enter and any other is typed into the field.
pub fn login_key(focus: Focus, confirm: bool) -> (r: LoginKey)
    ensures
        r == (if focus is Submit {
            LoginKey::Ignore
        } else if confirm {
            LoginKey::Confirm
        } else {
            LoginKey::Input
        }),
{
    if matches!(focus, Focus::Submit) {
        LoginKey::Ignore
    } else if confirm {
        LoginKey::Confirm
    } else {
        LoginKey::Input
    }
}

/// The answer to a key typed into a field: a redraw where the text changed
/// or the cursor moved.
pub fn input_answer(changed: bool, cursor_moved: bool) -> (r: Option<ViewAction>)
    ensures
        r == (if changed || cursor_moved { Some(ViewAction::Render) } else { None }),
{
    if changed || cursor_moved { Some(ViewAction::Render) } else { None }
}

/// What signing in sends: the service address, identifier and password,
/// each field's lines run together.
pub fn login_fields(service: &Vec<String>, identifier: &Vec<String>, password: &Vec<String>) -> (r: (
    String,
    String,
    String,
))
    ensures
        r.0@ == crate::text::joined(crate::text::string_views(service@), Seq::empty()),
        r.1@ == crate::text::joined(crate::text::string_views(identifier@), Seq::empty()),
        r.2@ == crate::text::joined(crate::text::string_views(password@), Seq::empty()),
{
    proof {
        reveal_strlit("");
        assert(""@ =~= Seq::<char>::empty());
    }
    (crate::text::join(service, ""), crate::text::join(identifier, ""), crate::text::join(password, ""))
}

/// How an attempt to sign in ended.
#[derive(Debug)]
pub enum LoginAttempt {
    /// No client could be made for the service address.
    NoClient,
    /// The service did not answer.
    Unreachable,
    /// The service refused, with this message.
    Refused(String),
    SignedIn,
}

/// What the form does after an attempt to sign in: the message it shows
/// from then on (unchanged where none is given), whether the column signs
/// in, and whether the screen is redrawn.
#[derive(Debug)]
pub struct LoginOutcome {
    pub message: Option<String>,
    pub signed_in: bool,
    pub redraw: bool,
}

/// What the form does after an attempt to sign in: nothing where no client
/// could be made; "failed to connect to server" where the service did not
/// answer; the service's message where it refused; signing in otherwise.
/// Each but the first redraws the screen.
pub fn login_outcome(attempt: LoginAttempt) -> (r: LoginOutcome)
    ensures
        match attempt {
            LoginAttempt::NoClient => r.message is None && !r.signed_in && !r.redraw,
            LoginAttempt::Unreachable => (r.message matches Some(m) && m@ == "failed to connect to server"@)
                && !r.signed_in && r.redraw,
            LoginAttempt::Refused(e) => r.message == Some(e) && !r.signed_in && r.redraw,
            LoginAttempt::SignedIn => r.message is None && r.signed_in && r.redraw,
        },
{
    match attempt {
        LoginAttempt::NoClient => LoginOutcome { message: None, signed_in: false, redraw: false },
        LoginAttempt::Unreachable => LoginOutcome {
            message: Some(String::from_str("failed to connect to server")),
            signed_in: false,
            redraw: true,
        },
        LoginAttempt::Refused(e) => LoginOutcome { message: Some(e), signed_in: false, redraw: true },
        LoginAttempt::SignedIn => LoginOutcome { message: None, signed_in: true, redraw: true },
    }
}

} // verus!
