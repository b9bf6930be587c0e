//! Application state: the login form, the profile, and the state that
//! moves between the login and chat screens.
use vstd::prelude::*;

use crate::data::matrix_service::MatrixService;
use crate::data::models::User;
use crate::screens::chat::chat_state::ChatScreenState;
use crate::screens::Screen;
use crate::text::{byte_len, string_clear, string_len, string_of};
use crate::ui::input_handler::{
    after_delete, after_enter, after_left, after_right, delete_ok, enter_ok, lemma_enter_then_delete,
};

verus! {

/// Number of fields of the login form.
pub const LOGIN_FIELD_COUNT: usize = 3;

#[derive(Debug)]
pub struct LoginForm {
    pub username: String,
    pub password: String,
    pub homeserver: String,
    pub active_field: usize,  // Index-based field selection
    pub editing: bool,
    pub username_cursor: usize,
    pub password_cursor: usize,
    pub homeserver_cursor: usize,
}

impl LoginForm {
    /// Text of field `i` (0 username, 1 password, 2 homeserver; empty otherwise).
    pub open spec fn field_text(&self, i: int) -> Seq<char> {
        if i == 0 {
            self.username@
        } else if i == 1 {
            self.password@
        } else if i == 2 {
            self.homeserver@
        } else {
            Seq::empty()
        }
    }

    /// Cursor of field `i` (0 for indices past the last field).
    pub open spec fn field_cursor(&self, i: int) -> int {
        if i == 0 {
            self.username_cursor as int
        } else if i == 1 {
            self.password_cursor as int
        } else if i == 2 {
            self.homeserver_cursor as int
        } else {
            0
        }
    }

    /// `other` agrees with `self` on every field but `i`, and on the
    /// selection and editing flag.
    pub open spec fn same_except(&self, other: &Self, i: int) -> bool {
        &&& other.active_field == self.active_field
        &&& other.editing == self.editing
        &&& forall|j: int|
            0 <= j < 3 && j != i ==> #[trigger] other.field_text(j) == self.field_text(j)
                && other.field_cursor(j) == self.field_cursor(j)
    }

    /// `other` holds the same texts, cursors and editing flag as `self`
    /// (the selection may differ).
    pub open spec fn same_fields(&self, other: &Self) -> bool {
        &&& other.editing == self.editing
        &&& other.username == self.username
        &&& other.password == self.password
        &&& other.homeserver == self.homeserver
        &&& other.username_cursor == self.username_cursor
        &&& other.password_cursor == self.password_cursor
        &&& other.homeserver_cursor == self.homeserver_cursor
    }

    /// The form as it starts: empty username and password, `matrix.org` as
    /// homeserver with the cursor after it, username field selected.
    pub open spec fn is_initial(&self) -> bool {
        &&& self.username@ == Seq::<char>::empty()
        &&& self.password@ == Seq::<char>::empty()
        &&& self.homeserver@ == "matrix.org"@
        &&& self.active_field == 0
        &&& !self.editing
        &&& self.username_cursor == 0
        &&& self.password_cursor == 0
        &&& self.homeserver_cursor == 10
    }

    /// `new` is `self` with the next field selected.
    pub open spec fn selected_next(&self, new: &Self) -> bool {
        &&& new.active_field == (self.active_field + 1) % 3
        &&& new.same_fields(self)
    }

    /// `new` is `self` with the previous field selected (the last one
    /// before the first).
    pub open spec fn selected_previous(&self, new: &Self) -> bool {
        &&& new.active_field == if self.active_field == 0 {
            2
        } else {
            self.active_field - 1
        }
        &&& new.same_fields(self)
    }

    /// `c` can be typed at the cursor of the selected field.
    pub open spec fn can_type(&self) -> bool {
        self.active_field < 3 ==> enter_ok(
            self.field_text(self.active_field as int),
            self.field_cursor(self.active_field as int),
        )
    }

    /// Backspace can be applied at the cursor of the selected field.
    pub open spec fn can_backspace(&self) -> bool {
        self.active_field < 3 ==> delete_ok(
            self.field_text(self.active_field as int),
            self.field_cursor(self.active_field as int),
        )
    }

    /// `new` is `self` after typing `c` in the selected field.
    pub open spec fn typed(&self, new: &Self, c: char) -> bool {
        &&& self.active_field < 3 ==> {
            let af = self.active_field as int;
            let e = after_enter(self.field_text(af), self.field_cursor(af), c);
            &&& new.field_text(af) == e.0
            &&& new.field_cursor(af) == e.1
            &&& new.same_except(self, af)
        }
        &&& self.active_field >= 3 ==> *new == *self
    }

    /// `new` is `self` after Backspace in the selected field.
    pub open spec fn backspaced(&self, new: &Self) -> bool {
        &&& self.active_field < 3 ==> {
            let af = self.active_field as int;
            let d = after_delete(self.field_text(af), self.field_cursor(af));
            &&& new.field_text(af) == d.0
            &&& new.field_cursor(af) == d.1
            &&& new.same_except(self, af)
        }
        &&& self.active_field >= 3 ==> *new == *self
    }

    /// `new` is `self` with the selected field's cursor moved left.
    pub open spec fn moved_left(&self, new: &Self) -> bool {
        &&& self.active_field < 3 ==> {
            let af = self.active_field as int;
            &&& new.field_text(af) == self.field_text(af)
            &&& new.field_cursor(af) == after_left(self.field_cursor(af))
            &&& new.same_except(self, af)
        }
        &&& self.active_field >= 3 ==> *new == *self
    }

    /// `new` is `self` with the selected field's cursor moved right.
    pub open spec fn moved_right(&self, new: &Self) -> bool {
        &&& self.active_field < 3 ==> {
            let af = self.active_field as int;
            &&& new.field_text(af) == self.field_text(af)
            &&& new.field_cursor(af) == after_right(self.field_text(af), self.field_cursor(af))
            &&& new.same_except(self, af)
        }
        &&& self.active_field >= 3 ==> *new == *self
    }

    /// All three fields are filled in.
    pub open spec fn filled(&self) -> bool {
        self.username@.len() > 0 && self.password@.len() > 0 && self.homeserver@.len() > 0
    }

    pub fn default() -> (r: Self)
        ensures
            r.is_initial(),
    {
        LoginForm {
            username: String::new(),
            password: String::new(),
            homeserver: string_of("matrix.org"),
            active_field: 0,  // Start with username field
            editing: false,
            username_cursor: 0,
            password_cursor: 0,
            homeserver_cursor: 10,  // Position after "matrix.org"
        }
    }

    pub fn next_field(&mut self)
        requires
            old(self).active_field < usize::MAX,
        ensures
            old(self).selected_next(final(self)),
    {
        self.active_field = (self.active_field + 1) % 3;
    }

    pub fn previous_field(&mut self)
        ensures
            old(self).selected_previous(final(self)),
    {
        self.active_field = if self.active_field == 0 {
            2
        } else {
            self.active_field - 1
        };
    }

    pub fn get_field_value(&self, field_index: usize) -> (r: &str)
        ensures
            r@ == self.field_text(field_index as int),
    {
        match field_index {
            0 => self.username.as_str(),
            1 => self.password.as_str(),
            2 => self.homeserver.as_str(),
            _ => {
                proof {
                    reveal_strlit("");
                }
                ""
            },
        }
    }

    pub fn get_field_cursor(&self, field_index: usize) -> (r: usize)
        ensures
            r == self.field_cursor(field_index as int),
    {
        match field_index {
            0 => self.username_cursor,
            1 => self.password_cursor,
            2 => self.homeserver_cursor,
            _ => 0,
        }
    }

    /// Text and cursor of field `field_index`, for editing in place.
    pub fn get_field_mut(&mut self, field_index: usize) -> (r: Option<(&mut String, &mut usize)>)
        ensures
            (field_index < 3) <==> r is Some,
            r matches Some((v, c)) ==> {
                &&& v@ == old(self).field_text(field_index as int)
                &&& *c == old(self).field_cursor(field_index as int)
                &&& final(self).field_text(field_index as int) == final(v)@
                &&& final(self).field_cursor(field_index as int) == *final(c)
                &&& final(self).same_except(old(self), field_index as int)
            },
            r is None ==> *final(self) == *old(self),
    {
        match field_index {
            0 => Some((&mut self.username, &mut self.username_cursor)),
            1 => Some((&mut self.password, &mut self.password_cursor)),
            2 => Some((&mut self.homeserver, &mut self.homeserver_cursor)),
            _ => None,
        }
    }

    /// Types `c` at the cursor of the selected field.
    pub fn enter_char(&mut self, c: char)
        requires
            old(self).can_type(),
        ensures
            old(self).typed(final(self), c),
    {
        if let Some((value, cursor)) = self.get_field_mut(self.active_field) {
            crate::text::string_insert(value, *cursor, c);
            *cursor += 1;
        }
    }

    /// Backspace in the selected field.
    pub fn delete_char(&mut self)
        requires
            old(self).can_backspace(),
        ensures
            old(self).backspaced(final(self)),
    {
        if let Some((value, cursor)) = self.get_field_mut(self.active_field) {
            if *cursor > 0 {
                crate::text::string_remove(value, *cursor - 1);
                *cursor -= 1;
            }
        }
    }

    pub fn move_cursor_left(&mut self)
        ensures
            old(self).moved_left(final(self)),
    {
        if let Some((_, cursor)) = self.get_field_mut(self.active_field) {
            if *cursor > 0 {
                *cursor -= 1;
            }
        }
    }

    pub fn move_cursor_right(&mut self)
        ensures
            old(self).moved_right(final(self)),
    {
        if let Some((value, cursor)) = self.get_field_mut(self.active_field) {
            if *cursor < string_len(value) {
                *cursor += 1;
            }
        }
    }

    /// Puts the form back as it starts.
    pub fn clear(&mut self)
        ensures
            final(self).is_initial(),
    {
        string_clear(&mut self.username);
        string_clear(&mut self.password);
        self.homeserver = string_of("matrix.org");
        self.username_cursor = 0;
        self.password_cursor = 0;
        self.homeserver_cursor = 10;
        self.active_field = 0;
        self.editing = false;
    }

    /// All three fields are filled in.
    pub fn is_valid(&self) -> (b: bool)
        ensures
            b == self.filled(),
    {
        !self.username.as_str().is_empty() && !self.password.as_str().is_empty()
            && !self.homeserver.as_str().is_empty()
    }
}

#[derive(Debug)]
pub struct Profile {
    pub username: String,
    pub email: String,
    pub homeserver: String,
}

impl Profile {
    /// The profile before anyone signs in.
    pub open spec fn is_initial(&self) -> bool {
        &&& self.username@ == Seq::<char>::empty()
        &&& self.email@ == Seq::<char>::empty()
        &&& self.homeserver@ == "matrix.org"@
    }

    pub fn default() -> (r: Self)
        ensures
            r.is_initial(),
    {
        Profile { username: String::new(), email: String::new(), homeserver: string_of("matrix.org") }
    }
}

#[derive(Debug)]
pub struct AppState {
    pub current_screen: Screen,
    pub login_form: LoginForm,
    pub profile: Profile,
    pub logged_in: bool,
    pub matrix_service: MatrixService,
    pub chat_state: ChatScreenState,
}

impl AppState {
    /// Nobody signed in: the login screen with an initial form and profile,
    /// a signed-out service and a fresh chat screen.
    pub open spec fn is_signed_out(&self) -> bool {
        &&& self.current_screen == Screen::Login
        &&& self.login_form.is_initial()
        &&& self.profile.is_initial()
        &&& !self.logged_in
        &&& self.matrix_service.current_user is None
        &&& !self.matrix_service.is_authenticated
        &&& self.matrix_service.sync_token is None
        &&& self.chat_state.is_fresh()
        &&& self.chat_state.current_user is None
    }

    pub fn default() -> (r: Self)
        ensures
            r.is_signed_out(),
    {
        AppState {
            current_screen: Screen::default(),
            login_form: LoginForm::default(),
            profile: Profile::default(),
            logged_in: false,
            matrix_service: MatrixService::new(),
            chat_state: ChatScreenState::default(),
        }
    }

    pub fn set_screen(&mut self, screen: Screen)
        ensures
            *final(self) == (Self { current_screen: screen, ..*old(self) }),
    {
        self.current_screen = screen;
    }

    /// `user` signed in with the form's details: the profile takes the
    /// form's username and homeserver, the chat screen starts afresh for
    /// `user`, and the chat screen is shown.
    pub fn login_success(&mut self, user: User)
        ensures
            final(self).logged_in,
            final(self).profile.username@ == old(self).login_form.username@,
            final(self).profile.homeserver@ == old(self).login_form.homeserver@,
            final(self).profile.email == old(self).profile.email,
            final(self).chat_state.is_fresh(),
            final(self).chat_state.current_user == Some(user),
            final(self).current_screen == Screen::Chat,
            final(self).login_form == old(self).login_form,
            final(self).matrix_service == old(self).matrix_service,
    {
        self.logged_in = true;
        self.profile.username = self.login_form.username.clone();
        self.profile.homeserver = self.login_form.homeserver.clone();
        self.chat_state = ChatScreenState::default().with_user(user);
        self.current_screen = Screen::Chat;
    }

    /// Signs out and puts everything back as it starts.
    pub fn logout(&mut self)
        ensures
            final(self).is_signed_out(),
    {
        self.logged_in = false;
        self.profile = Profile::default();
        self.login_form.clear();
        self.matrix_service = MatrixService::new();
        self.chat_state = ChatScreenState::default();
        self.current_screen = Screen::Login;
    }
}

/// Typing a character in the selected field and then pressing Backspace
/// gives back the form as it was: every field's text and cursor, the
/// selection and the editing flag.
pub proof fn lemma_form_typed_then_backspaced(f: LoginForm, g: LoginForm, h: LoginForm, c: char)
    requires
        f.can_type(),
        f.typed(&g, c),
        g.backspaced(&h),
    ensures
        g.can_backspace(),
        h.active_field == f.active_field,
        h.editing == f.editing,
        forall|j: int|
            0 <= j < 3 ==> #[trigger] h.field_text(j) == f.field_text(j) && h.field_cursor(j)
                == f.field_cursor(j),
{
    if f.active_field < 3 {
        let af = f.active_field as int;
        lemma_enter_then_delete(f.field_text(af), f.field_cursor(af), c);
        assert forall|j: int| 0 <= j < 3 implies #[trigger] h.field_text(j) == f.field_text(j)
            && h.field_cursor(j) == f.field_cursor(j) by {
            if j != af {
                assert(g.field_text(j) == f.field_text(j));
                assert(h.field_text(j) == g.field_text(j));
            }
        }
    }
}

/// Backspace with the cursor at the start of the selected field changes
/// nothing in the form.
pub proof fn lemma_backspace_at_start(f: LoginForm, g: LoginForm)
    requires
        f.active_field < 3 ==> f.field_cursor(f.active_field as int) == 0,
        f.backspaced(&g),
    ensures
        g.active_field == f.active_field,
        g.editing == f.editing,
        forall|j: int|
            0 <= j < 3 ==> #[trigger] g.field_text(j) == f.field_text(j) && g.field_cursor(j)
                == f.field_cursor(j),
{
}

/// Selecting the next field and then the previous one returns to the field
/// that was selected.
pub proof fn lemma_next_then_previous(f: usize)
    requires
        f < 3,
    ensures
        ({
            let n = (f + 1) % 3;
            (if n == 0 { 2 } else { n - 1 }) == f
        }),
{
}

/// Selecting the next field three times comes back to the same field.
pub proof fn lemma_next_field_cycles(f: usize)
    requires
        f < 3,
    ensures
        (((f + 1) % 3 + 1) % 3 + 1) % 3 == f,
{
}

} // verus!
