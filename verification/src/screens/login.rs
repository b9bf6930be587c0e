//! The login screen: its fields and what each shows.
use vstd::prelude::*;

use crate::app::{AppState, LoginForm};
use crate::data::matrix_service::is_person;
use crate::data::models::{User, UserPresence};
use crate::screens::Screen;
use crate::text::string_of;
use crate::ui::keys::{KeyCode, KeyEvent};
use crate::ui::layout::{inside, split_area, Area, Axis, Extent};
use crate::ui::text_input::TextInput;

verus! {

#[derive(Debug, Clone, Copy, PartialEq, Eq, Structural)]
pub enum LoginField {
    Username,
    Password,
    Homeserver,
}

/// Index of a login field in the form.
pub open spec fn field_index(f: LoginField) -> usize {
    match f {
        LoginField::Username => 0,
        LoginField::Password => 1,
        LoginField::Homeserver => 2,
    }
}

impl LoginField {
    pub fn default() -> (f: LoginField)
        ensures
            f == LoginField::Username,
    {
        LoginField::Username
    }

    pub fn to_index(&self) -> (i: usize)
        ensures
            i == field_index(*self),
    {
        match self {
            LoginField::Username => 0,
            LoginField::Password => 1,
            LoginField::Homeserver => 2,
        }
    }

    /// The field at `index`; the username field for indices past the last.
    pub fn from_index(index: usize) -> (f: Self)
        ensures
            index < 3 ==> field_index(f) == index,
            index >= 3 ==> f == LoginField::Username,
    {
        match index {
            0 => LoginField::Username,
            1 => LoginField::Password,
            2 => LoginField::Homeserver,
            _ => LoginField::Username,
        }
    }
}

/// A field's index names it back.
pub proof fn lemma_field_index_round_trip(f: LoginField)
    ensures
        field_index(f) < 3,
        forall|g: LoginField| field_index(g) == field_index(f) ==> g == f,
{
}

pub struct LoginScreen;

/// Title of a field's box.
pub open spec fn field_title(f: LoginField) -> Seq<char> {
    match f {
        LoginField::Username => "Username"@,
        LoginField::Password => "Password"@,
        LoginField::Homeserver => "Homeserver"@,
    }
}

/// Hint shown in a field's empty box.
pub open spec fn field_placeholder(f: LoginField) -> Seq<char> {
    match f {
        LoginField::Username => "@username"@,
        LoginField::Password => "Enter your password"@,
        LoginField::Homeserver => "matrix.org"@,
    }
}

impl LoginScreen {
    pub fn get_field_title(&self, field: &LoginField) -> (r: &'static str)
        ensures
            r@ == field_title(*field),
    {
        match field {
            LoginField::Username => "Username",
            LoginField::Password => "Password",
            LoginField::Homeserver => "Homeserver",
        }
    }

    pub fn get_field_placeholder(&self, field: &LoginField) -> (r: &'static str)
        ensures
            r@ == field_placeholder(*field),
    {
        match field {
            LoginField::Username => "@username",
            LoginField::Password => "Enter your password",
            LoginField::Homeserver => "matrix.org",
        }
    }
}

/// `key` is the character `c` typed with Control held.
pub open spec fn is_ctrl_char(key: KeyEvent, c: char) -> bool {
    key.code == KeyCode::Char(c) && key.modifiers.control
}

/// The key leaves the client: Ctrl+C, and, outside editing, `q`.
pub open spec fn login_key_quits(editing: bool, key: KeyEvent) -> bool {
    if editing {
        is_ctrl_char(key, 'c')
    } else {
        key.code == KeyCode::Char('q') || is_ctrl_char(key, 'c')
    }
}

/// The key submits the form: Enter while editing, Ctrl+L otherwise.
pub open spec fn login_key_submits(editing: bool, key: KeyEvent) -> bool {
    if editing {
        key.code == KeyCode::Enter
    } else {
        is_ctrl_char(key, 'l')
    }
}

/// The form `new` is what the key makes of the form `old`.
pub open spec fn login_form_after(old: LoginForm, new: LoginForm, key: KeyEvent) -> bool {
    if old.editing {
        match key.code {
            KeyCode::Esc => new == (LoginForm { editing: false, ..old }),
            KeyCode::Enter => new == (LoginForm { editing: false, ..old }),
            KeyCode::Tab => if key.modifiers.shift {
                old.selected_previous(&new)
            } else {
                old.selected_next(&new)
            },
            KeyCode::Char(c) => if key.modifiers.control {
                new == old
            } else {
                old.typed(&new, c)
            },
            KeyCode::Backspace => old.backspaced(&new),
            KeyCode::Left => old.moved_left(&new),
            KeyCode::Right => old.moved_right(&new),
            _ => new == old,
        }
    } else {
        match key.code {
            KeyCode::Tab => if key.modifiers.shift {
                old.selected_previous(&new)
            } else {
                old.selected_next(&new)
            },
            KeyCode::Enter => new == (LoginForm { editing: true, ..old }),
            KeyCode::Char(c) => if c == ' ' {
                new == (LoginForm { editing: true, ..old })
            } else {
                new == old
            },
            _ => new == old,
        }
    }
}

/// The key can be applied to the form without a string operation at an
/// offset that is not a character boundary.
pub open spec fn login_key_ok(form: LoginForm, key: KeyEvent) -> bool {
    &&& key.code == KeyCode::Tab && !key.modifiers.shift ==> form.active_field < usize::MAX
    &&& form.editing && key.code is Char && !key.modifiers.control ==> form.can_type()
    &&& form.editing && key.code == KeyCode::Backspace ==> form.can_backspace()
}

/// The user that signs in from the form: `@username:homeserver`, named
/// after the username, online.
pub open spec fn is_form_user(u: User, form: LoginForm) -> bool {
    is_person(u, "@"@ + form.username@ + ":"@ + form.homeserver@, form.username@, UserPresence::Online)
}

/// `new` is `old` signed in from its form `new.login_form`.
pub open spec fn signed_in_from(old: AppState, new: AppState) -> bool {
    let form = new.login_form;
    &&& new.logged_in
    &&& new.profile.username@ == form.username@
    &&& new.profile.homeserver@ == form.homeserver@
    &&& new.profile.email == old.profile.email
    &&& new.matrix_service.current_user matches Some(u) && is_form_user(u, form)
    &&& new.matrix_service.is_authenticated
    &&& new.matrix_service.sync_token == old.matrix_service.sync_token
    &&& new.chat_state.is_fresh()
    &&& new.chat_state.current_user matches Some(u) && is_form_user(u, form)
    &&& new.current_screen == Screen::Chat
}

impl LoginScreen {
    /// Signs in from the form when all its fields are filled in.
    fn submit(&self, app_state: &mut AppState) -> (r: Option<Screen>)
        ensures
            old(app_state).login_form.filled() ==> r == Some(Screen::Chat) && signed_in_from(
                *old(app_state),
                *final(app_state),
            ) && final(app_state).login_form == old(app_state).login_form,
            !old(app_state).login_form.filled() ==> r == Some(Screen::Login) && *final(app_state)
                == *old(app_state),
    {
        if app_state.login_form.is_valid() {
            let mut id = string_of("@");
            id.append(app_state.login_form.username.as_str());
            id.append(":");
            id.append(app_state.login_form.homeserver.as_str());
            let user = User {
                user_id: id,
                display_name: Some(app_state.login_form.username.clone()),
                avatar_url: None,
                presence: UserPresence::Online,
            };
            app_state.matrix_service.current_user = Some(user.duplicate());
            app_state.matrix_service.is_authenticated = true;
            app_state.login_success(user);
            Some(Screen::Chat)
        } else {
            Some(Screen::Login)
        }
    }

    /// Whether `handle_key_event` can take `key` in this state (see
    /// `login_key_ok`).
    pub fn accepts_key(&self, key: KeyEvent, app_state: &AppState) -> (b: bool)
        ensures
            b == login_key_ok(app_state.login_form, key),
    {
        let form = &app_state.login_form;
        let tab_ok = !(key.code == KeyCode::Tab && !key.modifiers.shift) || form.active_field
            < usize::MAX;
        if !form.editing || form.active_field >= 3 {
            return tab_ok;
        }
        let text = form.get_field_value(form.active_field);
        let c = form.get_field_cursor(form.active_field);
        match key.code {
            KeyCode::Char(_) => {
                if key.modifiers.control {
                    tab_ok
                } else {
                    crate::text::char_boundary(text, c) && c < usize::MAX
                }
            },
            KeyCode::Backspace => c == 0 || (crate::text::char_boundary(text, c - 1) && c - 1
                < crate::text::str_byte_len(text)),
            _ => tab_ok,
        }
    }

    /// What a key does on the login screen: it quits (`None`), edits the
    /// form, or submits it; a submitted form with every field filled in
    /// signs in and moves to the chat screen.
    pub fn handle_key_event(&self, key: KeyEvent, app_state: &mut AppState) -> (r: Option<Screen>)
        requires
            login_key_ok(old(app_state).login_form, key),
        ensures
            login_key_quits(old(app_state).login_form.editing, key) ==> (r is None && *final(app_state) == *old(app_state)),
            !login_key_quits(old(app_state).login_form.editing, key) ==> {
                &&& login_form_after(old(app_state).login_form, final(app_state).login_form, key)
                &&& if login_key_submits(old(app_state).login_form.editing, key)
                    && old(app_state).login_form.filled() {
                    r == Some(Screen::Chat) && signed_in_from(*old(app_state), *final(app_state))
                } else {
                    r == Some(Screen::Login) && *final(app_state) == (AppState {
                        login_form: final(app_state).login_form,
                        ..*old(app_state)
                    })
                }
            },
    {
        if app_state.login_form.editing {
            match key.code {
                KeyCode::Esc => {
                    app_state.login_form.editing = false;
                    Some(Screen::Login)
                },
                KeyCode::Enter => {
                    app_state.login_form.editing = false;
                    self.submit(app_state)
                },
                KeyCode::Tab => {
                    if key.modifiers.shift {
                        app_state.login_form.previous_field();
                    } else {
                        app_state.login_form.next_field();
                    }
                    Some(Screen::Login)
                },
                KeyCode::Char(c) => {
                    if key.modifiers.control {
                        if c == 'c' {
                            None
                        } else {
                            Some(Screen::Login)
                        }
                    } else {
                        app_state.login_form.enter_char(c);
                        Some(Screen::Login)
                    }
                },
                KeyCode::Backspace => {
                    app_state.login_form.delete_char();
                    Some(Screen::Login)
                },
                KeyCode::Left => {
                    app_state.login_form.move_cursor_left();
                    Some(Screen::Login)
                },
                KeyCode::Right => {
                    app_state.login_form.move_cursor_right();
                    Some(Screen::Login)
                },
                _ => Some(Screen::Login),
            }
        } else {
            match key.code {
                KeyCode::Char('q') => None,
                KeyCode::Tab => {
                    if key.modifiers.shift {
                        app_state.login_form.previous_field();
                    } else {
                        app_state.login_form.next_field();
                    }
                    Some(Screen::Login)
                },
                KeyCode::Enter | KeyCode::Char(' ') => {
                    app_state.login_form.editing = true;
                    Some(Screen::Login)
                },
                KeyCode::Char(c) => {
                    if key.modifiers.control {
                        if c == 'c' {
                            None
                        } else if c == 'l' {
                            self.submit(app_state)
                        } else {
                            Some(Screen::Login)
                        }
                    } else {
                        Some(Screen::Login)
                    }
                },
                _ => Some(Screen::Login),
            }
        }
    }
}

impl LoginScreen {
    /// The input box of a form field: it shows the field's text and cursor
    /// under the field's title and hint, is focused when active, is edited
    /// when active while the form is being edited, and masks the password.
    pub fn field_input<'a>(&self, field: &LoginField, app_state: &'a AppState, is_active: bool) -> (r:
        TextInput<'a>)
        ensures
            r.value@ == app_state.login_form.field_text(field_index(*field) as int),
            r.cursor_position == app_state.login_form.field_cursor(field_index(*field) as int),
            r.title@ == field_title(*field),
            r.placeholder@ == field_placeholder(*field),
            r.is_focused == is_active,
            r.is_editing == (is_active && app_state.login_form.editing),
            r.is_password == (*field == LoginField::Password),
    {
        let index = field.to_index();
        let value = app_state.login_form.get_field_value(index);
        let title = self.get_field_title(field);
        let placeholder = self.get_field_placeholder(field);
        let cursor_pos = app_state.login_form.get_field_cursor(index);
        if let LoginField::Password = field {
            TextInput::password_field(value, cursor_pos, title, placeholder).focused(is_active).editing(
                app_state.login_form.editing && is_active,
            )
        } else if is_active && app_state.login_form.editing {
            TextInput::editable(value, cursor_pos, title, placeholder)
        } else {
            TextInput::new(value, cursor_pos, title, placeholder).focused(is_active)
        }
    }

    /// The controls shown under the form, while editing or not.
    pub fn instructions(&self, editing: bool) -> (r: Vec<&'static str>)
        ensures
            r@.map_values(|t: &'static str| t@) == if editing {
                seq![
                    "ESC - Stop editing"@,
                    "Tab/Shift+Tab - Switch fields"@,
                    "Enter - Submit login"@,
                    "Ctrl+C - Quit"@,
                ]
            } else {
                seq![
                    "Enter/Space - Start editing field"@,
                    "Tab/Shift+Tab - Switch fields"@,
                    "Ctrl+L - Submit login"@,
                    "Ctrl+C - Quit"@,
                ]
            },
    {
        let mut v: Vec<&'static str> = Vec::new();
        if editing {
            v.push("ESC - Stop editing");
            v.push("Tab/Shift+Tab - Switch fields");
            v.push("Enter - Submit login");
        } else {
            v.push("Enter/Space - Start editing field");
            v.push("Tab/Shift+Tab - Switch fields");
            v.push("Ctrl+L - Submit login");
        }
        v.push("Ctrl+C - Quit");
        assert(v@.len() == 4);
        assert(v@.map_values(|t: &'static str| t@) =~= if editing {
            seq![
                "ESC - Stop editing"@,
                "Tab/Shift+Tab - Switch fields"@,
                "Enter - Submit login"@,
                "Ctrl+C - Quit"@,
            ]
        } else {
            seq![
                "Enter/Space - Start editing field"@,
                "Tab/Shift+Tab - Switch fields"@,
                "Ctrl+L - Submit login"@,
                "Ctrl+C - Quit"@,
            ]
        });
        v
    }
}

/// The three parts that center a share `percent` of an area: the rest
/// split evenly around it.
pub open spec fn centering(percent: u16) -> Seq<Extent> {
    seq![
        Extent::Percentage(((100 - percent) / 2) as u16),
        Extent::Percentage(percent),
        Extent::Percentage(((100 - percent) / 2) as u16),
    ]
}

/// The three parts that center a share of an area.
fn centering_extents(percent: u16) -> (r: Vec<Extent>)
    requires
        percent <= 100,
    ensures
        r@ == centering(percent),
{
    let side = (100 - percent) / 2;
    let mut v: Vec<Extent> = Vec::new();
    v.push(Extent::Percentage(side));
    v.push(Extent::Percentage(percent));
    v.push(Extent::Percentage(side));
    assert(v@ =~= centering(percent));
    v
}

impl LoginScreen {
    /// The part of `area` that takes `percent_x` of its width and
    /// `percent_y` of its height, in its middle: the middle column of the
    /// middle row, each split by `centering`. Where the layout solver puts
    /// them is its own; the result lies inside `area`.
    pub fn center_rect(&self, percent_x: u16, percent_y: u16, area: Area) -> (r: Area)
        requires
            percent_x <= 100,
            percent_y <= 100,
        ensures
            inside(r, area),
    {
        let rows = split_area(area, Axis::Vertical, &centering_extents(percent_y));
        let columns = split_area(rows[1], Axis::Horizontal, &centering_extents(percent_x));
        columns[1]
    }
}

} // verus!
