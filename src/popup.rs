use crate::action::{Action, Key};
use crate::context::{edit_text, edited};
use crate::model::{copy_texts, texts, toggle_text, toggled};
use crate::panes::{is_confirm, is_down, is_up};
use crate::query::QueryField;
use crate::text::string_from_chars;
use vstd::prelude::*;

verus! {

/// The modal overlay; at most one is open, and while one is open it takes
/// every key.
pub enum PopupState {
    /// No overlay.
    Closed,
    /// A new connection: its name and URI inputs, and which one has the focus.
    ConnectionManager { name: Vec<char>, uri: Vec<char>, is_editing_uri: bool },
    /// The query inputs are edited; one of the four has the focus.
    QueryBuilder { active_field: QueryField },
    /// A document's JSON text, its title, and how far it is scrolled.
    JsonViewer(String, String, usize),
    /// Cursor, all fields, and the fields shown.
    FieldSelector(Option<usize>, Vec<String>, Vec<String>),
    /// The help table and its cursor.
    Help(Option<usize>),
    /// An error message.
    Error(String),
}

/// The cursor of a list of `len` rows after moving down: it stops on the
/// last row, and lands on the first when there was none.
pub open spec fn clamped_down(sel: Option<usize>, len: int) -> Option<usize> {
    match sel {
        Some(i) => Some(if i + 1 >= len { if len > 0 { (len - 1) as usize } else { 0usize } } else { (i + 1) as usize }),
        None => Some(0usize),
    }
}

/// The cursor after moving up: it stops on the first row.
pub open spec fn clamped_up(sel: Option<usize>) -> Option<usize> {
    match sel {
        Some(i) => Some(if i == 0 { 0usize } else { (i - 1) as usize }),
        None => Some(0usize),
    }
}

/// What a key does to the error popup.
pub open spec fn error_step(msg: String, key: Key, after: PopupState, out: Option<Action>) -> bool {
    &&& key == Key::Esc || key == Key::Enter ==> after is Closed && out == Some(Action::Render)
    &&& !(key == Key::Esc || key == Key::Enter) ==> after == PopupState::Error(msg) && out is None
}

/// What a key does to the error popup: Esc or Enter close it.
pub fn error_popup_key(msg: String, key: Key) -> (r: (PopupState, Option<Action>))
    ensures
        error_step(msg, key, r.0, r.1),
{
    if key == Key::Esc || key == Key::Enter {
        (PopupState::Closed, Some(Action::Render))
    } else {
        (PopupState::Error(msg), None)
    }
}

/// What a key does to the connection editor.
pub open spec fn connection_step(
    name: Vec<char>,
    uri: Vec<char>,
    is_editing_uri: bool,
    key: Key,
    after: PopupState,
    out: Option<Action>,
) -> bool {
    &&& key == Key::Esc ==> after is Closed && out == Some(Action::Render)
    &&& key == Key::Tab ==> after == (PopupState::ConnectionManager {
        name,
        uri,
        is_editing_uri: !is_editing_uri,
    }) && out == Some(Action::Render)
    &&& key == Key::Enter && name@.len() > 0 && uri@.len() > 0 ==> after is Closed && (
    out matches Some(Action::SaveConnection(n, u)) && n@ == name@ && u@ == uri@)
    &&& key == Key::Enter && !(name@.len() > 0 && uri@.len() > 0) ==> after == (
    PopupState::ConnectionManager { name, uri, is_editing_uri }) && out is None
    &&& key != Key::Esc && key != Key::Tab && key != Key::Enter ==> (after matches PopupState::ConnectionManager {
        name: n,
        uri: u,
        is_editing_uri: e,
    } && e == is_editing_uri && (if is_editing_uri {
        n == name && u@ == edited(uri@, key)
    } else {
        u == uri && n@ == edited(name@, key)
    })) && out == Some(Action::Render)
}

/// What a key does to the connection editor: Esc closes it; Tab moves the
/// focus between name and URI; Enter saves the connection and closes when
/// both are filled in, and does nothing otherwise; any other key edits the
/// input that has the focus.
pub fn connection_popup_key(name: Vec<char>, uri: Vec<char>, is_editing_uri: bool, key: Key) -> (r: (
    PopupState,
    Option<Action>,
))
    ensures
        connection_step(name, uri, is_editing_uri, key, r.0, r.1),
{
    match key {
        Key::Esc => (PopupState::Closed, Some(Action::Render)),
        Key::Tab => (
            PopupState::ConnectionManager { name, uri, is_editing_uri: !is_editing_uri },
            Some(Action::Render),
        ),
        Key::Enter => {
            if name.len() > 0 && uri.len() > 0 {
                let n = string_from_chars(&name);
                let u = string_from_chars(&uri);
                (PopupState::Closed, Some(Action::SaveConnection(n, u)))
            } else {
                (PopupState::ConnectionManager { name, uri, is_editing_uri }, None)
            }
        },
        _ => {
            let mut name = name;
            let mut uri = uri;
            if is_editing_uri {
                edit_text(&mut uri, key);
            } else {
                edit_text(&mut name, key);
            }
            (PopupState::ConnectionManager { name, uri, is_editing_uri }, Some(Action::Render))
        },
    }
}

/// What a key does to the document viewer.
pub open spec fn json_step(
    json: String,
    title: String,
    offset: usize,
    key: Key,
    after: PopupState,
    out: Option<Action>,
) -> bool {
    &&& key == Key::Esc || key == Key::Enter ==> after is Closed && out == Some(Action::Render)
    &&& is_down(key) ==> after == PopupState::JsonViewer(
        json,
        title,
        if offset == usize::MAX { offset } else { (offset + 1) as usize },
    ) && out == Some(Action::Render)
    &&& is_up(key) ==> after == PopupState::JsonViewer(
        json,
        title,
        if offset == 0 { offset } else { (offset - 1) as usize },
    ) && out == Some(Action::Render)
    &&& key != Key::Esc && key != Key::Enter && !is_down(key) && !is_up(key) ==> after == PopupState::JsonViewer(
        json,
        title,
        offset,
    ) && out is None
}

/// What a key does to the document viewer: Esc or Enter close it; down and up
/// scroll by one line, never above the top.
pub fn json_popup_key(json: String, title: String, offset: usize, key: Key) -> (r: (
    PopupState,
    Option<Action>,
))
    ensures
        json_step(json, title, offset, key, r.0, r.1),
{
    match key {
        Key::Esc | Key::Enter => (PopupState::Closed, Some(Action::Render)),
        Key::Down | Key::Char('j') => (
            PopupState::JsonViewer(json, title, offset.saturating_add(1)),
            Some(Action::Render),
        ),
        Key::Up | Key::Char('k') => (
            PopupState::JsonViewer(json, title, offset.saturating_sub(1)),
            Some(Action::Render),
        ),
        _ => (PopupState::JsonViewer(json, title, offset), None),
    }
}

/// What a key does to the help.
pub open spec fn help_step(cursor: Option<usize>, key: Key, after: PopupState, out: Option<Action>) -> bool {
    &&& key == Key::Esc || key == Key::Enter || key == Key::Char('?') ==> after is Closed && out
        == Some(Action::Render)
    &&& is_down(key) ==> after == PopupState::Help(
        Some(
            match cursor {
                Some(i) => if i == usize::MAX { i } else { (i + 1) as usize },
                None => 0usize,
            },
        ),
    ) && out == Some(Action::Render)
    &&& is_up(key) ==> after == PopupState::Help(clamped_up(cursor)) && out == Some(Action::Render)
    &&& key != Key::Esc && key != Key::Enter && key != Key::Char('?') && !is_down(key) && !is_up(
        key,
    ) ==> after
        == PopupState::Help(cursor) && out is None
}

/// What a key does to the help: Esc, Enter or `?` close it; down and up move its
/// cursor, never above the first row.
pub fn help_popup_key(cursor: Option<usize>, key: Key) -> (r: (PopupState, Option<Action>))
    ensures
        help_step(cursor, key, r.0, r.1),
{
    match key {
        Key::Esc | Key::Enter | Key::Char('?') => (PopupState::Closed, Some(Action::Render)),
        Key::Down | Key::Char('j') => {
            let i = match cursor {
                Some(i) => i.saturating_add(1),
                None => 0,
            };
            (PopupState::Help(Some(i)), Some(Action::Render))
        },
        Key::Up | Key::Char('k') => {
            let i = match cursor {
                Some(i) => if i == 0 { 0 } else { i - 1 },
                None => 0,
            };
            (PopupState::Help(Some(i)), Some(Action::Render))
        },
        _ => (PopupState::Help(cursor), None),
    }
}

/// What a key does to the field selector.
pub open spec fn field_step(
    cursor: Option<usize>,
    all: Vec<String>,
    visible: Vec<String>,
    key: Key,
    after: PopupState,
    out: Option<Action>,
) -> bool {
    &&& key == Key::Esc ==> after is Closed && out == Some(Action::Render)
    &&& is_down(key) ==> after == PopupState::FieldSelector(
        clamped_down(cursor, all@.len() as int),
        all,
        visible,
    ) && out == Some(Action::Render)
    &&& is_up(key) ==> after == PopupState::FieldSelector(clamped_up(cursor), all, visible)
        && out == Some(Action::Render)
    &&& is_confirm(key) ==> match cursor {
        Some(i) => if i < all@.len() {
            (after matches PopupState::FieldSelector(c, a, v) && c == cursor && a == all && texts(
                v@,
            ) == toggled(texts(visible@), all@[i as int]@)) && (out matches Some(
                Action::UpdateVisibleFields(f),
            ) && texts(f@) == toggled(texts(visible@), all@[i as int]@))
        } else {
            after == PopupState::FieldSelector(cursor, all, visible) && out == Some(Action::Render)
        },
        None => after == PopupState::FieldSelector(cursor, all, visible) && out == Some(
            Action::Render,
        ),
    }
    &&& key != Key::Esc && !is_down(key) && !is_up(key) && !is_confirm(key) ==> after
        == PopupState::FieldSelector(cursor, all, visible) && out == Some(Action::Render)
}

/// What a key does to the field selector: Esc closes it; down and up move
/// the cursor within the list; Enter or space toggles the field under the
/// cursor among the shown ones, keeps the selector open and asks the
/// documents pane to show the new list. Other keys only ask for a render.
pub fn field_popup_key(cursor: Option<usize>, all: Vec<String>, visible: Vec<String>, key: Key) -> (r: (
    PopupState,
    Option<Action>,
))
    ensures
        field_step(cursor, all, visible, key, r.0, r.1),
{
    match key {
        Key::Esc => (PopupState::Closed, Some(Action::Render)),
        Key::Down | Key::Char('j') => {
            let last: usize = if all.len() > 0 { all.len() - 1 } else { 0 };
            let i = match cursor {
                Some(i) => if i >= last { last } else { i + 1 },
                None => 0,
            };
            (PopupState::FieldSelector(Some(i), all, visible), Some(Action::Render))
        },
        Key::Up | Key::Char('k') => {
            let i = match cursor {
                Some(i) => if i == 0 { 0 } else { i - 1 },
                None => 0,
            };
            (PopupState::FieldSelector(Some(i), all, visible), Some(Action::Render))
        },
        Key::Enter | Key::Char(' ') => {
            match cursor {
                Some(i) => {
                    if i < all.len() {
                        let shown = toggle_text(&visible, &all[i]);
                        let sent = copy_texts(&shown);
                        (
                            PopupState::FieldSelector(cursor, all, shown),
                            Some(Action::UpdateVisibleFields(sent)),
                        )
                    } else {
                        (PopupState::FieldSelector(cursor, all, visible), Some(Action::Render))
                    }
                },
                None => (PopupState::FieldSelector(cursor, all, visible), Some(Action::Render)),
            }
        },
        _ => (PopupState::FieldSelector(cursor, all, visible), Some(Action::Render)),
    }
}

} // verus!
