//! The key router: maps one decoded key press, together with the current
//! input mode, to the message the session consumes.  The precedence is
//! search, then path navigator, then bookmark naming, then the normal
//! bindings.

use vstd::prelude::*;

use crate::input::InputModel;
use crate::input::InputState;
use crate::input::KeyCode;
use crate::input::KeyEvent;
use crate::model::Message;
use crate::model::Model;

verus! {

/// The message a key produces in the search mode: while typing every key
/// edits the buffer, Escape leaves; once committed, `n` and `N` step
/// through the matches.
pub open spec fn spec_search_key(typing: bool, key: KeyEvent) -> Option<Message> {
    if !typing {
        match key.code {
            KeyCode::Char(c) => if c == 'n' {
                Some(Message::SearchNext)
            } else if c == 'N' {
                Some(Message::SearchPrev)
            } else {
                None
            },
            KeyCode::Esc => Some(Message::SearchExit),
            _ => None,
        }
    } else {
        match key.code {
            KeyCode::Esc => Some(Message::SearchExit),
            _ => Some(Message::SearchInput(key)),
        }
    }
}

/// The message a key produces while naming a bookmark.
pub open spec fn spec_bookmark_key(key: KeyEvent) -> Option<Message> {
    match key.code {
        KeyCode::Esc => Some(Message::BookmarkInputExit),
        KeyCode::Enter => Some(Message::CreateBookmark),
        _ => Some(Message::BookmarkInput(key)),
    }
}

/// The message a key produces in the path navigator: while typing every
/// key edits the buffer; once committed, `n` and `N` step through the
/// completions.
pub open spec fn spec_navigator_key(typing: bool, key: KeyEvent) -> Option<Message> {
    if !typing {
        match key.code {
            KeyCode::Char(c) => if c == 'n' {
                Some(Message::NavigatorNext)
            } else if c == 'N' {
                Some(Message::NavigatorPrev)
            } else {
                Some(Message::NavigatorInput(key))
            },
            KeyCode::Esc => Some(Message::NavigatorExit),
            _ => Some(Message::NavigatorInput(key)),
        }
    } else {
        match key.code {
            KeyCode::Esc => Some(Message::NavigatorExit),
            _ => Some(Message::NavigatorInput(key)),
        }
    }
}

/// The normal-mode bindings.
pub open spec fn spec_normal_key(key: KeyEvent) -> Option<Message> {
    match key.code {
        KeyCode::Char(c) => if c == 'q' {
            Some(Message::Quit)
        } else if c == 'h' {
            Some(Message::Back)
        } else if c == 'j' {
            Some(Message::ListDown)
        } else if c == 'k' {
            Some(Message::ListUp)
        } else if c == 'l' {
            Some(Message::EnterItem)
        } else if c == 'f' || c == '/' {
            Some(Message::SearchEnter)
        } else if c == 's' {
            Some(Message::BookmarkInputEnter)
        } else if c == 'r' {
            Some(Message::Refresh)
        } else if c == 'd' {
            if key.ctrl {
                Some(Message::PageDown)
            } else {
                Some(Message::DeleteBookmark)
            }
        } else if c == 'u' {
            if key.ctrl {
                Some(Message::PageUp)
            } else {
                None
            }
        } else if c == '.' {
            Some(Message::NavigatorEnter)
        } else {
            None
        },
        KeyCode::Left => Some(Message::Back),
        KeyCode::Down => Some(Message::ListDown),
        KeyCode::Up => Some(Message::ListUp),
        KeyCode::Right => Some(Message::EnterItem),
        _ => None,
    }
}

/// The message one key produces given the whole session's input state.
pub open spec fn spec_handle_key(key: KeyEvent, m: crate::model::ModelV) -> Option<Message> {
    match m.search_input {
        Some(b) => spec_search_key(b.typing, key),
        None => match m.path_navigator_input {
            Some(b) => spec_navigator_key(b.typing, key),
            None => match m.new_bookmark_input {
                Some(_) => spec_bookmark_key(key),
                None => spec_normal_key(key),
            },
        },
    }
}

/// Routes a key pressed while the search mode is live.
fn handle_search_input(state: &InputModel, key: KeyEvent) -> (r: Option<Message>)
    ensures
        r == spec_search_key(state@.typing, key),
{
    if !state.typing {
        match key.code {
            KeyCode::Char(c) => {
                if c == 'n' {
                    Some(Message::SearchNext)
                } else if c == 'N' {
                    Some(Message::SearchPrev)
                } else {
                    None
                }
            },
            KeyCode::Esc => Some(Message::SearchExit),
            _ => None,
        }
    } else {
        match key.code {
            KeyCode::Esc => Some(Message::SearchExit),
            _ => Some(Message::SearchInput(key)),
        }
    }
}

/// Routes a key pressed while naming a bookmark.
pub fn handle_bookmark_input(_state: &InputModel, key: KeyEvent) -> (r: Option<Message>)
    ensures
        r == spec_bookmark_key(key),
{
    match key.code {
        KeyCode::Esc => Some(Message::BookmarkInputExit),
        KeyCode::Enter => Some(Message::CreateBookmark),
        _ => Some(Message::BookmarkInput(key)),
    }
}

/// Routes a key pressed while the path navigator is live.
pub fn handle_navigator_input(state: &InputModel, key: KeyEvent) -> (r: Option<Message>)
    ensures
        r == spec_navigator_key(state@.typing, key),
{
    if !state.typing {
        match key.code {
            KeyCode::Char(c) => {
                if c == 'n' {
                    Some(Message::NavigatorNext)
                } else if c == 'N' {
                    Some(Message::NavigatorPrev)
                } else {
                    Some(Message::NavigatorInput(key))
                }
            },
            KeyCode::Esc => Some(Message::NavigatorExit),
            _ => Some(Message::NavigatorInput(key)),
        }
    } else {
        match key.code {
            KeyCode::Esc => Some(Message::NavigatorExit),
            _ => Some(Message::NavigatorInput(key)),
        }
    }
}

/// Routes a key pressed with no text-input mode live.
pub fn handle_normal_input(key: KeyEvent) -> (r: Option<Message>)
    ensures
        r == spec_normal_key(key),
{
    match key.code {
        KeyCode::Char(c) => {
            if c == 'q' {
                Some(Message::Quit)
            } else if c == 'h' {
                Some(Message::Back)
            } else if c == 'j' {
                Some(Message::ListDown)
            } else if c == 'k' {
                Some(Message::ListUp)
            } else if c == 'l' {
                Some(Message::EnterItem)
            } else if c == 'f' || c == '/' {
                Some(Message::SearchEnter)
            } else if c == 's' {
                Some(Message::BookmarkInputEnter)
            } else if c == 'r' {
                Some(Message::Refresh)
            } else if c == 'd' {
                if key.ctrl {
                    Some(Message::PageDown)
                } else {
                    Some(Message::DeleteBookmark)
                }
            } else if c == 'u' {
                if key.ctrl {
                    Some(Message::PageUp)
                } else {
                    None
                }
            } else if c == '.' {
                Some(Message::NavigatorEnter)
            } else {
                None
            }
        },
        KeyCode::Left => Some(Message::Back),
        KeyCode::Down => Some(Message::ListDown),
        KeyCode::Up => Some(Message::ListUp),
        KeyCode::Right => Some(Message::EnterItem),
        _ => None,
    }
}

/// Routes one key press through the active input mode, in precedence
/// order: search, navigator, bookmark naming, normal bindings.
pub fn handle_key(key: KeyEvent, model: &Model) -> (r: Option<Message>)
    ensures
        r == spec_handle_key(key, model@),
{
    match &model.search_input {
        InputState::Active(state) => handle_search_input(state, key),
        InputState::Normal => match &model.path_navigator_input {
            InputState::Active(state) => handle_navigator_input(state, key),
            InputState::Normal => match &model.new_bookmark_input {
                InputState::Active(state) => handle_bookmark_input(state, key),
                InputState::Normal => handle_normal_input(key),
            },
        },
    }
}

} // verus!
