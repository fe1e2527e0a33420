//! Turns key presses into actions, according to the input mode.

use vstd::prelude::*;

use crate::actions::{
    adding, after_delete, check_and_uncheck_quest, committed, deleted, delete_quest, erased,
    exit_adding, exit_app, first_of, input_add_char, input_del_char, list_down, list_up,
    moved_down, moved_up, new_quest, normal, save_quest, toggled, typed, Selection,
};
use crate::{App, AppModel, InputMode};

verus! {

/// A key press, as far as the application tells keys apart.
#[derive(PartialEq, Eq, Structural, Clone, Copy, Debug)]
pub enum Key {
    Char(char),
    Backspace,
    Enter,
    Esc,
    Up,
    Down,
    Delete,
    Other,
}

/// The key opens the add field (in normal mode).
pub open spec fn is_new_key(k: Key) -> bool {
    k == Key::Char('n')
}

/// The key ends the session (in normal mode).
pub open spec fn is_quit_key(k: Key) -> bool {
    k == Key::Char('q')
}

/// The key highlights the previous quest (in normal mode).
pub open spec fn is_up_key(k: Key) -> bool {
    k == Key::Up || k == Key::Char('k')
}

/// The key highlights the next quest (in normal mode).
pub open spec fn is_down_key(k: Key) -> bool {
    k == Key::Down || k == Key::Char('j')
}

/// The key checks or unchecks the highlighted quest (in normal mode).
pub open spec fn is_toggle_key(k: Key) -> bool {
    k == Key::Enter || k == Key::Char(' ')
}

/// The key deletes the highlighted quest (in normal mode).
pub open spec fn is_delete_key(k: Key) -> bool {
    k == Key::Delete || k == Key::Char('d')
}

/// The state and selection after `key` was pressed in state `a` with
/// selection `sel`. Keys that no row names change nothing.
pub open spec fn dispatch(a: AppModel, sel: Option<usize>, key: Key) -> (AppModel, Option<usize>) {
    match a.input_mode {
        InputMode::Normal => {
            if is_new_key(key) {
                (adding(a), None)
            } else if is_quit_key(key) {
                (AppModel { should_exit: true, ..a }, sel)
            } else if is_up_key(key) {
                (a, moved_up(sel))
            } else if is_down_key(key) {
                (a, moved_down(sel, a.quests.len()))
            } else if is_toggle_key(key) {
                (toggled(a, sel), sel)
            } else if is_delete_key(key) {
                let b = deleted(a, sel);
                (b, match sel { Some(i) => after_delete(i, b.quests.len()), None => None })
            } else {
                (a, sel)
            }
        },
        InputMode::Adding => match key {
            Key::Char(c) => (typed(a, c), sel),
            Key::Backspace => (erased(a), sel),
            Key::Enter => (normal(committed(a)), first_of(a.quests.len() + 1)),
            Key::Esc => (normal(a), first_of(a.quests.len())),
            _ => (a, sel),
        },
    }
}

/// Applies the action that `key` stands for in the current input mode.
pub fn handle_events(key: Key, app: &mut App, list_state: &mut Selection)
    ensures
        (final(app)@, final(list_state).index) == dispatch(old(app)@, old(list_state).index, key),
{
    match app.input_mode {
        InputMode::Normal => {
            if key == Key::Char('n') {
                new_quest(app, list_state);
            } else if key == Key::Char('q') {
                exit_app(app);
            } else if key == Key::Up || key == Key::Char('k') {
                list_up(list_state);
            } else if key == Key::Down || key == Key::Char('j') {
                list_down(app.quests.len(), list_state);
            } else if key == Key::Enter || key == Key::Char(' ') {
                check_and_uncheck_quest(app, list_state);
            } else if key == Key::Delete || key == Key::Char('d') {
                delete_quest(app, list_state);
            }
        },
        InputMode::Adding => match key {
            Key::Char(c) => input_add_char(app, c),
            Key::Backspace => input_del_char(app),
            Key::Enter => {
                save_quest(app);
                exit_adding(app, list_state);
            },
            Key::Esc => exit_adding(app, list_state),
            _ => {},
        },
    }
}

} // verus!
