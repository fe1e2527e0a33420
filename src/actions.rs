//! Actions to do after a specific event occurs

use vstd::prelude::*;

use crate::text::{pop_char, push_char};
use crate::{models, App, AppModel, InputMode, Quest, QuestModel};

verus! {

/// Which quest of the list is highlighted, if any. It is an index into the
/// quest list, kept apart from it and re-validated after each change.
pub struct Selection {
    pub index: Option<usize>,
}

impl Selection {
    /// A selection of the first quest, or of nothing where there is none.
    pub fn new(quests_len: usize) -> (r: Self)
        ensures
            r.index == (if quests_len == 0 { None } else { Some(0usize) }),
    {
        if quests_len == 0 {
            Selection { index: None }
        } else {
            Selection { index: Some(0) }
        }
    }

    /// The highlighted index.
    pub fn selected(&self) -> (r: Option<usize>)
        ensures
            r == self.index,
    {
        self.index
    }

    /// Highlights `index`, or nothing.
    pub fn select(&mut self, index: Option<usize>)
        ensures
            final(self).index == index,
    {
        self.index = index;
    }
}

/// The selection never points past the end of a list of `len` quests.
pub open spec fn in_bounds(sel: Option<usize>, len: nat) -> bool {
    match sel {
        Some(i) => i < len,
        None => true,
    }
}

/// The selection after moving up: the previous quest, if there is one.
pub open spec fn moved_up(sel: Option<usize>) -> Option<usize> {
    match sel {
        Some(i) => if i > 0 { Some((i - 1) as usize) } else { sel },
        None => None,
    }
}

/// The selection after moving down in a list of `len` quests: the next
/// quest, if there is one.
pub open spec fn moved_down(sel: Option<usize>, len: nat) -> Option<usize> {
    match sel {
        Some(i) => if i + 1 < len { Some((i + 1) as usize) } else { sel },
        None => None,
    }
}

/// The selection after the quest at `index` was deleted and `remaining`
/// quests are left: the previous quest, the first one when the first was
/// deleted, nothing when the list is empty.
pub open spec fn after_delete(index: usize, remaining: nat) -> Option<usize> {
    if remaining == 0 {
        None
    } else if index == 0 {
        Some(0usize)
    } else {
        Some((index - 1) as usize)
    }
}

/// The selection on return to normal mode: the first quest, if any.
pub open spec fn first_of(len: nat) -> Option<usize> {
    if len == 0 { None } else { Some(0usize) }
}

/// The state after the add field is opened.
pub open spec fn adding(a: AppModel) -> AppModel {
    AppModel { input_mode: InputMode::Adding, ..a }
}

/// The state after the add field is closed.
pub open spec fn normal(a: AppModel) -> AppModel {
    AppModel { input_mode: InputMode::Normal, ..a }
}

/// The state after the typed title became a new quest at the end.
pub open spec fn committed(a: AppModel) -> AppModel {
    AppModel {
        quests: a.quests.push(QuestModel { title: a.input, completed: false }),
        input: Seq::empty(),
        ..a
    }
}

/// The state after the quest under `sel` was checked or unchecked.
pub open spec fn toggled(a: AppModel, sel: Option<usize>) -> AppModel {
    match sel {
        Some(i) => if i < a.quests.len() {
            AppModel {
                quests: a.quests.update(
                    i as int,
                    QuestModel { completed: !a.quests[i as int].completed, ..a.quests[i as int] },
                ),
                ..a
            }
        } else {
            a
        },
        None => a,
    }
}

/// The state after the quest under `sel` was deleted.
pub open spec fn deleted(a: AppModel, sel: Option<usize>) -> AppModel {
    match sel {
        Some(i) => if i < a.quests.len() {
            AppModel { quests: a.quests.remove(i as int), ..a }
        } else {
            a
        },
        None => a,
    }
}

/// The state after one character was typed.
pub open spec fn typed(a: AppModel, c: char) -> AppModel {
    AppModel { input: a.input.push(c), ..a }
}

/// The state after the last typed character was erased.
pub open spec fn erased(a: AppModel) -> AppModel {
    if a.input.len() == 0 {
        a
    } else {
        AppModel { input: a.input.drop_last(), ..a }
    }
}

/// Opens the add field; nothing is highlighted while typing.
pub fn new_quest(app: &mut App, list_state: &mut Selection)
    ensures
        final(app)@ == adding(old(app)@),
        final(list_state).index is None,
{
    app.input_mode = InputMode::Adding;
    list_state.select(None)
}

/// Asks the run loop to stop.
pub fn exit_app(app: &mut App)
    ensures
        final(app)@ == (AppModel { should_exit: true, ..old(app)@ }),
{
    app.should_exit = true;
}

/// Highlights the previous quest, if there is one.
pub fn list_up(list_state: &mut Selection)
    ensures
        final(list_state).index == moved_up(old(list_state).index),
{
    if let Some(index) = list_state.selected() {
        if index > 0 {
            list_state.select(Some(index - 1));
        }
    }
}

/// Highlights the next quest of a list of `quests_len`, if there is one.
pub fn list_down(quests_len: usize, list_state: &mut Selection)
    ensures
        final(list_state).index == moved_down(old(list_state).index, quests_len as nat),
{
    if let Some(index) = list_state.selected() {
        if quests_len > 0 && index < quests_len - 1 {
            list_state.select(Some(index + 1));
        }
    }
}

/// Flips the completion of the highlighted quest.
pub fn check_and_uncheck_quest(app: &mut App, list_state: &mut Selection)
    ensures
        final(app)@ == toggled(old(app)@, old(list_state).index),
        *final(list_state) == *old(list_state),
{
    if let Some(index) = list_state.selected() {
        if index < app.quests.len() {
            app.quests[index].completed = !app.quests[index].completed;
            assert(models(app.quests@) =~= toggled(old(app)@, Some(index)).quests);
        }
    }
}

/// Deletes the highlighted quest and highlights the one before it, the
/// first one when the first was deleted, or nothing when none is left.
pub fn delete_quest(app: &mut App, list_state: &mut Selection)
    ensures
        final(app)@ == deleted(old(app)@, old(list_state).index),
        old(list_state).index is None ==> final(list_state).index is None,
        old(list_state).index matches Some(i) ==> final(list_state).index == after_delete(
            i,
            final(app)@.quests.len(),
        ),
{
    if let Some(index) = list_state.selected() {
        app.delete_quest(index);
        if app.quests.is_empty() {
            list_state.select(None);
        } else {
            let new_index = match index {
                0 => 0,
                _ => index - 1,
            };
            list_state.select(Some(new_index));
        }
    }
}

/// Turns the typed title into a new quest at the end and empties the field.
pub fn save_quest(app: &mut App)
    ensures
        final(app)@ == committed(old(app)@),
{
    let title = app.input.clone();
    app.input = String::new();
    let new_quest = Quest::new(title);
    app.add_quest(new_quest)
}

/// Closes the add field and highlights the first quest, if any.
pub fn exit_adding(app: &mut App, list_state: &mut Selection)
    ensures
        final(app)@ == normal(old(app)@),
        final(list_state).index == first_of(old(app)@.quests.len()),
{
    app.input_mode = InputMode::Normal;
    if app.quests.is_empty() {
        list_state.select(None);
    } else {
        list_state.select(Some(0));
    }
}

/// Types one character into the add field.
pub fn input_add_char(app: &mut App, c: char)
    ensures
        final(app)@ == typed(old(app)@, c),
{
    push_char(&mut app.input, c);
}

/// Erases the last character of the add field, if any.
pub fn input_del_char(app: &mut App)
    ensures
        final(app)@ == erased(old(app)@),
{
    pop_char(&mut app.input);
}

} // verus!
