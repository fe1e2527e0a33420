//! What holds of the actions over any state and any run of them.

use vstd::prelude::*;

use crate::actions::{
    adding, after_delete, committed, deleted, in_bounds, moved_down, moved_up, normal,
    toggled, typed,
};
use crate::events::{dispatch, Key};
use crate::{AppModel, InputMode, QuestModel};

verus! {

/// The selection after a run of moves over a list of `len` quests; each
/// entry of `ups` is true for a move up and false for a move down.
pub open spec fn navigated(sel: Option<usize>, len: nat, ups: Seq<bool>) -> Option<usize>
    decreases ups.len(),
{
    if ups.len() == 0 {
        sel
    } else {
        let s = navigated(sel, len, ups.drop_last());
        if ups.last() {
            moved_up(s)
        } else {
            moved_down(s, len)
        }
    }
}

/// Moving up and down keeps a selection in bounds, and keeps it present or
/// absent as it was.
pub proof fn lemma_moves_keep_selection(sel: Option<usize>, len: nat, ups: Seq<bool>)
    requires
        in_bounds(sel, len),
    ensures
        in_bounds(navigated(sel, len, ups), len),
        navigated(sel, len, ups) is Some <==> sel is Some,
    decreases ups.len(),
{
    if ups.len() > 0 {
        lemma_moves_keep_selection(sel, len, ups.drop_last());
    }
}

/// Starting from the first quest of a non-empty list, or from nothing on an
/// empty one, any run of moves ends on a quest of the list, or on nothing
/// for the empty list.
pub proof fn lemma_navigation_in_bounds(len: nat, ups: Seq<bool>)
    ensures
        len == 0 ==> navigated(None, len, ups) is None,
        len > 0 ==> (navigated(Some(0usize), len, ups) matches Some(i) && i < len),
{
    if len == 0 {
        lemma_moves_keep_selection(None, len, ups);
    } else {
        lemma_moves_keep_selection(Some(0usize), len, ups);
    }
}

/// Deleting the only quest empties the list and clears the selection.
pub proof fn lemma_delete_last_quest(a: AppModel)
    requires
        a.quests.len() == 1,
    ensures
        deleted(a, Some(0usize)).quests == Seq::<QuestModel>::empty(),
        after_delete(0, deleted(a, Some(0usize)).quests.len()) is None,
{
    assert(deleted(a, Some(0usize)).quests =~= Seq::<QuestModel>::empty());
}

/// Deleting the first of two or more quests keeps the first place selected.
pub proof fn lemma_delete_first_quest(a: AppModel)
    requires
        a.quests.len() >= 2,
    ensures
        after_delete(0, deleted(a, Some(0usize)).quests.len()) == Some(0usize),
{
}

/// Deleting the quest at `k > 0` selects the one before it.
pub proof fn lemma_delete_later_quest(a: AppModel, k: usize)
    requires
        0 < k < a.quests.len(),
    ensures
        after_delete(k, deleted(a, Some(k)).quests.len()) == Some((k - 1) as usize),
{
}

/// Opening the add field and closing it without saving leaves the quests
/// as they were, in normal mode.
pub proof fn lemma_cancel_adding(a: AppModel)
    ensures
        normal(adding(a)).quests == a.quests,
        normal(adding(a)).input_mode == InputMode::Normal,
{
}

/// With an empty field, opening it, typing 'a' and 'b' and saving appends
/// one open quest titled "ab" at the end.
pub proof fn lemma_add_typed_quest(a: AppModel)
    requires
        a.input.len() == 0,
    ensures
        normal(committed(typed(typed(adding(a), 'a'), 'b'))).quests == a.quests.push(
            QuestModel { title: seq!['a', 'b'], completed: false },
        ),
        normal(committed(typed(typed(adding(a), 'a'), 'b'))).input_mode == InputMode::Normal,
{
    assert(typed(typed(adding(a), 'a'), 'b').input =~= seq!['a', 'b']);
}

/// Checking a quest twice leaves it as it was.
pub proof fn lemma_toggle_twice(a: AppModel, sel: Option<usize>)
    ensures
        toggled(toggled(a, sel), sel) == a,
{
    if let Some(i) = sel {
        if i < a.quests.len() {
            assert(toggled(toggled(a, sel), sel).quests =~= a.quests);
        }
    }
}

/// Whatever key is pressed, a selection in bounds stays in bounds.
pub proof fn lemma_keys_keep_selection(a: AppModel, sel: Option<usize>, key: Key)
    requires
        in_bounds(sel, a.quests.len()),
    ensures
        in_bounds(dispatch(a, sel, key).1, dispatch(a, sel, key).0.quests.len()),
{
}

} // verus!
