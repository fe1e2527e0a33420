//! A terminal to-do list: quests, their ordered collection and the
//! interactive application state that edits them.

pub mod actions;
pub mod args;
pub mod configs;
pub mod events;
pub mod laws;
mod text;

use vstd::prelude::*;

use configs::Configs;

verus! {

/// What a quest is, as contracts see it.
pub struct QuestModel {
    pub title: Seq<char>,
    pub completed: bool,
}

/// Represent a task
#[derive(Clone)]
pub struct Quest {
    pub title: String,
    pub completed: bool,
}

impl View for Quest {
    type V = QuestModel;

    open spec fn view(&self) -> QuestModel {
        QuestModel { title: self.title@, completed: self.completed }
    }
}

/// The models of a sequence of quests, in the same order.
pub open spec fn models(quests: Seq<Quest>) -> Seq<QuestModel> {
    quests.map_values(|q: Quest| q@)
}

impl Quest {
    /// A quest that is not completed yet.
    pub fn new(title: String) -> (r: Self)
        ensures
            r.title@ == title@,
            !r.completed,
    {
        Self { title, completed: false }
    }

    /// A quest with the same title and state as `self`.
    pub fn duplicate(&self) -> (r: Self)
        ensures
            r@ == self@,
    {
        Quest { title: self.title.clone(), completed: self.completed }
    }
}

/// The quests of `quests`, copied one by one in the same order.
fn copy_quests(quests: &[Quest]) -> (r: Vec<Quest>)
    ensures
        models(r@) == models(quests@),
{
    let mut r: Vec<Quest> = Vec::new();
    let mut i: usize = 0;
    while i < quests.len()
        invariant
            i <= quests@.len(),
            r@.len() == i,
            forall|j: int| 0 <= j < i ==> r@[j]@ == quests@[j]@,
        decreases quests@.len() - i,
    {
        r.push(quests[i].duplicate());
        i = i + 1;
    }
    assert(models(r@) =~= models(quests@));
    r
}

/// Represent a list of tasks
pub struct QuestList {
    pub quests: Vec<Quest>,
}

impl QuestList {
    /// A list that holds the given quests in the given order.
    pub fn new(quests: &[Quest]) -> (r: Self)
        ensures
            models(r.quests@) == models(quests@),
    {
        Self { quests: copy_quests(quests) }
    }
}

/// Possible Input field states
#[derive(PartialEq, Eq, Structural, Clone, Copy, Debug)]
pub enum InputMode {
    /// Browsing quests
    Normal,
    /// Adding a new quest
    Adding,
}

/// What the application state is, as contracts see it. The settings are
/// left out: nothing in the library changes or reads them.
pub struct AppModel {
    pub input: Seq<char>,
    pub input_mode: InputMode,
    pub quests: Seq<QuestModel>,
    pub should_exit: bool,
}

/// Application state
pub struct App {
    /// New quest input value
    pub input: String,
    /// Current input mode
    pub input_mode: InputMode,
    /// List of all quests
    pub quests: Vec<Quest>,
    /// Should be true when application wants to exit
    pub should_exit: bool,
    /// Application Configs
    pub configs: Configs,
}

impl View for App {
    type V = AppModel;

    open spec fn view(&self) -> AppModel {
        AppModel {
            input: self.input@,
            input_mode: self.input_mode,
            quests: models(self.quests@),
            should_exit: self.should_exit,
        }
    }
}

impl App {
    /// A fresh session over the given quests: empty input, normal mode.
    pub fn new(quests: &[Quest], configs: Configs) -> (r: Self)
        ensures
            r@.quests == models(quests@),
            r@.input == Seq::<char>::empty(),
            r@.input_mode == InputMode::Normal,
            !r@.should_exit,
    {
        Self {
            quests: copy_quests(quests),
            input: String::new(),
            input_mode: InputMode::Normal,
            should_exit: false,
            configs,
        }
    }

    /// Removes the quest at `index`; an index past the end changes nothing.
    pub fn delete_quest(&mut self, index: usize)
        ensures
            final(self)@ == (AppModel {
                quests: if index < old(self)@.quests.len() {
                    old(self)@.quests.remove(index as int)
                } else {
                    old(self)@.quests
                },
                ..old(self)@
            }),
    {
        if index < self.quests.len() {
            self.quests.remove(index);
            assert(models(self.quests@) =~= models(old(self).quests@).remove(index as int));
        }
    }

    /// Appends `quest` at the end of the list.
    pub fn add_quest(&mut self, quest: Quest)
        ensures
            final(self)@ == (AppModel { quests: old(self)@.quests.push(quest@), ..old(self)@ }),
    {
        self.quests.push(quest);
        assert(models(self.quests@) =~= models(old(self).quests@).push(quest@));
    }
}

} // verus!
