use quest_tui::actions::{
    check_and_uncheck_quest, delete_quest, exit_adding, exit_app, input_add_char, input_del_char,
    list_down, list_up, new_quest, save_quest, Selection,
};
use quest_tui::args::title_from_args;
use quest_tui::configs::{Colors, Configs};
use quest_tui::events::{handle_events, Key};
use quest_tui::{App, InputMode, Quest, QuestList};
use tui::style::Color;

fn configs() -> Configs {
    Configs {
        colors: Colors {
            foreground: Color::White,
            background: Color::Black,
            selection_fg: Color::Black,
            selection_bg: Color::White,
        },
    }
}

fn quests(titles: &[&str]) -> Vec<Quest> {
    titles.iter().map(|t| Quest::new(t.to_string())).collect()
}

fn app_with(titles: &[&str]) -> App {
    App::new(&quests(titles), configs())
}

fn titles(app: &App) -> Vec<String> {
    app.quests.iter().map(|q| q.title.clone()).collect()
}

fn args(words: &[&str]) -> Vec<String> {
    words.iter().map(|w| w.to_string()).collect()
}

#[test]
fn new_quest_is_open() {
    let q = Quest::new("read".to_string());
    assert_eq!(q.title, "read");
    assert!(!q.completed);
}

#[test]
fn quest_list_keeps_order() {
    let list = QuestList::new(&quests(&["a", "b", "c"]));
    let got: Vec<String> = list.quests.iter().map(|q| q.title.clone()).collect();
    assert_eq!(got, vec!["a", "b", "c"]);
}

#[test]
fn app_starts_in_normal_mode() {
    let app = app_with(&["a"]);
    assert_eq!(app.input_mode, InputMode::Normal);
    assert_eq!(app.input, "");
    assert!(!app.should_exit);
    assert_eq!(titles(&app), vec!["a"]);
}

#[test]
fn selection_starts_on_first_quest() {
    assert_eq!(Selection::new(3).selected(), Some(0));
    assert_eq!(Selection::new(0).selected(), None);
}

#[test]
fn moves_stay_in_bounds() {
    let mut sel = Selection::new(3);
    list_up(&mut sel);
    assert_eq!(sel.selected(), Some(0));
    for _ in 0..5 {
        list_down(3, &mut sel);
    }
    assert_eq!(sel.selected(), Some(2));
    list_up(&mut sel);
    assert_eq!(sel.selected(), Some(1));
}

#[test]
fn moves_on_empty_list_select_nothing() {
    let mut sel = Selection::new(0);
    list_down(0, &mut sel);
    list_up(&mut sel);
    list_down(0, &mut sel);
    assert_eq!(sel.selected(), None);
}

#[test]
fn delete_single_quest_clears_selection() {
    let mut app = app_with(&["only"]);
    let mut sel = Selection::new(1);
    delete_quest(&mut app, &mut sel);
    assert!(app.quests.is_empty());
    assert_eq!(sel.selected(), None);
}

#[test]
fn delete_first_quest_keeps_first_selected() {
    let mut app = app_with(&["a", "b", "c"]);
    let mut sel = Selection::new(3);
    delete_quest(&mut app, &mut sel);
    assert_eq!(titles(&app), vec!["b", "c"]);
    assert_eq!(sel.selected(), Some(0));
}

#[test]
fn delete_later_quest_selects_previous() {
    let mut app = app_with(&["a", "b", "c"]);
    let mut sel = Selection { index: Some(2) };
    delete_quest(&mut app, &mut sel);
    assert_eq!(titles(&app), vec!["a", "b"]);
    assert_eq!(sel.selected(), Some(1));
}

#[test]
fn delete_without_selection_does_nothing() {
    let mut app = app_with(&["a"]);
    let mut sel = Selection { index: None };
    delete_quest(&mut app, &mut sel);
    assert_eq!(titles(&app), vec!["a"]);
    assert_eq!(sel.selected(), None);
}

#[test]
fn app_delete_past_end_does_nothing() {
    let mut app = app_with(&["a", "b"]);
    app.delete_quest(5);
    assert_eq!(titles(&app), vec!["a", "b"]);
    app.delete_quest(0);
    assert_eq!(titles(&app), vec!["b"]);
}

#[test]
fn cancel_adding_keeps_quests() {
    let mut app = app_with(&["a"]);
    let mut sel = Selection::new(1);
    new_quest(&mut app, &mut sel);
    assert_eq!(app.input_mode, InputMode::Adding);
    assert_eq!(sel.selected(), None);
    exit_adding(&mut app, &mut sel);
    assert_eq!(app.input_mode, InputMode::Normal);
    assert_eq!(titles(&app), vec!["a"]);
    assert_eq!(sel.selected(), Some(0));
}

#[test]
fn cancel_adding_on_empty_list_selects_nothing() {
    let mut app = app_with(&[]);
    let mut sel = Selection::new(0);
    new_quest(&mut app, &mut sel);
    exit_adding(&mut app, &mut sel);
    assert_eq!(sel.selected(), None);
}

#[test]
fn typed_quest_is_appended() {
    let mut app = app_with(&["a"]);
    let mut sel = Selection::new(1);
    new_quest(&mut app, &mut sel);
    input_add_char(&mut app, 'a');
    input_add_char(&mut app, 'b');
    assert_eq!(app.input, "ab");
    save_quest(&mut app);
    exit_adding(&mut app, &mut sel);
    assert_eq!(titles(&app), vec!["a", "ab"]);
    assert!(!app.quests[1].completed);
    assert_eq!(app.input, "");
    assert_eq!(app.input_mode, InputMode::Normal);
    assert_eq!(sel.selected(), Some(0));
}

#[test]
fn erase_last_typed_char() {
    let mut app = app_with(&[]);
    input_del_char(&mut app);
    assert_eq!(app.input, "");
    input_add_char(&mut app, 'x');
    input_add_char(&mut app, 'é');
    input_del_char(&mut app);
    assert_eq!(app.input, "x");
}

#[test]
fn toggle_twice_restores() {
    let mut app = app_with(&["a", "b"]);
    let mut sel = Selection { index: Some(1) };
    check_and_uncheck_quest(&mut app, &mut sel);
    assert!(app.quests[1].completed);
    assert!(!app.quests[0].completed);
    check_and_uncheck_quest(&mut app, &mut sel);
    assert!(!app.quests[1].completed);
}

#[test]
fn toggle_without_selection_does_nothing() {
    let mut app = app_with(&["a"]);
    let mut sel = Selection { index: None };
    check_and_uncheck_quest(&mut app, &mut sel);
    assert!(!app.quests[0].completed);
}

#[test]
fn exit_sets_flag() {
    let mut app = app_with(&[]);
    exit_app(&mut app);
    assert!(app.should_exit);
}

#[test]
fn keys_drive_a_session() {
    let mut app = app_with(&["a", "b"]);
    let mut sel = Selection::new(2);
    handle_events(Key::Down, &mut app, &mut sel);
    assert_eq!(sel.selected(), Some(1));
    handle_events(Key::Enter, &mut app, &mut sel);
    assert!(app.quests[1].completed);
    handle_events(Key::Char('n'), &mut app, &mut sel);
    assert_eq!(app.input_mode, InputMode::Adding);
    handle_events(Key::Char('q'), &mut app, &mut sel);
    handle_events(Key::Char('z'), &mut app, &mut sel);
    handle_events(Key::Backspace, &mut app, &mut sel);
    handle_events(Key::Up, &mut app, &mut sel);
    assert!(!app.should_exit);
    assert_eq!(app.input, "q");
    handle_events(Key::Enter, &mut app, &mut sel);
    assert_eq!(titles(&app), vec!["a", "b", "q"]);
    assert_eq!(sel.selected(), Some(0));
    handle_events(Key::Char('d'), &mut app, &mut sel);
    assert_eq!(titles(&app), vec!["b", "q"]);
    handle_events(Key::Other, &mut app, &mut sel);
    handle_events(Key::Char('q'), &mut app, &mut sel);
    assert!(app.should_exit);
}

#[test]
fn escape_cancels_typing() {
    let mut app = app_with(&["a"]);
    let mut sel = Selection::new(1);
    handle_events(Key::Char('n'), &mut app, &mut sel);
    handle_events(Key::Char('x'), &mut app, &mut sel);
    handle_events(Key::Esc, &mut app, &mut sel);
    assert_eq!(app.input_mode, InputMode::Normal);
    assert_eq!(titles(&app), vec!["a"]);
}

#[test]
fn command_line_words_become_title() {
    let title = title_from_args(&args(&["quest", "buy", "milk"]));
    assert_eq!(title.as_deref(), Some("buy milk"));
    let mut app = app_with(&[]);
    app.add_quest(Quest::new(title.unwrap()));
    assert_eq!(titles(&app), vec!["buy milk"]);
    assert!(!app.quests[0].completed);
}

#[test]
fn command_line_title_is_trimmed() {
    let title = title_from_args(&args(&["quest", "  call", "mom  "]));
    assert_eq!(title.as_deref(), Some("call mom"));
}

#[test]
fn no_command_line_words_no_title() {
    assert_eq!(title_from_args(&args(&["quest"])), None);
    assert_eq!(title_from_args(&args(&[])), None);
}
