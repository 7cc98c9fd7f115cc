use quick_note::app::{execute_command, get_notes, handle_input, AppState};
use quick_note::key::{KeyInput, KeyKind};
use quick_note::mode::Mode;
use quick_note::note::{Note, RelevanceLevel};

fn key(kind: KeyKind, ctrl: bool) -> KeyInput {
    KeyInput::new(kind, ctrl, false, false)
}

fn note(id: u32, title: &str, body: &str) -> Note {
    Note {
        id,
        timestamp: String::from("2024-Jan-01-10:00"),
        title: String::from(title),
        body: String::from(body),
        relevance: RelevanceLevel::Relevant,
    }
}

/// Presses a key the way the terminal front end does: the store is read
/// only when the key needs it, and the result says whether to write it.
fn press(app: &mut AppState, k: KeyInput, store: &mut Vec<Note>) -> bool {
    if app.needs_store(&k) {
        assert!(app.input_is_safe(&k, store));
        handle_input(app, k, store)
    } else {
        let mut unused = Vec::new();
        assert!(app.input_is_safe(&k, &unused));
        let saved = handle_input(app, k, &mut unused);
        assert!(unused.is_empty());
        assert!(!saved);
        saved
    }
}

fn type_text(app: &mut AppState, text: &str, store: &mut Vec<Note>) {
    for c in text.chars() {
        press(app, key(KeyKind::Char(c), false), store);
    }
}

fn run_command(app: &mut AppState, command: &str, store: &mut Vec<Note>) {
    type_text(app, command, store);
    press(app, key(KeyKind::Enter, false), store);
}

fn lines(area: &quick_note::textarea::TextBox) -> Vec<String> {
    area.area.lines().to_vec()
}

#[test]
fn start_shows_newest_note() {
    let store = vec![note(1, "first", "x"), note(2, "second", "y")];
    let app = AppState::new(&store);
    assert_eq!(app.current_mode, Mode::Display);
    assert!(!app.exit);
    assert_eq!(app.current_note.as_ref().unwrap().id, 2);
    assert_eq!(app.notes.as_ref().unwrap().iter().map(|n| n.id).collect::<Vec<_>>(), vec![2, 1]);
}

#[test]
fn start_without_notes() {
    let app = AppState::new(&vec![]);
    assert!(app.current_note.is_none());
    assert!(app.notes.is_none());
}

#[test]
fn escape_exits_from_any_mode() {
    let mut store = vec![];
    let mut app = AppState::new(&store);
    run_command(&mut app, "add", &mut store);
    assert_eq!(app.current_mode, Mode::AddNoteTitle);
    press(&mut app, key(KeyKind::Esc, false), &mut store);
    assert!(app.exit);
    assert_eq!(app.current_mode, Mode::AddNoteTitle);
}

#[test]
fn exit_command_ends_program_and_clears_prompt() {
    let mut store = vec![];
    let mut app = AppState::new(&store);
    run_command(&mut app, "exit", &mut store);
    assert!(app.exit);
    assert_eq!(lines(&app.text_areas.command_prompt), vec![String::new()]);
}

#[test]
fn unknown_command_does_nothing_but_clear() {
    let mut store = vec![note(1, "a", "b")];
    let mut app = AppState::new(&store);
    run_command(&mut app, "bogus", &mut store);
    assert!(!app.exit);
    assert_eq!(app.current_mode, Mode::Display);
    assert_eq!(lines(&app.text_areas.command_prompt), vec![String::new()]);
}

#[test]
fn execute_command_switches_mode() {
    let mut store = vec![];
    let mut app = AppState::new(&store);
    type_text(&mut app, "remove", &mut store);
    app.display_offset = 4;
    let saved = execute_command(&mut app, &mut store);
    assert!(!saved);
    assert_eq!(app.current_mode, Mode::Remove);
    assert_eq!(app.display_offset, 0);
}

#[test]
fn display_scrolls() {
    let mut store = vec![];
    let mut app = AppState::new(&store);
    press(&mut app, key(KeyKind::Up, false), &mut store);
    assert_eq!(app.display_offset, 0);
    press(&mut app, key(KeyKind::Down, false), &mut store);
    press(&mut app, key(KeyKind::Down, false), &mut store);
    assert_eq!(app.display_offset, 2);
    press(&mut app, key(KeyKind::Up, false), &mut store);
    assert_eq!(app.display_offset, 1);
}

#[test]
fn scrolling_past_the_largest_offset_wraps() {
    let mut store = vec![];
    let mut app = AppState::new(&store);
    app.display_offset = u16::MAX;
    press(&mut app, key(KeyKind::Down, false), &mut store);
    assert_eq!(app.display_offset, 0);
}

#[test]
fn quit_in_display_hides_the_note() {
    let mut store = vec![note(1, "a", "b")];
    let mut app = AppState::new(&store);
    press(&mut app, key(KeyKind::Char('c'), true), &mut store);
    assert!(app.current_note.is_none());
    assert_eq!(app.current_mode, Mode::Display);
}

#[test]
fn adding_a_note() {
    let mut store = vec![note(7, "old", "old body")];
    let mut app = AppState::new(&store);
    run_command(&mut app, "add", &mut store);
    assert_eq!(app.current_mode, Mode::AddNoteTitle);
    // An empty title cannot be submitted.
    press(&mut app, key(KeyKind::Char('j'), true), &mut store);
    assert_eq!(app.current_mode, Mode::AddNoteTitle);
    type_text(&mut app, "Groceries", &mut store);
    press(&mut app, key(KeyKind::Char('j'), true), &mut store);
    assert_eq!(app.current_mode, Mode::AddNoteBody);
    // An empty body cannot be submitted either.
    press(&mut app, key(KeyKind::Char('j'), true), &mut store);
    assert_eq!(app.current_mode, Mode::AddNoteBody);
    type_text(&mut app, "milk", &mut store);
    press(&mut app, key(KeyKind::Enter, false), &mut store);
    type_text(&mut app, "eggs", &mut store);
    press(&mut app, key(KeyKind::Char('j'), true), &mut store);
    assert_eq!(app.current_mode, Mode::AddNoteRelevance);
    assert_eq!(app.selected_item.selected(), Some(0));
    press(&mut app, key(KeyKind::Down, false), &mut store);
    press(&mut app, key(KeyKind::Down, false), &mut store);
    assert!(app.needs_store(&key(KeyKind::Enter, false)));
    let saved = press(&mut app, key(KeyKind::Enter, false), &mut store);
    assert!(saved);
    assert_eq!(app.current_mode, Mode::Display);
    assert_eq!(store.len(), 2);
    let added = &store[1];
    assert_eq!(added.title, "Groceries");
    assert_eq!(added.body, "milk\neggs");
    assert_eq!(added.relevance, RelevanceLevel::Important);
    // The note shown stays the one that was shown; the list has the new one first.
    assert_eq!(app.current_note.as_ref().unwrap().id, 7);
    assert_eq!(app.notes.as_ref().unwrap()[0].title, "Groceries");
    assert_eq!(lines(&app.text_areas.note_title), vec![String::new()]);
    assert_eq!(lines(&app.text_areas.note_body), vec![String::new()]);
    assert_eq!(app.selected_item.selected(), None);
}

#[test]
fn adding_first_note_shows_it() {
    let mut store = vec![];
    let mut app = AppState::new(&store);
    run_command(&mut app, "add", &mut store);
    type_text(&mut app, "T", &mut store);
    press(&mut app, key(KeyKind::Char('j'), true), &mut store);
    type_text(&mut app, "B", &mut store);
    press(&mut app, key(KeyKind::Char('j'), true), &mut store);
    press(&mut app, key(KeyKind::Enter, false), &mut store);
    assert_eq!(store.len(), 1);
    assert_eq!(store[0].relevance, RelevanceLevel::Normal);
    assert_eq!(app.current_note.as_ref().unwrap().title, "T");
}

#[test]
fn quitting_add_drops_the_text() {
    let mut store = vec![];
    let mut app = AppState::new(&store);
    run_command(&mut app, "add", &mut store);
    type_text(&mut app, "draft", &mut store);
    press(&mut app, key(KeyKind::Char('c'), true), &mut store);
    assert_eq!(app.current_mode, Mode::Display);
    assert_eq!(lines(&app.text_areas.note_title), vec![String::new()]);
    assert!(store.is_empty());
}

#[test]
fn selecting_a_note_shows_it() {
    let mut store = vec![note(10, "apple", "a"), note(20, "banana", "b"), note(30, "avocado", "c")];
    let mut app = AppState::new(&store);
    run_command(&mut app, "select", &mut store);
    assert_eq!(app.current_mode, Mode::Select);
    type_text(&mut app, "A", &mut store);
    assert_eq!(
        app.notes.as_ref().unwrap().iter().map(|n| n.id).collect::<Vec<_>>(),
        vec![30, 10]
    );
    press(&mut app, key(KeyKind::Down, false), &mut store);
    press(&mut app, key(KeyKind::Down, false), &mut store);
    assert_eq!(app.selected_item.selected(), Some(1));
    let saved = press(&mut app, key(KeyKind::Enter, false), &mut store);
    assert!(!saved);
    assert_eq!(app.current_mode, Mode::Display);
    assert_eq!(app.current_note.as_ref().unwrap().id, 10);
    assert_eq!(lines(&app.text_areas.search_bar), vec![String::new()]);
    assert_eq!(app.notes.as_ref().unwrap().len(), 3);
}

#[test]
fn search_by_id_and_nothing_found() {
    let mut store = vec![note(4711, "x", "a"), note(42, "y", "b")];
    let mut app = AppState::new(&store);
    run_command(&mut app, "select", &mut store);
    type_text(&mut app, "47", &mut store);
    assert_eq!(app.notes.as_ref().unwrap().iter().map(|n| n.id).collect::<Vec<_>>(), vec![4711]);
    type_text(&mut app, "9", &mut store);
    assert!(app.notes.is_none());
    press(&mut app, key(KeyKind::Backspace, false), &mut store);
    assert_eq!(app.notes.as_ref().unwrap().len(), 1);
    let found = get_notes(&app, &store).unwrap();
    assert_eq!(found[0].id, 4711);
}

#[test]
fn selection_past_the_list_keeps_the_note() {
    let mut store = vec![note(1, "a", "a")];
    let mut app = AppState::new(&store);
    run_command(&mut app, "select", &mut store);
    press(&mut app, key(KeyKind::Up, false), &mut store);
    press(&mut app, key(KeyKind::Enter, false), &mut store);
    assert_eq!(app.current_note.as_ref().unwrap().id, 1);
    assert_eq!(app.current_mode, Mode::Display);
}

#[test]
fn removing_a_note() {
    let mut store = vec![note(1, "one", "a"), note(2, "two", "b"), note(3, "three", "c")];
    let mut app = AppState::new(&store);
    assert_eq!(app.current_note.as_ref().unwrap().id, 3);
    run_command(&mut app, "remove", &mut store);
    press(&mut app, key(KeyKind::Down, false), &mut store);
    let saved = press(&mut app, key(KeyKind::Enter, false), &mut store);
    assert!(saved);
    assert_eq!(store.iter().map(|n| n.id).collect::<Vec<_>>(), vec![1, 2]);
    assert!(app.current_note.is_none());
    assert_eq!(app.notes.as_ref().unwrap().iter().map(|n| n.id).collect::<Vec<_>>(), vec![2, 1]);
    assert_eq!(app.current_mode, Mode::Display);
}

#[test]
fn removing_with_nothing_selected_keeps_store() {
    let mut store = vec![note(1, "one", "a")];
    let mut app = AppState::new(&store);
    run_command(&mut app, "remove", &mut store);
    let saved = press(&mut app, key(KeyKind::Enter, false), &mut store);
    assert!(!saved);
    assert_eq!(store.len(), 1);
    assert_eq!(app.current_note.as_ref().unwrap().id, 1);
}

#[test]
fn quitting_remove_lists_all_notes() {
    let mut store = vec![note(1, "one", "a"), note(2, "two", "b")];
    let mut app = AppState::new(&store);
    run_command(&mut app, "remove", &mut store);
    type_text(&mut app, "tw", &mut store);
    assert_eq!(app.notes.as_ref().unwrap().len(), 1);
    press(&mut app, key(KeyKind::Char('c'), true), &mut store);
    assert_eq!(app.current_mode, Mode::Display);
    assert_eq!(app.notes.as_ref().unwrap().len(), 2);
    assert_eq!(store.len(), 2);
}

#[test]
fn modifying_a_note() {
    let mut store = vec![note(1, "one", "first line\nsecond line"), note(2, "two", "b")];
    let mut app = AppState::new(&store);
    run_command(&mut app, "modify", &mut store);
    assert_eq!(app.current_mode, Mode::ModifyNoteSelect);
    // Enter without a selection stays in the mode.
    press(&mut app, key(KeyKind::Enter, false), &mut store);
    assert_eq!(app.current_mode, Mode::ModifyNoteSelect);
    press(&mut app, key(KeyKind::Down, false), &mut store);
    press(&mut app, key(KeyKind::Down, false), &mut store);
    press(&mut app, key(KeyKind::Enter, false), &mut store);
    assert_eq!(app.current_mode, Mode::ModifyNoteTitle);
    assert_eq!(app.current_note.as_ref().unwrap().id, 1);
    assert_eq!(lines(&app.text_areas.note_title), vec![String::from("one")]);
    assert_eq!(
        lines(&app.text_areas.note_body),
        vec![String::from("first line"), String::from("second line")]
    );
    type_text(&mut app, "!", &mut store);
    press(&mut app, key(KeyKind::Char('j'), true), &mut store);
    assert_eq!(app.current_mode, Mode::ModifyNoteBody);
    let saved = press(&mut app, key(KeyKind::Char('j'), true), &mut store);
    assert!(saved);
    assert_eq!(app.current_mode, Mode::Display);
    assert_eq!(store.len(), 2);
    assert_eq!(store[0].id, 2);
    let modified = &store[1];
    assert_eq!(modified.title, "one!");
    assert_eq!(modified.body, "first line\nsecond line");
    assert_eq!(modified.relevance, RelevanceLevel::Relevant);
    assert_eq!(app.current_note.as_ref().unwrap().title, "one!");
}

#[test]
fn modify_with_nothing_to_load_is_unsafe() {
    let mut store = vec![];
    let mut app = AppState::new(&store);
    run_command(&mut app, "modify", &mut store);
    press(&mut app, key(KeyKind::Down, false), &mut store);
    assert!(!app.input_is_safe(&key(KeyKind::Enter, false), &store));
}

#[test]
fn relevance_past_the_offered_ones_is_unsafe() {
    let mut store = vec![];
    let mut app = AppState::new(&store);
    run_command(&mut app, "add", &mut store);
    type_text(&mut app, "t", &mut store);
    press(&mut app, key(KeyKind::Char('j'), true), &mut store);
    type_text(&mut app, "b", &mut store);
    press(&mut app, key(KeyKind::Char('j'), true), &mut store);
    for _ in 0..4 {
        press(&mut app, key(KeyKind::Down, false), &mut store);
    }
    assert_eq!(app.selected_item.selected(), Some(4));
    assert!(!app.input_is_safe(&key(KeyKind::Enter, false), &store));
}

#[test]
fn keys_outside_the_store_do_not_need_it() {
    let store = vec![note(1, "a", "b")];
    let app = AppState::new(&store);
    assert!(!app.needs_store(&key(KeyKind::Char('x'), false)));
    assert!(!app.needs_store(&key(KeyKind::Enter, false)));
    assert!(!app.needs_store(&key(KeyKind::Esc, false)));
    assert!(!app.needs_store(&key(KeyKind::Char('c'), true)));
}

/// Brings a fresh application with no notes to choosing a relevance for a
/// note titled `title`.
fn choosing_relevance(title: &str, store: &mut Vec<Note>) -> AppState<'static> {
    let mut app = AppState::new(store);
    run_command(&mut app, "add", store);
    type_text(&mut app, title, store);
    press(&mut app, key(KeyKind::Char('j'), true), store);
    type_text(&mut app, "body", store);
    press(&mut app, key(KeyKind::Char('j'), true), store);
    app
}

#[test]
fn adding_is_unsafe_when_the_search_may_miss_the_new_note() {
    let mut store = vec![];
    let mut app = choosing_relevance("abc", &mut store);
    assert!(app.input_is_safe(&key(KeyKind::Enter, false), &store));
    app.text_areas.search_bar.area.insert_str("zzz");
    assert!(!app.input_is_safe(&key(KeyKind::Enter, false), &store));
    // A stored note that matches makes it safe again.
    let others = vec![note(5, "zzz top", "x")];
    assert!(app.input_is_safe(&key(KeyKind::Enter, false), &others));
}

#[test]
fn adding_is_safe_when_the_title_matches_the_search() {
    let mut store = vec![];
    let mut app = choosing_relevance("ZZZ title", &mut store);
    app.text_areas.search_bar.area.insert_str("zz");
    assert!(app.input_is_safe(&key(KeyKind::Enter, false), &store));
    let saved = handle_input(&mut app, key(KeyKind::Enter, false), &mut store);
    assert!(saved);
    assert_eq!(app.current_note.as_ref().unwrap().title, "ZZZ title");
    assert_eq!(app.notes.as_ref().unwrap().len(), 1);
}

#[test]
fn unedited_modify_keeps_the_note() {
    let mut store = vec![note(8, "keep", "line one\n\nline three"), note(9, "other", "x")];
    let mut app = AppState::new(&store);
    run_command(&mut app, "modify", &mut store);
    type_text(&mut app, "keep", &mut store);
    press(&mut app, key(KeyKind::Down, false), &mut store);
    press(&mut app, key(KeyKind::Enter, false), &mut store);
    assert_eq!(app.current_mode, Mode::ModifyNoteTitle);
    press(&mut app, key(KeyKind::Char('j'), true), &mut store);
    let saved = press(&mut app, key(KeyKind::Char('j'), true), &mut store);
    assert!(saved);
    assert_eq!(store.len(), 2);
    assert_eq!(store[0].id, 9);
    assert_eq!(store[1].title, "keep");
    assert_eq!(store[1].body, "line one\n\nline three");
    assert_eq!(store[1].relevance, RelevanceLevel::Relevant);
    assert_eq!(app.current_note.as_ref().unwrap().title, "keep");
    assert_eq!(app.notes.as_ref().unwrap()[0].title, "keep");
    assert_eq!(lines(&app.text_areas.note_title), vec![String::new()]);
    assert_eq!(lines(&app.text_areas.note_body), vec![String::new()]);
}

#[test]
fn quitting_modify_drops_the_loaded_text() {
    let mut store = vec![note(1, "a", "b")];
    let mut app = AppState::new(&store);
    run_command(&mut app, "modify", &mut store);
    press(&mut app, key(KeyKind::Down, false), &mut store);
    press(&mut app, key(KeyKind::Enter, false), &mut store);
    assert_eq!(lines(&app.text_areas.note_title), vec![String::from("a")]);
    press(&mut app, key(KeyKind::Char('c'), true), &mut store);
    assert_eq!(app.current_mode, Mode::Display);
    assert_eq!(lines(&app.text_areas.note_title), vec![String::new()]);
    assert_eq!(lines(&app.text_areas.note_body), vec![String::new()]);
    assert_eq!(store.len(), 1);
    assert_eq!(store[0].title, "a");
}

#[test]
fn modifying_removes_only_the_first_note_with_the_id() {
    let mut store = vec![note(5, "dup one", "a"), note(5, "dup two", "b")];
    let mut app = AppState::new(&store);
    // The newest note (the second) is shown; modify it from the display.
    run_command(&mut app, "modify", &mut store);
    press(&mut app, key(KeyKind::Down, false), &mut store);
    press(&mut app, key(KeyKind::Enter, false), &mut store);
    assert_eq!(app.current_note.as_ref().unwrap().title, "dup two");
    type_text(&mut app, "!", &mut store);
    press(&mut app, key(KeyKind::Char('j'), true), &mut store);
    press(&mut app, key(KeyKind::Char('j'), true), &mut store);
    assert_eq!(store.len(), 2);
    assert_eq!(store[0].title, "dup two");
    assert_eq!(store[1].title, "dup two!");
}

fn shifted(kind: KeyKind) -> KeyInput {
    KeyInput::new(kind, false, false, true)
}

#[test]
fn clearing_during_a_selection_keeps_the_rest_of_the_text() {
    let mut store = vec![note(1, "bcd", "x"), note(2, "abc", "y")];
    let mut app = AppState::new(&store);
    run_command(&mut app, "select", &mut store);
    type_text(&mut app, "abc", &mut store);
    press(&mut app, key(KeyKind::Left, false), &mut store);
    press(&mut app, key(KeyKind::Left, false), &mut store);
    press(&mut app, shifted(KeyKind::Right), &mut store);
    press(&mut app, key(KeyKind::Enter, false), &mut store);
    assert_eq!(app.current_mode, Mode::Display);
    // Clearing deleted only the text before the selection's start.
    assert_eq!(lines(&app.text_areas.search_bar), vec![String::from("bc")]);
    assert_eq!(app.notes.as_ref().unwrap().iter().map(|n| n.id).collect::<Vec<_>>(), vec![1]);
}

#[test]
fn timestamp_has_the_pattern_shape() {
    let n = Note::new(String::from("b"), String::from("t"), RelevanceLevel::Normal);
    let chars: Vec<char> = n.timestamp.chars().collect();
    assert_eq!(chars.len(), 17);
    assert_eq!(chars[4], '-');
    assert_eq!(chars[8], '-');
    assert_eq!(chars[11], '-');
    assert_eq!(chars[14], ':');
    let month: String = chars[5..8].iter().collect();
    let months = ["Jan", "Feb", "Mar", "Apr", "May", "Jun", "Jul", "Aug", "Sep", "Oct", "Nov", "Dec"];
    assert!(months.contains(&month.as_str()));
    for i in [0, 1, 2, 3, 9, 10, 12, 13, 15, 16] {
        assert!(chars[i].is_ascii_digit());
    }
}

#[test]
fn key_input_holds_the_key_and_modifiers() {
    let k = KeyInput::new(KeyKind::Char('x'), true, false, true);
    assert_eq!(k.kind, KeyKind::Char('x'));
    assert!(k.ctrl);
    assert!(!k.alt);
    assert!(k.shift);
    let plain = KeyInput::new(KeyKind::Left, false, true, false);
    assert_eq!(plain.kind, KeyKind::Left);
    assert!(!plain.ctrl);
    assert!(plain.alt);
    assert!(!plain.shift);
}

#[test]
fn keys_with_modifiers_reach_the_text_areas() {
    let mut store = vec![note(1, "abc", "x"), note(2, "abd", "y")];
    let mut app = AppState::new(&store);
    run_command(&mut app, "select", &mut store);
    type_text(&mut app, "abc", &mut store);
    // Control + h deletes the character before the cursor.
    press(&mut app, key(KeyKind::Char('h'), true), &mut store);
    assert_eq!(lines(&app.text_areas.search_bar), vec![String::from("ab")]);
    assert_eq!(app.notes.as_ref().unwrap().len(), 2);
    // Alt + Backspace deletes the word before the cursor.
    press(&mut app, KeyInput::new(KeyKind::Backspace, false, true, false), &mut store);
    assert_eq!(lines(&app.text_areas.search_bar), vec![String::from("")]);
    press(&mut app, key(KeyKind::Esc, false), &mut store);
    assert!(app.exit);
}

#[test]
fn every_other_key_reaches_the_body() {
    let mut store = vec![];
    let mut app = AppState::new(&store);
    run_command(&mut app, "add", &mut store);
    type_text(&mut app, "t", &mut store);
    press(&mut app, key(KeyKind::Char('j'), true), &mut store);
    type_text(&mut app, "bc", &mut store);
    // Home moves to the start of the line; typing goes in there.
    press(&mut app, key(KeyKind::Home, false), &mut store);
    type_text(&mut app, "a", &mut store);
    assert_eq!(lines(&app.text_areas.note_body), vec![String::from("abc")]);
    // Delete removes the character under the cursor.
    press(&mut app, key(KeyKind::Delete, false), &mut store);
    assert_eq!(lines(&app.text_areas.note_body), vec![String::from("ac")]);
    // Tab inserts spaces up to the next tab stop.
    press(&mut app, key(KeyKind::End, false), &mut store);
    press(&mut app, key(KeyKind::Tab, false), &mut store);
    assert_eq!(lines(&app.text_areas.note_body), vec![String::from("ac  ")]);
}

#[test]
fn typing_edits_at_the_cursor() {
    let mut store = vec![];
    let mut app = AppState::new(&store);
    run_command(&mut app, "add", &mut store);
    type_text(&mut app, "held", &mut store);
    press(&mut app, key(KeyKind::Left, false), &mut store);
    press(&mut app, key(KeyKind::Left, false), &mut store);
    type_text(&mut app, "X", &mut store);
    assert_eq!(lines(&app.text_areas.note_title), vec![String::from("heXld")]);
    press(&mut app, key(KeyKind::Backspace, false), &mut store);
    press(&mut app, key(KeyKind::Backspace, false), &mut store);
    assert_eq!(lines(&app.text_areas.note_title), vec![String::from("hld")]);
    press(&mut app, key(KeyKind::Char('j'), true), &mut store);
    type_text(&mut app, "ab", &mut store);
    press(&mut app, key(KeyKind::Left, false), &mut store);
    press(&mut app, key(KeyKind::Enter, false), &mut store);
    assert_eq!(lines(&app.text_areas.note_body), vec![String::from("a"), String::from("b")]);
    press(&mut app, key(KeyKind::Backspace, false), &mut store);
    assert_eq!(lines(&app.text_areas.note_body), vec![String::from("ab")]);
}

#[test]
fn loading_a_note_inserts_before_text_left_by_a_selection() {
    let mut store = vec![note(1, "one", "b")];
    let mut app = AppState::new(&store);
    run_command(&mut app, "add", &mut store);
    type_text(&mut app, "abc", &mut store);
    press(&mut app, key(KeyKind::Left, false), &mut store);
    press(&mut app, key(KeyKind::Left, false), &mut store);
    press(&mut app, shifted(KeyKind::Right), &mut store);
    // Leaving clears the title only up to where the selection started.
    press(&mut app, key(KeyKind::Char('c'), true), &mut store);
    assert_eq!(app.current_mode, Mode::Display);
    assert_eq!(lines(&app.text_areas.note_title), vec![String::from("bc")]);
    run_command(&mut app, "modify", &mut store);
    press(&mut app, key(KeyKind::Down, false), &mut store);
    press(&mut app, key(KeyKind::Enter, false), &mut store);
    assert_eq!(app.current_mode, Mode::ModifyNoteTitle);
    assert_eq!(lines(&app.text_areas.note_title), vec![String::from("onebc")]);
    assert_eq!(lines(&app.text_areas.note_body), vec![String::from("b")]);
}
