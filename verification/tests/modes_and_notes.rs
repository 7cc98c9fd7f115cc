use quick_note::mode::{to_mode, Mode};
use quick_note::note::{Note, RelevanceLevel};
use quick_note::selection::ListSelection;
use quick_note::screen::{header_label, key_hint};
use quick_note::text::{has_text, join_lines, starts_with};

#[test]
fn to_mode_parses_every_command() {
    assert_eq!(to_mode(String::from("select")), Some(Mode::Select));
    assert_eq!(to_mode(String::from("add")), Some(Mode::AddNoteTitle));
    assert_eq!(to_mode(String::from("remove")), Some(Mode::Remove));
    assert_eq!(to_mode(String::from("modify")), Some(Mode::ModifyNoteSelect));
    assert_eq!(to_mode(String::from("display")), Some(Mode::Display));
}

#[test]
fn to_mode_refuses_other_text() {
    assert_eq!(to_mode(String::from("exit")), None);
    assert_eq!(to_mode(String::from("")), None);
    assert_eq!(to_mode(String::from("Select")), None);
    assert_eq!(to_mode(String::from("select ")), None);
}

#[test]
fn mode_names_group_the_steps() {
    assert_eq!(Mode::Select.to_string(), "select");
    assert_eq!(Mode::AddNoteTitle.to_string(), "add");
    assert_eq!(Mode::AddNoteBody.to_string(), "add");
    assert_eq!(Mode::AddNoteRelevance.to_string(), "add");
    assert_eq!(Mode::Remove.to_string(), "remove");
    assert_eq!(Mode::ModifyNoteSelect.to_string(), "modify");
    assert_eq!(Mode::ModifyNoteTitle.to_string(), "modify");
    assert_eq!(Mode::ModifyNoteBody.to_string(), "modify");
    assert_eq!(Mode::Display.to_string(), "display");
}

#[test]
fn mode_name_round_trip_enters_first_step() {
    let all = [
        (Mode::Select, Mode::Select),
        (Mode::AddNoteTitle, Mode::AddNoteTitle),
        (Mode::AddNoteBody, Mode::AddNoteTitle),
        (Mode::AddNoteRelevance, Mode::AddNoteTitle),
        (Mode::Remove, Mode::Remove),
        (Mode::ModifyNoteSelect, Mode::ModifyNoteSelect),
        (Mode::ModifyNoteTitle, Mode::ModifyNoteSelect),
        (Mode::ModifyNoteBody, Mode::ModifyNoteSelect),
        (Mode::Display, Mode::Display),
    ];
    for (mode, entry) in all {
        assert_eq!(to_mode(mode.to_string()), Some(entry));
    }
}

#[test]
fn relevance_names_and_order() {
    assert_eq!(RelevanceLevel::Normal.to_string(), "normal");
    assert_eq!(RelevanceLevel::Relevant.to_string(), "relevant");
    assert_eq!(RelevanceLevel::Important.to_string(), "important");
    assert_eq!(RelevanceLevel::Crucial.to_string(), "crucial");
    assert_eq!(
        RelevanceLevel::VARIANTS,
        [
            RelevanceLevel::Normal,
            RelevanceLevel::Relevant,
            RelevanceLevel::Important,
            RelevanceLevel::Crucial
        ]
    );
}

#[test]
fn relevance_names_are_distinct() {
    let names: Vec<String> = RelevanceLevel::VARIANTS.iter().map(|l| l.to_string()).collect();
    for i in 0..4 {
        for j in 0..4 {
            assert_eq!(names[i] == names[j], i == j);
        }
    }
}

#[test]
fn note_new_keeps_its_text() {
    let note = Note::new(String::from("the body"), String::from("the title"), RelevanceLevel::Important);
    assert_eq!(note.body, "the body");
    assert_eq!(note.title, "the title");
    assert_eq!(note.relevance, RelevanceLevel::Important);
    assert!(!note.timestamp.is_empty());
    let copy = note.clone();
    assert_eq!(copy.id, note.id);
    assert_eq!(copy.timestamp, note.timestamp);
    assert_eq!(copy.title, note.title);
    assert_eq!(copy.body, note.body);
}

#[test]
fn starts_with_compares_characters() {
    assert!(starts_with("groceries", "gro"));
    assert!(starts_with("groceries", ""));
    assert!(starts_with("", ""));
    assert!(!starts_with("gro", "groceries"));
    assert!(!starts_with("groceries", "grx"));
    assert!(starts_with("été", "ét"));
}

#[test]
fn join_lines_puts_newlines_between() {
    assert_eq!(join_lines(&vec![]), "");
    assert_eq!(join_lines(&vec![String::from("one")]), "one");
    assert_eq!(
        join_lines(&vec![String::from("one"), String::from(""), String::from("three")]),
        "one\n\nthree"
    );
}

#[test]
fn has_text_looks_at_every_line() {
    assert!(!has_text(&vec![String::new()]));
    assert!(!has_text(&vec![String::new(), String::new()]));
    assert!(has_text(&vec![String::new(), String::from("x")]));
}

#[test]
fn list_selection_moves() {
    let mut s = ListSelection::new();
    assert_eq!(s.selected(), None);
    s.select_next();
    assert_eq!(s.selected(), Some(0));
    s.select_next();
    assert_eq!(s.selected(), Some(1));
    s.select_previous();
    s.select_previous();
    assert_eq!(s.selected(), Some(0));
    s.offset = 5;
    s.select(Some(3));
    assert_eq!((s.selected, s.offset), (Some(3), 5));
    s.select(None);
    assert_eq!((s.selected, s.offset), (None, 0));
    s.select_previous();
    assert_eq!(s.selected(), Some(usize::MAX));
    s.select_next();
    assert_eq!(s.selected(), Some(usize::MAX));
}

#[test]
fn header_labels_and_hints() {
    let move_hint = "up & down arrows: move, Ctrl + c: quit mode";
    let type_hint = "Ctrl + j: submit, Ctrl + c: quit mode";
    let cases = [
        (Mode::Select, "Select.", move_hint),
        (Mode::AddNoteTitle, "Add.", type_hint),
        (Mode::AddNoteBody, "Add.", type_hint),
        (Mode::AddNoteRelevance, "Add.", move_hint),
        (Mode::Remove, "Remove.", move_hint),
        (Mode::ModifyNoteSelect, "Modify.", move_hint),
        (Mode::ModifyNoteTitle, "Modify.", type_hint),
        (Mode::ModifyNoteBody, "Modify.", type_hint),
        (Mode::Display, "Display.", "commands: select, add, remove, modify, display, exit"),
    ];
    for (mode, label, hint) in cases {
        assert_eq!(header_label(mode), label);
        assert_eq!(key_hint(mode), hint);
    }
}
