//! The application's state and the state machine that turns key presses
//! into mode changes, searches and edits of the stored notes.
//!
//! The stored notes are handed in by the caller, which reads them from
//! storage when `needs_store` says that a key press uses them, and writes
//! them back when handling the key reports that they changed.

use crate::key::{is_edit, is_escape, is_quit, is_submit, KeyInput, KeyKind};
use crate::mode::{command_mode, to_mode, Mode};
use crate::note::{relevance_at, Note, RelevanceLevel};
use crate::notes::{
    add_note, all_newest_first, filter_notes, has_id, lemma_remove_present_id, matching_newest_first,
    note_matches, notes_view, remove_note, search_result, without_first_with_id,
};
use crate::selection::{next_index, previous_index, ListSelection};
use crate::text::{
    has_text, is_prefix, join_lines, joined, lemma_join_split_lines, lowercase_of,
    no_carriage_return, split_lines, starts_with, texts, to_lowercase,
};
use crate::textarea::{
    area_lines, area_view, clear_area, cleared_from, empty_area, empty_lines, input_key, insert_text,
    inserted, keyed, loaded_area, selection_deleted, text_lines, typed, AreaView, TextAreas,
};
use vstd::prelude::*;

verus! {

/// The state of the application between two key presses.
pub struct AppState<'a> {
    pub exit: bool,
    pub current_mode: Mode,
    pub selected_item: ListSelection,
    pub current_note: Option<Note>,
    pub display_offset: u16,
    pub notes: Option<Vec<Note>>,
    pub text_areas: TextAreas<'a>,
}

/// The state of the application as plain values: the text areas by their
/// lines, cursor and the start of a selection under way in them, the listed
/// notes as a sequence.
pub struct AppView {
    pub exit: bool,
    pub mode: Mode,
    pub selection: ListSelection,
    pub current_note: Option<Note>,
    pub display_offset: u16,
    pub notes: Option<Seq<Note>>,
    pub command: AreaView,
    pub search: AreaView,
    pub title: AreaView,
    pub body: AreaView,
}

impl<'a> View for AppState<'a> {
    type V = AppView;

    open spec fn view(&self) -> AppView {
        AppView {
            exit: self.exit,
            mode: self.current_mode,
            selection: self.selected_item,
            current_note: self.current_note,
            display_offset: self.display_offset,
            notes: notes_view(self.notes),
            command: area_view(self.text_areas.command_prompt),
            search: area_view(self.text_areas.search_bar),
            title: area_view(self.text_areas.note_title),
            body: area_view(self.text_areas.note_body),
        }
    }
}

/// No item selected and the list's view at the top.
pub open spec fn no_selection() -> ListSelection {
    ListSelection { offset: 0, selected: None }
}

/// The listed note at the selected index, if an item is selected and the
/// index lies within the listed notes.
pub open spec fn picked_note(v: AppView) -> Option<Note> {
    match v.selection.selected {
        Some(i) => match v.notes {
            Some(ns) => if i < ns.len() {
                Some(ns[i as int])
            } else {
                None
            },
            None => None,
        },
        None => None,
    }
}

/// The current search query: the first line of the search bar.
pub open spec fn search_query(v: AppView) -> Seq<char> {
    v.search.lines[0]
}

/// A note written from the title and body text areas with a relevance.
pub open spec fn written_from(note: Note, v: AppView, relevance: RelevanceLevel) -> bool {
    &&& note.title@ == joined(v.title.lines)
    &&& note.body@ == joined(v.body.lines)
    &&& note.relevance == relevance
}

/// The store after one note was appended to `before`.
pub open spec fn appended(after: Seq<Note>, before: Seq<Note>) -> bool {
    after.len() == before.len() + 1 && after.drop_last() == before
}

/// After a note written from the text areas is added to `others`, the
/// search of the search bar is sure to find some note, whatever id the new
/// note draws: the query is empty, or the new title matches it, or another
/// note does.
pub open spec fn search_finds_written(v: AppView, others: Seq<Note>) -> bool {
    ||| search_query(v).len() == 0
    ||| is_prefix(lowercase_of(search_query(v)), lowercase_of(joined(v.title.lines)))
    ||| matching_newest_first(others, search_query(v)).len() >= 1
}

/// The notes listed after a refresh from the store with the search bar's
/// query.
pub open spec fn refreshed(v: AppView, stored: Seq<Note>) -> Option<Seq<Note>> {
    search_result(stored, search_query(v))
}

/// The listed notes are those that the search bar's query finds in the
/// store; with an empty query, every note, newest first.
pub open spec fn listed(notes: Option<Seq<Note>>, stored: Seq<Note>, search: AreaView) -> bool {
    &&& notes == search_result(stored, search.lines[0])
    &&& search.lines[0].len() == 0 ==> notes == all_newest_first(stored)
}

/// Leaving the current mode does not fail: a relevance is chosen among the
/// offered ones, a note to modify is known, and the search after writing a
/// note finds one.
pub open spec fn can_leave(v: AppView, stored: Seq<Note>) -> bool {
    match v.mode {
        Mode::AddNoteRelevance => match v.selection.selected {
            Some(i) => i < 4 && (v.current_note is None ==> search_finds_written(v, stored)),
            None => true,
        },
        Mode::ModifyNoteSelect => v.selection.selected is Some ==> (picked_note(v) is Some
            || v.current_note is Some),
        Mode::ModifyNoteBody => v.current_note is Some && search_finds_written(
            v,
            without_first_with_id(stored, v.current_note->0.id),
        ),
        _ => true,
    }
}

/// What changing from the current mode to `new_mode` does, with the store
/// before and after and whether the store changed (and must be written).
pub open spec fn change_mode_post(
    pre: AppView,
    new_mode: Mode,
    stored: Seq<Note>,
    post: AppView,
    stored_post: Seq<Note>,
    saved: bool,
) -> bool {
    match pre.mode {
        Mode::Select => {
            &&& stored_post == stored
            &&& !saved
            &&& cleared_from(pre.search, post.search)
            &&& listed(post.notes, stored, post.search)
            &&& post == AppView {
                current_note: if picked_note(pre) is Some {
                    picked_note(pre)
                } else {
                    pre.current_note
                },
                selection: no_selection(),
                search: post.search,
                notes: post.notes,
                mode: new_mode,
                ..pre
            }
        },
        Mode::Remove => {
            let target = picked_note(pre);
            &&& (target is Some ==> stored_post == without_first_with_id(stored, target->0.id)
                && saved == has_id(stored, target->0.id))
            &&& (target is None ==> stored_post == stored && !saved)
            &&& cleared_from(pre.search, post.search)
            &&& listed(post.notes, stored_post, post.search)
            &&& post == AppView {
                current_note: if target is Some && pre.current_note is Some
                    && pre.current_note->0.id == target->0.id {
                    None
                } else {
                    pre.current_note
                },
                selection: no_selection(),
                search: post.search,
                notes: post.notes,
                mode: new_mode,
                ..pre
            }
        },
        Mode::AddNoteRelevance => match pre.selection.selected {
            Some(i) => {
                &&& appended(stored_post, stored)
                &&& written_from(stored_post.last(), pre, relevance_at(i as int))
                &&& saved
                &&& cleared_from(pre.title, post.title)
                &&& cleared_from(pre.body, post.body)
                &&& post == AppView {
                    title: post.title,
                    body: post.body,
                    selection: no_selection(),
                    notes: refreshed(pre, stored_post),
                    current_note: if pre.current_note is None {
                        Some(refreshed(pre, stored_post)->0[0])
                    } else {
                        pre.current_note
                    },
                    mode: new_mode,
                    ..pre
                }
                &&& (search_query(pre).len() == 0 ==> post.notes == all_newest_first(stored_post))
            },
            None => stored_post == stored && !saved && post == AppView { mode: new_mode, ..pre },
        },
        Mode::ModifyNoteSelect => match pre.selection.selected {
            Some(_) => {
                let note = if picked_note(pre) is Some {
                    picked_note(pre)
                } else {
                    pre.current_note
                };
                &&& stored_post == stored
                &&& !saved
                &&& post.exit == pre.exit
                &&& post.mode == new_mode
                &&& post.selection == no_selection()
                &&& post.current_note == note
                &&& post.display_offset == pre.display_offset
                &&& post.notes == pre.notes
                &&& post.command == pre.command
                &&& cleared_from(pre.search, post.search)
                &&& (pre.title.lines == empty_lines() ==> post.title == loaded_area(note->0.title@))
                &&& (pre.body.lines == empty_lines() ==> post.body == loaded_area(note->0.body@))
                &&& post.title == inserted(selection_deleted(pre.title), split_lines(note->0.title@))
                &&& post.body == inserted(selection_deleted(pre.body), split_lines(note->0.body@))
            },
            None => stored_post == stored && !saved && post == pre,
        },
        Mode::ModifyNoteBody => {
            let current = pre.current_note->0;
            let others = without_first_with_id(stored, current.id);
            &&& appended(stored_post, others)
            &&& written_from(stored_post.last(), pre, current.relevance)
            &&& saved
            &&& cleared_from(pre.title, post.title)
            &&& cleared_from(pre.body, post.body)
            &&& post == AppView {
                title: post.title,
                body: post.body,
                notes: refreshed(pre, stored_post),
                current_note: Some(refreshed(pre, stored_post)->0[0]),
                mode: new_mode,
                ..pre
            }
            &&& (search_query(pre).len() == 0 ==> post.notes == all_newest_first(stored_post))
        },
        Mode::Display => stored_post == stored && !saved && post == AppView {
            display_offset: 0,
            mode: new_mode,
            ..pre
        },
        _ => stored_post == stored && !saved && post == AppView { mode: new_mode, ..pre },
    }
}

/// When a note matches the query, searching after it was added finds it
/// first.
proof fn lemma_matching_push(notes: Seq<Note>, note: Note, query: Seq<char>)
    ensures
        matching_newest_first(notes.push(note), query) == (if note_matches(note, query) {
            seq![note] + matching_newest_first(notes, query)
        } else {
            matching_newest_first(notes, query)
        }),
    decreases notes.len(),
{
    if notes.len() == 0 {
        assert(notes.push(note).drop_first() =~= notes);
        assert(seq![note] + Seq::<Note>::empty() =~= Seq::<Note>::empty().push(note));
    } else {
        let rest = notes.drop_first();
        assert(notes.push(note).drop_first() =~= rest.push(note));
        lemma_matching_push(rest, note, query);
        if note_matches(note, query) {
            assert((seq![note] + matching_newest_first(rest, query)).push(notes[0]) =~= seq![note]
                + matching_newest_first(rest, query).push(notes[0]));
        }
    }
}

/// Searches the stored notes with the query of the search bar; `None` when
/// no note matches.
pub fn get_notes(app: &AppState, stored: &Vec<Note>) -> (found: Option<Vec<Note>>)
    ensures
        listed(notes_view(found), stored@, app@.search),
{
    let lines = area_lines(&app.text_areas.search_bar);
    assert(lines@[0]@ == texts(lines@)[0]);
    filter_notes(stored, lines[0].as_str())
}

/// Refreshes the listed notes from the store.
fn refresh_notes(app: &mut AppState, stored: &Vec<Note>)
    ensures
        final(app)@ == (AppView { notes: final(app)@.notes, ..old(app)@ }),
        listed(final(app)@.notes, stored@, old(app)@.search),
{
    app.notes = get_notes(app, stored);
}

/// Writes a note from the text areas, adds it to the store, clears the
/// editor and lists the notes again.
fn write_note_from_editor(app: &mut AppState, stored: &mut Vec<Note>, relevance: RelevanceLevel)
    ensures
        appended(final(stored)@, old(stored)@),
        written_from(final(stored)@.last(), old(app)@, relevance),
        cleared_from(old(app)@.title, final(app)@.title),
        cleared_from(old(app)@.body, final(app)@.body),
        final(app)@ == (AppView {
            title: final(app)@.title,
            body: final(app)@.body,
            notes: refreshed(old(app)@, final(stored)@),
            ..old(app)@
        }),
        search_finds_written(old(app)@, old(stored)@) ==> final(app)@.notes is Some,
        search_query(old(app)@).len() == 0 ==> final(app)@.notes == all_newest_first(
            final(stored)@,
        ),
{
    let body_lines = area_lines(&app.text_areas.note_body);
    let title_lines = area_lines(&app.text_areas.note_title);
    let note = Note::new(join_lines(&body_lines), join_lines(&title_lines), relevance);
    let ghost written = note;
    add_note(stored, note);
    clear_area(&mut app.text_areas.note_title);
    clear_area(&mut app.text_areas.note_body);
    refresh_notes(app, stored);
    proof {
        let query = search_query(old(app)@);
        lemma_matching_push(old(stored)@, written, query);
        assert(stored@.drop_last() =~= old(stored)@);
        if query.len() != 0 {
            if is_prefix(lowercase_of(query), lowercase_of(joined(old(app)@.title.lines))) {
                assert(note_matches(written, query));
            }
        }
    }
}

/// Changes from the current mode to `new_mode`, first finishing what the
/// current mode was doing: choosing a note to show, removing the selected
/// note, adding the written note, loading a note into the editor, or
/// writing back a modified note. Returns whether the store changed.
pub fn change_mode(app: &mut AppState, new_mode: Mode, stored: &mut Vec<Note>) -> (saved: bool)
    requires
        can_leave(old(app)@, old(stored)@),
    ensures
        change_mode_post(old(app)@, new_mode, old(stored)@, final(app)@, final(stored)@, saved),
{
    let mut saved = false;
    match app.current_mode {
        Mode::Select => {
            if let Some(index) = app.selected_item.selected() {
                if let Some(notes) = &app.notes {
                    if index < notes.len() {
                        app.current_note = Some(notes[index].clone());
                    }
                }
            }
            app.selected_item.select(None);
            clear_area(&mut app.text_areas.search_bar);
            refresh_notes(app, stored);
        },
        Mode::Remove => {
            if let Some(index) = app.selected_item.selected() {
                if let Some(notes) = &app.notes {
                    if index < notes.len() {
                        let target_id = notes[index].id;
                        saved = remove_note(stored, target_id);
                        if let Some(note) = &app.current_note {
                            if note.id == target_id {
                                app.current_note = None;
                            }
                        }
                    }
                }
            }
            app.selected_item.select(None);
            clear_area(&mut app.text_areas.search_bar);
            refresh_notes(app, stored);
        },
        Mode::AddNoteRelevance => {
            if let Some(index) = app.selected_item.selected() {
                let relevance = RelevanceLevel::VARIANTS[index];
                assert(relevance == relevance_at(index as int));
                write_note_from_editor(app, stored, relevance);
                saved = true;
                app.selected_item.select(None);
                if app.current_note.is_none() {
                    if let Some(notes) = &app.notes {
                        app.current_note = Some(notes[0].clone());
                    }
                }
            }
        },
        Mode::ModifyNoteSelect => {
            if let Some(index) = app.selected_item.selected() {
                if let Some(notes) = &app.notes {
                    if index < notes.len() {
                        app.current_note = Some(notes[index].clone());
                    }
                }
            } else {
                return false;
            }
            app.selected_item.select(None);
            clear_area(&mut app.text_areas.search_bar);
            if let Some(note) = &app.current_note {
                insert_text(&mut app.text_areas.note_title, note.title.as_str());
                insert_text(&mut app.text_areas.note_body, note.body.as_str());
            }
        },
        Mode::ModifyNoteBody => {
            if let Some(current) = &app.current_note {
                let relevance = current.relevance;
                let target_id = current.id;
                remove_note(stored, target_id);
                assert(target_id == old(app)@.current_note->0.id);
                assert(app@ == old(app)@);
                write_note_from_editor(app, stored, relevance);
                saved = true;
                if let Some(notes) = &app.notes {
                    app.current_note = Some(notes[0].clone());
                }
            }
        },
        Mode::Display => {
            app.display_offset = 0;
        },
        _ => {},
    }
    app.current_mode = new_mode;
    saved
}

/// What leaving the current mode with Control + c does.
pub open spec fn quit_mode_post(pre: AppView, stored: Seq<Note>, post: AppView) -> bool {
    match pre.mode {
        Mode::AddNoteTitle | Mode::AddNoteBody | Mode::AddNoteRelevance | Mode::ModifyNoteTitle
        | Mode::ModifyNoteBody => {
            &&& cleared_from(pre.title, post.title)
            &&& cleared_from(pre.body, post.body)
            &&& post == AppView {
                title: post.title,
                body: post.body,
                selection: no_selection(),
                mode: Mode::Display,
                ..pre
            }
        },
        Mode::Select | Mode::Remove | Mode::ModifyNoteSelect => {
            &&& cleared_from(pre.search, post.search)
            &&& listed(post.notes, stored, post.search)
            &&& post == AppView {
                selection: no_selection(),
                search: post.search,
                notes: post.notes,
                mode: Mode::Display,
                ..pre
            }
        },
        Mode::Display => post == AppView { current_note: None, ..pre },
    }
}

/// Leaves the current mode: editing modes drop what was typed, list modes
/// drop the search and list every note again, and the display mode stops
/// showing its note.
fn quit_mode(app: &mut AppState, stored: &Vec<Note>)
    ensures
        quit_mode_post(old(app)@, stored@, final(app)@),
{
    match app.current_mode {
        Mode::AddNoteTitle | Mode::AddNoteBody | Mode::AddNoteRelevance | Mode::ModifyNoteTitle
        | Mode::ModifyNoteBody => {
            clear_area(&mut app.text_areas.note_title);
            clear_area(&mut app.text_areas.note_body);
            app.selected_item.select(None);
            app.current_mode = Mode::Display;
        },
        Mode::Select | Mode::Remove | Mode::ModifyNoteSelect => {
            app.selected_item.select(None);
            clear_area(&mut app.text_areas.search_bar);
            refresh_notes(app, stored);
            app.current_mode = Mode::Display;
        },
        Mode::Display => {
            app.current_note = None;
        },
    }
}

/// The command typed in the command prompt: its first line.
pub open spec fn command_text(v: AppView) -> Seq<char> {
    v.command.lines[0]
}

/// What running the typed command does: the prompt is cleared first; then a
/// mode's name changes to that mode, "exit" ends the program, and anything
/// else does nothing.
pub open spec fn execute_command_post(
    pre: AppView,
    stored: Seq<Note>,
    post: AppView,
    stored_post: Seq<Note>,
    saved: bool,
) -> bool {
    let emptied = AppView { command: post.command, ..pre };
    &&& cleared_from(pre.command, post.command)
    &&& match command_mode(command_text(pre)) {
        Some(m) => change_mode_post(emptied, m, stored, post, stored_post, saved),
        None => stored_post == stored && !saved && post == AppView {
            exit: pre.exit || command_text(pre) == "exit"@,
            ..emptied
        },
    }
}

/// Runs the command typed in the command prompt and empties the prompt.
pub fn execute_command(app: &mut AppState, stored: &mut Vec<Note>) -> (saved: bool)
    requires
        command_mode(command_text(old(app)@)) is Some ==> can_leave(old(app)@, old(stored)@),
    ensures
        execute_command_post(old(app)@, old(stored)@, final(app)@, final(stored)@, saved),
{
    let lines = area_lines(&app.text_areas.command_prompt);
    let command = lines[0].clone();
    assert(command@ == command_text(old(app)@));
    clear_area(&mut app.text_areas.command_prompt);
    match to_mode(command.clone()) {
        Some(new_mode) => change_mode(app, new_mode, stored),
        None => {
            if command == String::from_str("exit") {
                app.exit = true;
            }
            false
        },
    }
}

/// The modes that list notes to choose from.
pub open spec fn is_list_mode(mode: Mode) -> bool {
    mode == Mode::Select || mode == Mode::Remove || mode == Mode::ModifyNoteSelect
}

/// The modes that edit a note's title and body.
pub open spec fn is_editor_mode(mode: Mode) -> bool {
    mode == Mode::AddNoteTitle || mode == Mode::AddNoteBody || mode == Mode::AddNoteRelevance
        || mode == Mode::ModifyNoteTitle || mode == Mode::ModifyNoteBody
}

/// What every state that the application reaches keeps: a note to modify
/// is known while it is edited; nothing is selected where no list is shown,
/// and a relevance is always selected while one is chosen.
pub open spec fn wf(v: AppView) -> bool {
    &&& (v.mode == Mode::ModifyNoteTitle || v.mode == Mode::ModifyNoteBody) ==> v.current_note is Some
    &&& (v.mode == Mode::Display || v.mode == Mode::AddNoteTitle || v.mode == Mode::AddNoteBody
        || v.mode == Mode::ModifyNoteTitle || v.mode == Mode::ModifyNoteBody)
        ==> v.selection.selected is None
    &&& v.mode == Mode::AddNoteRelevance ==> v.selection.selected is Some
}

/// Some line holds text.
pub open spec fn has_any_text(lines: Seq<Seq<char>>) -> bool {
    exists|i: int| 0 <= i < lines.len() && lines[i].len() > 0
}

/// Nothing changes.
pub open spec fn unchanged(
    pre: AppView,
    stored: Seq<Note>,
    post: AppView,
    stored_post: Seq<Note>,
    saved: bool,
) -> bool {
    post == pre && stored_post == stored && !saved
}

/// A key in a mode that lists notes: arrows move the selection, editing
/// keys edit the search and list the matching notes, Enter goes on to
/// `target`.
pub open spec fn list_mode_post(
    pre: AppView,
    areas: TextAreas,
    key: KeyInput,
    target: Mode,
    stored: Seq<Note>,
    post: AppView,
    stored_post: Seq<Note>,
    saved: bool,
) -> bool {
    match key.kind {
        KeyKind::Down => stored_post == stored && !saved && post == AppView {
            selection: ListSelection {
                selected: Some(next_index(pre.selection.selected)),
                ..pre.selection
            },
            ..pre
        },
        KeyKind::Up => stored_post == stored && !saved && post == AppView {
            selection: ListSelection {
                selected: Some(previous_index(pre.selection.selected)),
                ..pre.selection
            },
            ..pre
        },
        KeyKind::Enter => change_mode_post(pre, target, stored, post, stored_post, saved),
        _ => if is_edit(key) {
            stored_post == stored && !saved && post == AppView {
                search: keyed(areas.search_bar, key),
                notes: refreshed(post, stored),
                ..pre
            } && typed(pre.search, key, post.search)
        } else {
            unchanged(pre, stored, post, stored_post, saved)
        },
    }
}

/// A key while a title is typed: Control + j goes on to `target` once the
/// first line holds text; editing keys edit the title.
pub open spec fn title_mode_post(
    pre: AppView,
    areas: TextAreas,
    key: KeyInput,
    target: Mode,
    stored: Seq<Note>,
    post: AppView,
    stored_post: Seq<Note>,
    saved: bool,
) -> bool {
    if is_submit(key) {
        if pre.title.lines[0].len() >= 1 {
            change_mode_post(pre, target, stored, post, stored_post, saved)
        } else {
            unchanged(pre, stored, post, stored_post, saved)
        }
    } else if is_edit(key) {
        stored_post == stored && !saved && post == AppView { title: keyed(areas.note_title, key), ..pre }
            && typed(
            pre.title,
            key,
            post.title,
        )
    } else {
        unchanged(pre, stored, post, stored_post, saved)
    }
}

/// A key while a body is typed: Control + j goes on once some line holds
/// text (to choosing a relevance, with the first one selected, when adding;
/// to writing the note back when modifying); every other key edits the body.
pub open spec fn body_mode_post(
    pre: AppView,
    areas: TextAreas,
    key: KeyInput,
    stored: Seq<Note>,
    post: AppView,
    stored_post: Seq<Note>,
    saved: bool,
) -> bool {
    if is_submit(key) {
        if has_any_text(pre.body.lines) {
            if pre.mode == Mode::AddNoteBody {
                change_mode_post(
                    AppView {
                        selection: ListSelection { selected: Some(0), ..pre.selection },
                        ..pre
                    },
                    Mode::AddNoteRelevance,
                    stored,
                    post,
                    stored_post,
                    saved,
                )
            } else {
                change_mode_post(pre, Mode::Display, stored, post, stored_post, saved)
            }
        } else {
            unchanged(pre, stored, post, stored_post, saved)
        }
    } else {
        stored_post == stored && !saved && post == AppView { body: keyed(areas.note_body, key), ..pre }
            && typed(
            pre.body,
            key,
            post.body,
        )
    }
}

/// A key while a relevance is chosen: arrows move the selection, Enter adds
/// the note.
pub open spec fn relevance_mode_post(
    pre: AppView,
    key: KeyInput,
    stored: Seq<Note>,
    post: AppView,
    stored_post: Seq<Note>,
    saved: bool,
) -> bool {
    match key.kind {
        KeyKind::Down => stored_post == stored && !saved && post == AppView {
            selection: ListSelection {
                selected: Some(next_index(pre.selection.selected)),
                ..pre.selection
            },
            ..pre
        },
        KeyKind::Up => stored_post == stored && !saved && post == AppView {
            selection: ListSelection {
                selected: Some(previous_index(pre.selection.selected)),
                ..pre.selection
            },
            ..pre
        },
        KeyKind::Enter => change_mode_post(pre, Mode::Display, stored, post, stored_post, saved),
        _ => unchanged(pre, stored, post, stored_post, saved),
    }
}

/// A key in the display mode: arrows scroll the note (scrolling down from
/// the largest offset wraps around to the top, as `u16` addition wraps in a
/// release build), editing keys edit the
/// command, Enter runs it.
pub open spec fn display_mode_post(
    pre: AppView,
    areas: TextAreas,
    key: KeyInput,
    stored: Seq<Note>,
    post: AppView,
    stored_post: Seq<Note>,
    saved: bool,
) -> bool {
    match key.kind {
        KeyKind::Down => stored_post == stored && !saved && post == AppView {
            display_offset: if pre.display_offset == u16::MAX {
                0
            } else {
                (pre.display_offset + 1) as u16
            },
            ..pre
        },
        KeyKind::Up => stored_post == stored && !saved && post == AppView {
            display_offset: if pre.display_offset >= 1 {
                (pre.display_offset - 1) as u16
            } else {
                pre.display_offset
            },
            ..pre
        },
        KeyKind::Enter => execute_command_post(pre, stored, post, stored_post, saved),
        _ => if is_edit(key) {
            stored_post == stored && !saved && post == AppView {
                command: keyed(areas.command_prompt, key),
                ..pre
            } && typed(pre.command, key, post.command)
        } else {
            unchanged(pre, stored, post, stored_post, saved)
        },
    }
}

/// What handling a key press does.
pub open spec fn handle_input_post(
    pre: AppView,
    areas: TextAreas,
    key: KeyInput,
    stored: Seq<Note>,
    post: AppView,
    stored_post: Seq<Note>,
    saved: bool,
) -> bool {
    if is_escape(key) {
        stored_post == stored && !saved && post == AppView { exit: true, ..pre }
    } else if is_quit(key) {
        stored_post == stored && !saved && quit_mode_post(pre, stored, post)
    } else {
        match pre.mode {
            Mode::Select => list_mode_post(pre, areas, key, Mode::Display, stored, post, stored_post, saved),
            Mode::Remove => list_mode_post(pre, areas, key, Mode::Display, stored, post, stored_post, saved),
            Mode::ModifyNoteSelect => list_mode_post(
                pre,
                areas,
                key,
                Mode::ModifyNoteTitle,
                stored,
                post,
                stored_post,
                saved,
            ),
            Mode::AddNoteTitle => title_mode_post(
                pre,
                areas,
                key,
                Mode::AddNoteBody,
                stored,
                post,
                stored_post,
                saved,
            ),
            Mode::ModifyNoteTitle => title_mode_post(
                pre,
                areas,
                key,
                Mode::ModifyNoteBody,
                stored,
                post,
                stored_post,
                saved,
            ),
            Mode::AddNoteBody | Mode::ModifyNoteBody => body_mode_post(
                pre,
                areas,
                key,
                stored,
                post,
                stored_post,
                saved,
            ),
            Mode::AddNoteRelevance => relevance_mode_post(pre, key, stored, post, stored_post, saved),
            Mode::Display => display_mode_post(pre, areas, key, stored, post, stored_post, saved),
        }
    }
}

/// Handling the key reads the stored notes: searching, removing, adding or
/// writing back a note.
pub open spec fn touches_store(v: AppView, key: KeyInput) -> bool {
    if is_escape(key) {
        false
    } else if is_quit(key) {
        is_list_mode(v.mode)
    } else {
        match v.mode {
            Mode::Select | Mode::Remove => is_edit(key) || key.kind == KeyKind::Enter,
            Mode::ModifyNoteSelect => is_edit(key),
            Mode::AddNoteRelevance => key.kind == KeyKind::Enter && v.selection.selected is Some,
            Mode::ModifyNoteBody => is_submit(key) && has_any_text(v.body.lines),
            _ => false,
        }
    }
}

/// Handling the key cannot fail: any mode that the key leaves can be left
/// (`can_leave`).
pub open spec fn input_safe(v: AppView, key: KeyInput, stored: Seq<Note>) -> bool {
    !is_escape(key) && !is_quit(key) ==> match v.mode {
        Mode::ModifyNoteSelect | Mode::AddNoteRelevance => key.kind == KeyKind::Enter ==> can_leave(
            v,
            stored,
        ),
        Mode::ModifyNoteBody => is_submit(key) && has_any_text(v.body.lines) ==> can_leave(v, stored),
        _ => true,
    }
}

/// Whether some line of the text area holds text.
fn area_has_text(area: &crate::textarea::TextBox) -> (b: bool)
    ensures
        b == has_any_text(text_lines(*area)),
{
    let lines = area_lines(area);
    let text = has_text(&lines);
    assert(has_any_text(text_lines(*area)) == text) by {
        if text {
            let i = choose|i: int| 0 <= i < lines@.len() && lines@[i]@.len() > 0;
            assert(text_lines(*area)[i] == lines@[i]@);
        }
        if has_any_text(text_lines(*area)) {
            let i = choose|i: int| 0 <= i < text_lines(*area).len() && text_lines(*area)[i].len() > 0;
            assert(text_lines(*area)[i] == lines@[i]@);
        }
    }
    text
}

/// A key in a mode that lists notes.
fn list_mode_input(app: &mut AppState, key: KeyInput, target: Mode, stored: &mut Vec<Note>) -> (saved: bool)
    requires
        is_list_mode(old(app)@.mode),
        key.kind == KeyKind::Enter ==> can_leave(old(app)@, old(stored)@),
    ensures
        list_mode_post(old(app)@, old(app).text_areas, key, target, old(stored)@, final(app)@, final(stored)@, saved),
{
    match key.kind {
        KeyKind::Down => {
            app.selected_item.select_next();
            false
        },
        KeyKind::Up => {
            app.selected_item.select_previous();
            false
        },
        KeyKind::Char(_) | KeyKind::Backspace | KeyKind::Left | KeyKind::Right => {
            input_key(&mut app.text_areas.search_bar, &key);
            refresh_notes(app, stored);
            false
        },
        KeyKind::Enter => change_mode(app, target, stored),
        _ => false,
    }
}

/// A key while a title is typed.
fn title_mode_input(app: &mut AppState, key: KeyInput, target: Mode, stored: &mut Vec<Note>) -> (saved: bool)
    requires
        old(app)@.mode == Mode::AddNoteTitle || old(app)@.mode == Mode::ModifyNoteTitle,
    ensures
        title_mode_post(old(app)@, old(app).text_areas, key, target, old(stored)@, final(app)@, final(stored)@, saved),
{
    if key.kind == KeyKind::Char('j') && key.ctrl {
        let lines = area_lines(&app.text_areas.note_title);
        assert(lines@[0]@ == texts(lines@)[0]);
        if !lines[0].as_str().is_empty() {
            change_mode(app, target, stored)
        } else {
            false
        }
    } else {
        match key.kind {
            KeyKind::Char(_) | KeyKind::Backspace | KeyKind::Left | KeyKind::Right => {
                input_key(&mut app.text_areas.note_title, &key);
            },
            _ => {},
        }
        false
    }
}

/// A key while a body is typed.
fn body_mode_input(app: &mut AppState, key: KeyInput, stored: &mut Vec<Note>) -> (saved: bool)
    requires
        old(app)@.mode == Mode::AddNoteBody || old(app)@.mode == Mode::ModifyNoteBody,
        old(app)@.mode == Mode::ModifyNoteBody && is_submit(key) && has_any_text(old(app)@.body.lines)
            ==> can_leave(old(app)@, old(stored)@),
    ensures
        body_mode_post(old(app)@, old(app).text_areas, key, old(stored)@, final(app)@, final(stored)@, saved),
{
    if key.kind == KeyKind::Char('j') && key.ctrl {
        let text = area_has_text(&app.text_areas.note_body);
        if text {
            match app.current_mode {
                Mode::AddNoteBody => {
                    app.selected_item.select(Some(0));
                    change_mode(app, Mode::AddNoteRelevance, stored)
                },
                _ => change_mode(app, Mode::Display, stored),
            }
        } else {
            false
        }
    } else {
        input_key(&mut app.text_areas.note_body, &key);
        false
    }
}

/// A key while a relevance is chosen.
fn relevance_mode_input(app: &mut AppState, key: KeyInput, stored: &mut Vec<Note>) -> (saved: bool)
    requires
        old(app)@.mode == Mode::AddNoteRelevance,
        key.kind == KeyKind::Enter ==> can_leave(old(app)@, old(stored)@),
    ensures
        relevance_mode_post(old(app)@, key, old(stored)@, final(app)@, final(stored)@, saved),
{
    match key.kind {
        KeyKind::Down => {
            app.selected_item.select_next();
            false
        },
        KeyKind::Up => {
            app.selected_item.select_previous();
            false
        },
        KeyKind::Enter => change_mode(app, Mode::Display, stored),
        _ => false,
    }
}

/// A key in the display mode.
fn display_mode_input(app: &mut AppState, key: KeyInput, stored: &mut Vec<Note>) -> (saved: bool)
    requires
        old(app)@.mode == Mode::Display,
    ensures
        display_mode_post(old(app)@, old(app).text_areas, key, old(stored)@, final(app)@, final(stored)@, saved),
{
    match key.kind {
        KeyKind::Down => {
            app.display_offset = app.display_offset.wrapping_add(1);
            false
        },
        KeyKind::Up => {
            if app.display_offset >= 1 {
                app.display_offset = app.display_offset - 1;
            }
            false
        },
        KeyKind::Char(_) | KeyKind::Backspace | KeyKind::Left | KeyKind::Right => {
            input_key(&mut app.text_areas.command_prompt, &key);
            false
        },
        KeyKind::Enter => execute_command(app, stored),
        _ => false,
    }
}

/// Handles a key press: Escape ends the program, Control + c leaves the
/// current mode, and every other key is handled by the current mode.
/// Returns whether the stored notes changed and must be written back.
pub fn handle_input(app: &mut AppState, key: KeyInput, stored: &mut Vec<Note>) -> (saved: bool)
    requires
        input_safe(old(app)@, key, old(stored)@),
    ensures
        handle_input_post(old(app)@, old(app).text_areas, key, old(stored)@, final(app)@, final(stored)@, saved),
        wf(old(app)@) ==> wf(final(app)@),
        !touches_store(old(app)@, key) ==> final(stored)@ == old(stored)@ && !saved,
{
    if key.kind == KeyKind::Esc {
        app.exit = true;
        return false;
    }
    if key.kind == KeyKind::Char('c') && key.ctrl {
        quit_mode(app, stored);
        return false;
    }
    match app.current_mode {
        Mode::Select | Mode::Remove => list_mode_input(app, key, Mode::Display, stored),
        Mode::ModifyNoteSelect => list_mode_input(app, key, Mode::ModifyNoteTitle, stored),
        Mode::AddNoteTitle => title_mode_input(app, key, Mode::AddNoteBody, stored),
        Mode::ModifyNoteTitle => title_mode_input(app, key, Mode::ModifyNoteBody, stored),
        Mode::AddNoteBody | Mode::ModifyNoteBody => body_mode_input(app, key, stored),
        Mode::AddNoteRelevance => relevance_mode_input(app, key, stored),
        Mode::Display => display_mode_input(app, key, stored),
    }
}

impl<'a> AppState<'a> {
    /// The state in which the application starts: the display mode, empty
    /// text areas, every stored note listed newest first and the newest one
    /// shown.
    pub fn new(stored: &Vec<Note>) -> (app: Self)
        ensures
            wf(app@),
            !app@.exit,
            app@.mode == Mode::Display,
            app@.selection == no_selection(),
            app@.display_offset == 0,
            app@.command == empty_area(),
            app@.search == empty_area(),
            app@.title == empty_area(),
            app@.body == empty_area(),
            app@.notes == all_newest_first(stored@),
            app@.current_note == (if stored@.len() >= 1 {
                Some(stored@.last())
            } else {
                None
            }),
    {
        let mut app = AppState {
            exit: false,
            current_mode: Mode::Display,
            selected_item: ListSelection::new(),
            current_note: None,
            display_offset: 0,
            notes: None,
            text_areas: TextAreas::new(),
        };
        app.notes = get_notes(&app, stored);
        if let Some(notes) = &app.notes {
            assert(notes@[0] == stored@.last());
            app.current_note = Some(notes[0].clone());
        }
        app
    }

    /// Whether handling the key reads the stored notes (`touches_store`);
    /// when it does not, the store handed to `handle_input` is left as it is.
    pub fn needs_store(&self, key: &KeyInput) -> (b: bool)
        ensures
            b == touches_store(self@, *key),
    {
        if key.kind == KeyKind::Esc {
            return false;
        }
        let edit = match key.kind {
            KeyKind::Char(_) | KeyKind::Backspace | KeyKind::Left | KeyKind::Right => true,
            _ => false,
        };
        let enter = match key.kind {
            KeyKind::Enter => true,
            _ => false,
        };
        if key.kind == KeyKind::Char('c') && key.ctrl {
            return match self.current_mode {
                Mode::Select | Mode::Remove | Mode::ModifyNoteSelect => true,
                _ => false,
            };
        }
        match self.current_mode {
            Mode::Select | Mode::Remove => edit || enter,
            Mode::ModifyNoteSelect => edit,
            Mode::AddNoteRelevance => enter && self.selected_item.selected.is_some(),
            Mode::ModifyNoteBody => {
                if key.kind == KeyKind::Char('j') && key.ctrl {
                    let text = area_has_text(&self.text_areas.note_body);
                    text
                } else {
                    false
                }
            },
            _ => false,
        }
    }

    /// Whether handling the key cannot fail (`input_safe`), given the stored
    /// notes that handling it would use. Where it can fail, the key would
    /// end the program.
    pub fn input_is_safe(&self, key: &KeyInput, stored: &Vec<Note>) -> (b: bool)
        ensures
            b == input_safe(self@, *key, stored@),
    {
        if key.kind == KeyKind::Esc || (key.kind == KeyKind::Char('c') && key.ctrl) {
            return true;
        }
        let enter = match key.kind {
            KeyKind::Enter => true,
            _ => false,
        };
        match self.current_mode {
            Mode::AddNoteRelevance => {
                if !enter {
                    return true;
                }
                match self.selected_item.selected {
                    Some(i) => i < 4 && (self.current_note.is_some() || finds_written(
                        self,
                        stored,
                    )),
                    None => true,
                }
            },
            Mode::ModifyNoteSelect => {
                if !enter {
                    return true;
                }
                match self.selected_item.selected {
                    Some(i) => {
                        let picked = match &self.notes {
                            Some(notes) => i < notes.len(),
                            None => false,
                        };
                        picked || self.current_note.is_some()
                    },
                    None => true,
                }
            },
            Mode::ModifyNoteBody => {
                if !(key.kind == KeyKind::Char('j') && key.ctrl) {
                    return true;
                }
                let text = area_has_text(&self.text_areas.note_body);
                if !text {
                    return true;
                }
                match &self.current_note {
                    Some(current) => {
                        let mut others = copy_notes(stored);
                        remove_note(&mut others, current.id);
                        finds_written(self, &others)
                    },
                    None => false,
                }
            },
            _ => true,
        }
    }
}

/// A copy of the notes.
fn copy_notes(notes: &Vec<Note>) -> (copy: Vec<Note>)
    ensures
        copy@ == notes@,
{
    let mut copy: Vec<Note> = Vec::new();
    let mut i: usize = 0;
    while i < notes.len()
        invariant
            i <= notes@.len(),
            copy@ == notes@.take(i as int),
        decreases notes@.len() - i,
    {
        copy.push(notes[i].clone());
        assert(notes@.take(i + 1) =~= notes@.take(i as int).push(notes@[i as int]));
        i = i + 1;
    }
    assert(notes@.take(notes@.len() as int) =~= notes@);
    copy
}

/// Whether a note written from the text areas and added to `others` would
/// be found by the search bar's query (`search_finds_written`).
fn finds_written(app: &AppState, others: &Vec<Note>) -> (b: bool)
    ensures
        b == search_finds_written(app@, others@),
{
    let search = area_lines(&app.text_areas.search_bar);
    assert(search@[0]@ == texts(search@)[0]);
    if search[0].as_str().is_empty() {
        return true;
    }
    let lower_query = to_lowercase(search[0].as_str());
    let title_lines = area_lines(&app.text_areas.note_title);
    let title = join_lines(&title_lines);
    let lower_title = to_lowercase(title.as_str());
    if starts_with(lower_title.as_str(), lower_query.as_str()) {
        return true;
    }
    filter_notes(others, search[0].as_str()).is_some()
}

/// In every state that the application reaches, with an empty search
/// query, handling a key can only fail by choosing a relevance past the
/// offered ones, or by choosing a note to modify when none is listed at the
/// selection and none is shown.
pub proof fn lemma_reachable_input_safe(v: AppView, key: KeyInput, stored: Seq<Note>)
    requires
        wf(v),
        search_query(v).len() == 0,
        v.mode == Mode::AddNoteRelevance && key.kind == KeyKind::Enter ==> v.selection.selected->0
            < 4,
        v.mode == Mode::ModifyNoteSelect && key.kind == KeyKind::Enter && v.selection.selected is Some
            ==> (picked_note(v) is Some || v.current_note is Some),
    ensures
        input_safe(v, key, stored),
{
}

/// Choosing a note to modify loads its text into the editor: joining the
/// editor's lines gives back the note's title and body (for text without
/// carriage returns, which the editor drops before a newline).
pub proof fn lemma_modify_loads_note(
    pre: AppView,
    stored: Seq<Note>,
    post: AppView,
    stored_post: Seq<Note>,
    saved: bool,
)
    requires
        pre.mode == Mode::ModifyNoteSelect,
        pre.selection.selected is Some,
        pre.title.lines == empty_lines(),
        pre.body.lines == empty_lines(),
        change_mode_post(pre, Mode::ModifyNoteTitle, stored, post, stored_post, saved),
        no_carriage_return(post.current_note->0.title@),
        no_carriage_return(post.current_note->0.body@),
    ensures
        post.mode == Mode::ModifyNoteTitle,
        joined(post.title.lines) == post.current_note->0.title@,
        joined(post.body.lines) == post.current_note->0.body@,
        stored_post == stored,
        !saved,
{
    lemma_join_split_lines(post.current_note->0.title@);
    lemma_join_split_lines(post.current_note->0.body@);
}

/// Writing back a note whose loaded text was not edited keeps its title,
/// body and relevance, and, when its id is stored, the number of notes.
pub proof fn lemma_unedited_modify_keeps_note(
    pre: AppView,
    stored: Seq<Note>,
    post: AppView,
    stored_post: Seq<Note>,
    saved: bool,
)
    requires
        pre.mode == Mode::ModifyNoteBody,
        pre.current_note is Some,
        pre.title.lines == split_lines(pre.current_note->0.title@),
        pre.body.lines == split_lines(pre.current_note->0.body@),
        no_carriage_return(pre.current_note->0.title@),
        no_carriage_return(pre.current_note->0.body@),
        change_mode_post(pre, Mode::Display, stored, post, stored_post, saved),
    ensures
        stored_post.last().title@ == pre.current_note->0.title@,
        stored_post.last().body@ == pre.current_note->0.body@,
        stored_post.last().relevance == pre.current_note->0.relevance,
        has_id(stored, pre.current_note->0.id) ==> stored_post.len() == stored.len(),
        saved,
        post.mode == Mode::Display,
{
    lemma_join_split_lines(pre.current_note->0.title@);
    lemma_join_split_lines(pre.current_note->0.body@);
    if has_id(stored, pre.current_note->0.id) {
        lemma_remove_present_id(stored, pre.current_note->0.id);
    }
}

/// Writing back a modified note with an empty search query shows it: it is
/// the last stored note, and the first one listed.
pub proof fn lemma_modified_note_shown(
    pre: AppView,
    stored: Seq<Note>,
    post: AppView,
    stored_post: Seq<Note>,
    saved: bool,
)
    requires
        wf(pre),
        search_query(pre).len() == 0,
        pre.mode == Mode::ModifyNoteBody,
        change_mode_post(pre, Mode::Display, stored, post, stored_post, saved),
    ensures
        post.current_note == Some(stored_post.last()),
        post.notes == Some(stored_post.reverse()),
        written_from(stored_post.last(), pre, pre.current_note->0.relevance),
        post.mode == Mode::Display,
        saved,
{
}

/// Adding a note with an empty search query lists every note with the new one
/// first, and grows the store by that one note.
pub proof fn lemma_added_note_listed_first(
    pre: AppView,
    stored: Seq<Note>,
    post: AppView,
    stored_post: Seq<Note>,
    saved: bool,
)
    requires
        wf(pre),
        search_query(pre).len() == 0,
        pre.mode == Mode::AddNoteRelevance,
        change_mode_post(pre, Mode::Display, stored, post, stored_post, saved),
    ensures
        stored_post.len() == stored.len() + 1,
        stored_post.drop_last() == stored,
        post.notes == Some(stored_post.reverse()),
        post.notes->0[0] == stored_post.last(),
        written_from(stored_post.last(), pre, relevance_at(pre.selection.selected->0 as int)),
        saved,
{
}

/// Removing the selected note, when its id is stored, removes exactly one
/// note with that id; the others keep their order.
pub proof fn lemma_remove_selected_note(
    pre: AppView,
    stored: Seq<Note>,
    post: AppView,
    stored_post: Seq<Note>,
    saved: bool,
)
    requires
        pre.mode == Mode::Remove,
        picked_note(pre) is Some,
        has_id(stored, picked_note(pre)->0.id),
        change_mode_post(pre, Mode::Display, stored, post, stored_post, saved),
    ensures
        saved,
        stored_post.len() == stored.len() - 1,
        exists|i: int|
            0 <= i < stored.len() && stored[i].id == picked_note(pre)->0.id && stored_post
                == stored.remove(i),
        pre.search.selection_start is None ==> post.notes == all_newest_first(stored_post),
{
    lemma_remove_present_id(stored, picked_note(pre)->0.id);
}

/// Control + c always ends in the display mode.
pub proof fn lemma_quit_returns_to_display(pre: AppView, stored: Seq<Note>, post: AppView)
    requires
        quit_mode_post(pre, stored, post),
    ensures
        post.mode == Mode::Display,
{
}

/// A key press that does not need the stored notes has the same effect
/// whatever notes are handed in, and leaves them as they are.
pub proof fn lemma_store_not_needed(
    pre: AppView,
    areas: TextAreas,
    key: KeyInput,
    stored: Seq<Note>,
    other: Seq<Note>,
    post: AppView,
    stored_post: Seq<Note>,
    saved: bool,
)
    requires
        !touches_store(pre, key),
        handle_input_post(pre, areas, key, stored, post, stored_post, saved),
    ensures
        stored_post == stored,
        !saved,
        handle_input_post(pre, areas, key, other, post, other, false),
{
}

/// The steps between modes that a key press can take.
pub open spec fn allowed_step(from: Mode, to: Mode) -> bool {
    from == to || match from {
        Mode::Display => to == Mode::Select || to == Mode::AddNoteTitle || to == Mode::Remove || to
            == Mode::ModifyNoteSelect,
        Mode::Select | Mode::Remove | Mode::AddNoteRelevance | Mode::ModifyNoteBody => to
            == Mode::Display,
        Mode::AddNoteTitle => to == Mode::AddNoteBody || to == Mode::Display,
        Mode::AddNoteBody => to == Mode::AddNoteRelevance || to == Mode::Display,
        Mode::ModifyNoteSelect => to == Mode::ModifyNoteTitle || to == Mode::Display,
        Mode::ModifyNoteTitle => to == Mode::ModifyNoteBody || to == Mode::Display,
    }
}

/// A key press moves between modes only along the allowed steps.
pub proof fn lemma_mode_steps(
    pre: AppView,
    areas: TextAreas,
    key: KeyInput,
    stored: Seq<Note>,
    post: AppView,
    stored_post: Seq<Note>,
    saved: bool,
)
    requires
        handle_input_post(pre, areas, key, stored, post, stored_post, saved),
    ensures
        allowed_step(pre.mode, post.mode),
{
}

/// Only three key presses change the stored notes (or ask for them to be
/// written): Enter while choosing a relevance or a note to remove, and
/// Control + j while the body of a modified note is typed.
pub proof fn lemma_store_changes_only_on_submit(
    pre: AppView,
    areas: TextAreas,
    key: KeyInput,
    stored: Seq<Note>,
    post: AppView,
    stored_post: Seq<Note>,
    saved: bool,
)
    requires
        handle_input_post(pre, areas, key, stored, post, stored_post, saved),
        stored_post != stored || saved,
    ensures
        ((pre.mode == Mode::AddNoteRelevance || pre.mode == Mode::Remove) && key.kind
            == KeyKind::Enter) || (pre.mode == Mode::ModifyNoteBody && is_submit(key)),
{
}

/// The search bar holds text only in the modes that list notes, and the
/// command prompt only in the display mode.
pub open spec fn prompts_empty(v: AppView) -> bool {
    &&& !is_list_mode(v.mode) ==> v.search == empty_area()
    &&& v.mode != Mode::Display ==> v.command == empty_area()
}

/// A key press keeps the search bar and the command prompt empty outside
/// their modes, as long as no selection is under way in them (clearing
/// during a selection keeps the text after the selection's start).
pub proof fn lemma_prompts_stay_empty(
    pre: AppView,
    areas: TextAreas,
    key: KeyInput,
    stored: Seq<Note>,
    post: AppView,
    stored_post: Seq<Note>,
    saved: bool,
)
    requires
        prompts_empty(pre),
        pre.search.selection_start is None,
        pre.command.selection_start is None,
        handle_input_post(pre, areas, key, stored, post, stored_post, saved),
    ensures
        prompts_empty(post),
{
}

/// Up and Down move the selection of a list, or of the relevance levels, by
/// exactly one item: Up from item `i` selects item `i - 1` (the first item
/// stays selected), Down selects item `i + 1`; with nothing selected Down
/// selects the first item. Nothing else changes.
pub proof fn lemma_arrows_move_selection_by_one(
    pre: AppView,
    areas: TextAreas,
    key: KeyInput,
    stored: Seq<Note>,
    post: AppView,
    stored_post: Seq<Note>,
    saved: bool,
)
    requires
        is_list_mode(pre.mode) || pre.mode == Mode::AddNoteRelevance,
        key.kind == KeyKind::Up || key.kind == KeyKind::Down,
        handle_input_post(pre, areas, key, stored, post, stored_post, saved),
    ensures
        key.kind == KeyKind::Up && pre.selection.selected is Some && pre.selection.selected->0 >= 1
            ==> post.selection.selected == Some((pre.selection.selected->0 - 1) as usize),
        key.kind == KeyKind::Up && pre.selection.selected == Some(0usize) ==> post.selection.selected
            == Some(0usize),
        key.kind == KeyKind::Down && pre.selection.selected is Some && pre.selection.selected->0
            < usize::MAX ==> post.selection.selected == Some((pre.selection.selected->0 + 1) as usize),
        key.kind == KeyKind::Down && pre.selection.selected is None ==> post.selection.selected
            == Some(0usize),
        post.mode == pre.mode,
        post.notes == pre.notes,
        post.current_note == pre.current_note,
        post.search == pre.search,
        stored_post == stored,
        !saved,
{
}

/// Control + c in a mode that lists notes goes back to the display mode and
/// lists again what the cleared search bar finds in the store, not what the
/// typed search found: with no selection under way in the search bar the
/// bar is left empty and every stored note is listed, newest first.
pub proof fn lemma_quit_lists_every_note(
    pre: AppView,
    areas: TextAreas,
    key: KeyInput,
    stored: Seq<Note>,
    post: AppView,
    stored_post: Seq<Note>,
    saved: bool,
)
    requires
        is_list_mode(pre.mode),
        is_quit(key),
        handle_input_post(pre, areas, key, stored, post, stored_post, saved),
    ensures
        post.mode == Mode::Display,
        post.notes == search_result(stored, post.search.lines[0]),
        pre.search.selection_start is None ==> post.search.lines == seq![Seq::<char>::empty()],
        pre.search.selection_start is None && stored.len() >= 1 ==> post.notes is Some
            && post.notes->0.len() == stored.len() && forall|k: int|
            0 <= k < stored.len() ==> #[trigger] post.notes->0[k] == stored[stored.len() - 1 - k],
        pre.search.selection_start is None && stored.len() == 0 ==> post.notes is None,
        stored_post == stored,
        !saved,
{
}

/// Enter in the remove mode on a listed note removes it from the store, and
/// the shown note is dropped exactly when it has the removed note's id; any
/// other shown note stays shown, and a note of the removed id is never
/// shown afterwards.
pub proof fn lemma_removed_note_not_shown(
    pre: AppView,
    areas: TextAreas,
    key: KeyInput,
    stored: Seq<Note>,
    post: AppView,
    stored_post: Seq<Note>,
    saved: bool,
)
    requires
        pre.mode == Mode::Remove,
        key.kind == KeyKind::Enter,
        pre.selection.selected is Some,
        pre.notes is Some,
        pre.selection.selected->0 < pre.notes->0.len(),
        handle_input_post(pre, areas, key, stored, post, stored_post, saved),
    ensures
        ({
            let removed = pre.notes->0[pre.selection.selected->0 as int];
            &&& post.current_note is Some ==> post.current_note->0.id != removed.id
            &&& pre.current_note is Some && pre.current_note->0.id != removed.id ==> post.current_note
                == pre.current_note
            &&& pre.current_note is Some && pre.current_note->0.id == removed.id ==> post.current_note is None
            &&& pre.current_note is None ==> post.current_note is None
        }),
        post.mode == Mode::Display,
{
}

/// Adding a note with an empty search lists the new note first (it is the
/// last stored note, and the store grew by that one note, whatever it held
/// before); when no note was shown, the new note is shown, and otherwise
/// the shown note stays.
pub proof fn lemma_added_note_shown_when_none_was(
    pre: AppView,
    areas: TextAreas,
    key: KeyInput,
    stored: Seq<Note>,
    post: AppView,
    stored_post: Seq<Note>,
    saved: bool,
)
    requires
        pre.mode == Mode::AddNoteRelevance,
        key.kind == KeyKind::Enter,
        pre.selection.selected is Some,
        pre.search.lines[0].len() == 0,
        handle_input_post(pre, areas, key, stored, post, stored_post, saved),
    ensures
        stored_post.len() == stored.len() + 1,
        forall|k: int| 0 <= k < stored.len() ==> #[trigger] stored_post[k] == stored[k],
        pre.current_note is None ==> post.current_note == Some(stored_post[stored.len() as int]),
        pre.current_note is Some ==> post.current_note == pre.current_note,
        post.notes is Some,
        post.notes->0[0] == stored_post[stored.len() as int],
        post.mode == Mode::Display,
        saved,
{
    assert(stored_post.drop_last() == stored);
    assert forall|k: int| 0 <= k < stored.len() implies #[trigger] stored_post[k] == stored[k] by {
        assert(stored_post.drop_last()[k] == stored_post[k]);
    }
}

/// Control + j while a body is typed goes on exactly when some line of the
/// body, whichever it is, holds a character: a modified note is then
/// written back (and the display mode shown), an added note goes on to
/// choosing its relevance. When every line is empty nothing changes.
pub proof fn lemma_body_submit_needs_some_text(
    pre: AppView,
    areas: TextAreas,
    key: KeyInput,
    stored: Seq<Note>,
    post: AppView,
    stored_post: Seq<Note>,
    saved: bool,
)
    requires
        pre.mode == Mode::AddNoteBody || pre.mode == Mode::ModifyNoteBody,
        is_submit(key),
        handle_input_post(pre, areas, key, stored, post, stored_post, saved),
    ensures
        (exists|r: int| 0 <= r < pre.body.lines.len() && #[trigger] pre.body.lines[r].len() >= 1)
            ==> (if pre.mode == Mode::ModifyNoteBody {
            post.mode == Mode::Display && saved
        } else {
            post.mode == Mode::AddNoteRelevance && !saved
        }),
        (forall|r: int| 0 <= r < pre.body.lines.len() ==> #[trigger] pre.body.lines[r].len() == 0)
            ==> post == pre && stored_post == stored && !saved,
{
    if exists|r: int| 0 <= r < pre.body.lines.len() && #[trigger] pre.body.lines[r].len() >= 1 {
        let r = choose|r: int| 0 <= r < pre.body.lines.len() && #[trigger] pre.body.lines[r].len() >= 1;
        assert(has_any_text(pre.body.lines));
    }
}

} // verus!
