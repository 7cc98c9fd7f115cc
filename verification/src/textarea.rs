//! The text areas of the application, from `ratatui-textarea`, seen through
//! their lines of text.

use crate::key::{KeyInput, KeyKind};
use crate::text::{split_lines, texts};
use ratatui_textarea::{Input, Key, TextArea};
use vstd::prelude::*;

verus! {

/// A multi-line text editor widget of `ratatui-textarea`. The widget is
/// held in a field hidden from the verifier. The field is public because
/// the terminal front end styles and draws the widget itself, and the
/// widget's type cannot stand in a verified signature; the contracts here
/// assume that the front end changes nothing through it but its style.
#[verifier::external_body]
pub struct TextBox<'a> {
    pub area: TextArea<'a>,
}

/// The lines of text that a text area holds.
pub uninterp spec fn text_lines(area: TextBox) -> Seq<Seq<char>>;

/// Where a selection of text under way in the text area started (for
/// instance, where the cursor was when it first moved with Shift held), as
/// a row and a column counted in characters; `None` when no selection is
/// under way. Every edit in the crate's source ends the selection before it
/// changes the text, so the start always lies in the text.
pub uninterp spec fn text_selection_start(area: TextBox) -> Option<(int, int)>;

/// The cursor of a text area: its row, and its column counted in
/// characters.
pub uninterp spec fn text_cursor(area: TextBox) -> (int, int);

/// A text area as plain values: its lines, where a selection under way
/// started, and the cursor.
pub struct AreaView {
    pub lines: Seq<Seq<char>>,
    pub selection_start: Option<(int, int)>,
    pub cursor: (int, int),
}

/// The plain view of a text area.
pub open spec fn area_view(area: TextBox) -> AreaView {
    AreaView {
        lines: text_lines(area),
        selection_start: text_selection_start(area),
        cursor: text_cursor(area),
    }
}

/// The cursor lies on a line of the text area, at most just after its last
/// character.
pub open spec fn cursor_valid(v: AreaView) -> bool {
    &&& 0 <= v.cursor.0 < v.lines.len()
    &&& 0 <= v.cursor.1 <= v.lines[v.cursor.0].len()
}

/// A character typed at the cursor: it is inserted there and the cursor
/// moves past it.
pub open spec fn typed_char(v: AreaView, c: char) -> AreaView {
    let row = v.cursor.0;
    let col = v.cursor.1;
    let line = v.lines[row];
    AreaView {
        lines: v.lines.update(row, line.take(col).push(c) + line.skip(col)),
        selection_start: None,
        cursor: (row, col + 1),
    }
}

/// The line broken at the cursor, which moves to the start of the new
/// line.
pub open spec fn broken_line(v: AreaView) -> AreaView {
    let row = v.cursor.0;
    let col = v.cursor.1;
    let line = v.lines[row];
    AreaView {
        lines: v.lines.take(row) + seq![line.take(col), line.skip(col)] + v.lines.skip(row + 1),
        selection_start: None,
        cursor: (row + 1, 0),
    }
}

/// Backspace: the character before the cursor is deleted; at the start of
/// a line, the line is joined to the one before it; at the start of the
/// text, nothing changes.
pub open spec fn deleted_back(v: AreaView) -> AreaView {
    let row = v.cursor.0;
    let col = v.cursor.1;
    let line = v.lines[row];
    if col > 0 {
        AreaView {
            lines: v.lines.update(row, line.take(col - 1) + line.skip(col)),
            selection_start: None,
            cursor: (row, col - 1),
        }
    } else if row > 0 {
        let previous = v.lines[row - 1];
        AreaView {
            lines: v.lines.take(row - 1).push(previous + line) + v.lines.skip(row + 1),
            selection_start: None,
            cursor: (row - 1, previous.len() as int),
        }
    } else {
        AreaView { selection_start: None, ..v }
    }
}

/// What a key does to a text area when no selection is under way: a
/// character (other than a newline or carriage return) is typed at the
/// cursor, Backspace deletes before it, Enter (or a newline or carriage
/// return character) breaks the line, and Left and Right move the cursor
/// without changing the text (starting a selection only with Shift held).
/// Keys with Control or Alt held, other keys, and keys during a selection
/// are described only by what `input_view` names.
pub open spec fn typed(before: AreaView, key: KeyInput, after: AreaView) -> bool {
    before.selection_start is None && !key.ctrl && !key.alt ==> match key.kind {
        KeyKind::Char(c) => if c == '\n' || c == '\r' {
            after == broken_line(before)
        } else {
            after == typed_char(before, c)
        },
        KeyKind::Backspace => after == deleted_back(before),
        KeyKind::Enter => after == broken_line(before),
        KeyKind::Left | KeyKind::Right => after.lines == before.lines && (!key.shift
            ==> after.selection_start is None),
        _ => true,
    }
}

/// The lines of an empty text area: one empty line.
pub open spec fn empty_lines() -> Seq<Seq<char>> {
    seq![Seq::<char>::empty()]
}

/// An empty text area with no selection under way and the cursor at the
/// start.
pub open spec fn empty_area() -> AreaView {
    AreaView { lines: empty_lines(), selection_start: None, cursor: (0, 0) }
}

/// An empty text area after a text was inserted: the text's lines, no
/// selection, and the cursor after the last character.
pub open spec fn loaded_area(text: Seq<char>) -> AreaView {
    AreaView {
        lines: split_lines(text),
        selection_start: None,
        cursor: (split_lines(text).len() - 1, split_lines(text).last().len() as int),
    }
}

/// What clearing a text area leaves. With no selection under way: nothing,
/// the cursor at the start. With a selection under way the cursor moves to
/// the start of the text and only the text between there and the
/// selection's start is deleted, so the text from the selection's start on
/// stays (all of it, where the selection started at the start of the
/// text); an empty text area is left as it is.
pub open spec fn cleared(before: AreaView) -> AreaView {
    match before.selection_start {
        None => empty_area(),
        Some(start) => if before.lines == empty_lines() {
            before
        } else if start == (0int, 0int) {
            empty_area()
        } else {
            AreaView {
                lines: seq![before.lines[start.0].skip(start.1)] + before.lines.skip(start.0 + 1),
                selection_start: None,
                cursor: (0, 0),
            }
        },
    }
}

/// The text area `after` is what clearing `before` leaves.
pub open spec fn cleared_from(before: AreaView, after: AreaView) -> bool {
    after == cleared(before)
}

/// `TextArea::default()`: a text area that holds one empty line, as the
/// crate's documentation shows.
#[verifier::external_body]
fn empty_text_area<'a>() -> (area: TextBox<'a>)
    ensures
        text_lines(area) == empty_lines(),
        text_selection_start(area) is None,
        text_cursor(area) == (0int, 0int),
{
    TextBox { area: TextArea::default() }
}

/// `TextArea::lines`, copied out: the lines that the text area holds. A
/// text area always holds at least one line (an empty one when it has no
/// text), as its constructor and every edit in the crate's source keep.
#[verifier::external_body]
pub(crate) fn area_lines(area: &TextBox) -> (lines: Vec<String>)
    ensures
        texts(lines@) == text_lines(*area),
        lines@.len() >= 1,
{
    area.area.lines().to_vec()
}

/// `TextArea::clear`. An empty text area (one empty line, where the cursor
/// can only be at the start) is left as it is. Otherwise the cursor jumps
/// to the start of the text; with no selection under way every character
/// is then deleted, leaving one empty line. With a selection under way the
/// jump keeps the selection, and the deletion removes only the selected
/// range, from the start of the text to the selection's start, and ends the
/// selection (a selection that started at the start of the text covers
/// nothing, and every character is deleted). This is `cleared`.
#[verifier::external_body]
pub(crate) fn clear_area(area: &mut TextBox)
    ensures
        area_view(*final(area)) == cleared(area_view(*old(area))),
        cursor_valid(area_view(*final(area))),
{
    area.area.clear();
}

/// Lines inserted at the cursor: the first goes on the cursor's line
/// before the cursor, the last goes before the rest of that line, those
/// between become lines of their own; the cursor ends after the last one.
pub open spec fn inserted(before: AreaView, pieces: Seq<Seq<char>>) -> AreaView {
    let row = before.cursor.0;
    let col = before.cursor.1;
    let line = before.lines[row];
    let last = pieces.len() - 1;
    if last == 0 {
        AreaView {
            lines: before.lines.update(row, line.take(col) + pieces[0] + line.skip(col)),
            selection_start: None,
            cursor: (row, col + pieces[0].len()),
        }
    } else {
        AreaView {
            lines: before.lines.take(row) + seq![line.take(col) + pieces[0]] + pieces.subrange(1, last)
                + seq![pieces[last] + line.skip(col)] + before.lines.skip(row + 1),
            selection_start: None,
            cursor: (row + last, pieces[last].len() as int),
        }
    }
}

/// Position `a` comes before position `b` in the text.
pub open spec fn comes_before(a: (int, int), b: (int, int)) -> bool {
    a.0 < b.0 || (a.0 == b.0 && a.1 < b.1)
}

/// The text from position `from` up to position `to` deleted, with the
/// cursor at `from` and no selection.
pub open spec fn deleted_range(v: AreaView, from: (int, int), to: (int, int)) -> AreaView {
    AreaView {
        lines: v.lines.take(from.0) + seq![v.lines[from.0].take(from.1) + v.lines[to.0].skip(to.1)]
            + v.lines.skip(to.0 + 1),
        selection_start: None,
        cursor: from,
    }
}

/// A selection under way deleted: the text between its start and the
/// cursor goes, and the selection ends.
pub open spec fn selection_deleted(v: AreaView) -> AreaView {
    match v.selection_start {
        None => v,
        Some(start) => if comes_before(start, v.cursor) {
            deleted_range(v, start, v.cursor)
        } else if comes_before(v.cursor, start) {
            deleted_range(v, v.cursor, start)
        } else {
            AreaView { selection_start: None, ..v }
        },
    }
}

/// `TextArea::insert_str`: a selection under way is deleted
/// (`selection_deleted`), then the text is inserted at the cursor, split
/// into lines at each newline, each piece without one carriage return at
/// its end (`split_lines`), which is `inserted`. Into an empty text area
/// (whose only cursor position is its start, so that a selection covers
/// nothing) this gives exactly those pieces, with the cursor after the last
/// character inserted and no selection.
#[verifier::external_body]
pub(crate) fn insert_text(area: &mut TextBox, text: &str)
    ensures
        text_lines(*old(area)) == empty_lines() ==> area_view(*final(area)) == loaded_area(text@),
        area_view(*final(area)) == inserted(selection_deleted(area_view(*old(area))), split_lines(text@)),
        cursor_valid(area_view(*final(area))),
{
    area.area.insert_str(text);
}

/// What `TextArea::input` leaves in a text area, by its lines, selection
/// and cursor: a function of the text area (its text, cursor, selection,
/// undo history, yanked text, and the viewport that the last drawing
/// recorded, which paging reads) and of the key and its modifiers.
pub uninterp spec fn input_view(area: TextBox, key: KeyKind, ctrl: bool, alt: bool, shift: bool) -> AreaView;

/// What a key press leaves in a text area.
pub open spec fn keyed(area: TextBox, key: KeyInput) -> AreaView {
    input_view(area, key.kind, key.ctrl, key.alt, key.shift)
}

/// `TextArea::input` with the key press, handed over as
/// `ratatui_textarea::Input` with the same key and modifiers. The text area
/// afterwards is what `input_view` names for the text area before and the
/// key. Beyond that name, for a key without Control or Alt and no selection
/// under way, the source's key bindings give the edits that `typed`
/// describes (`insert_char`, `delete_char`, `insert_newline`, and cursor
/// moves that leave the text as it is); the cursor stays on a line, as the
/// method checks after every key.
#[verifier::external_body]
pub(crate) fn input_key(area: &mut TextBox, key: &KeyInput)
    ensures
        area_view(*final(area)) == input_view(*old(area), key.kind, key.ctrl, key.alt, key.shift),
        cursor_valid(area_view(*old(area))),
        cursor_valid(area_view(*final(area))),
        typed(area_view(*old(area)), *key, area_view(*final(area))),
{
    let code = match key.kind {
        KeyKind::Char(c) => Key::Char(c), KeyKind::F(n) => Key::F(n),
        KeyKind::Backspace => Key::Backspace, KeyKind::Enter => Key::Enter,
        KeyKind::Left => Key::Left, KeyKind::Right => Key::Right,
        KeyKind::Up => Key::Up, KeyKind::Down => Key::Down,
        KeyKind::Tab => Key::Tab, KeyKind::Delete => Key::Delete,
        KeyKind::Home => Key::Home, KeyKind::End => Key::End,
        KeyKind::PageUp => Key::PageUp, KeyKind::PageDown => Key::PageDown,
        KeyKind::Esc => Key::Esc, KeyKind::Other => Key::Null,
    };
    area.area.input(Input { key: code, ctrl: key.ctrl, alt: key.alt, shift: key.shift });
}

/// The four text areas of the application.
pub struct TextAreas<'a> {
    pub command_prompt: TextBox<'a>,
    pub search_bar: TextBox<'a>,
    pub note_title: TextBox<'a>,
    pub note_body: TextBox<'a>,
}

impl<'a> TextAreas<'a> {
    /// Four empty text areas.
    pub fn new() -> (areas: Self)
        ensures
            area_view(areas.command_prompt) == empty_area(),
            area_view(areas.search_bar) == empty_area(),
            area_view(areas.note_title) == empty_area(),
            area_view(areas.note_body) == empty_area(),
    {
        TextAreas {
            command_prompt: empty_text_area(),
            search_bar: empty_text_area(),
            note_title: empty_text_area(),
            note_body: empty_text_area(),
        }
    }
}

} // verus!
