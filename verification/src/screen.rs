//! What the screen says about the current mode: the header's label and the
//! hint on the keys that the mode takes.

use crate::mode::Mode;
use vstd::prelude::*;

verus! {

/// The label of the header for a mode.
pub open spec fn header_label_of(mode: Mode) -> Seq<char> {
    match mode {
        Mode::Select => "Select."@,
        Mode::AddNoteTitle | Mode::AddNoteBody | Mode::AddNoteRelevance => "Add."@,
        Mode::Remove => "Remove."@,
        Mode::ModifyNoteSelect | Mode::ModifyNoteTitle | Mode::ModifyNoteBody => "Modify."@,
        Mode::Display => "Display."@,
    }
}

/// The hint on the keys that a mode takes: moving through a list, typing
/// text, or the commands of the display mode.
pub open spec fn key_hint_of(mode: Mode) -> Seq<char> {
    match mode {
        Mode::Select | Mode::Remove | Mode::ModifyNoteSelect | Mode::AddNoteRelevance =>
            "up & down arrows: move, Ctrl + c: quit mode"@,
        Mode::AddNoteTitle | Mode::AddNoteBody | Mode::ModifyNoteTitle | Mode::ModifyNoteBody =>
            "Ctrl + j: submit, Ctrl + c: quit mode"@,
        Mode::Display => "commands: select, add, remove, modify, display, exit"@,
    }
}

/// The label of the header for a mode.
pub fn header_label(mode: Mode) -> (label: String)
    ensures
        label@ == header_label_of(mode),
{
    match mode {
        Mode::Select => String::from_str("Select."),
        Mode::AddNoteTitle | Mode::AddNoteBody | Mode::AddNoteRelevance => String::from_str("Add."),
        Mode::Remove => String::from_str("Remove."),
        Mode::ModifyNoteSelect | Mode::ModifyNoteTitle | Mode::ModifyNoteBody => String::from_str(
            "Modify.",
        ),
        Mode::Display => String::from_str("Display."),
    }
}

/// The hint on the keys that a mode takes.
pub fn key_hint(mode: Mode) -> (hint: String)
    ensures
        hint@ == key_hint_of(mode),
{
    match mode {
        Mode::Select | Mode::Remove | Mode::ModifyNoteSelect | Mode::AddNoteRelevance =>
            String::from_str("up & down arrows: move, Ctrl + c: quit mode"),
        Mode::AddNoteTitle | Mode::AddNoteBody | Mode::ModifyNoteTitle | Mode::ModifyNoteBody =>
            String::from_str("Ctrl + j: submit, Ctrl + c: quit mode"),
        Mode::Display => String::from_str("commands: select, add, remove, modify, display, exit"),
    }
}

} // verus!
