//! The modes of the application and the commands that select them.

use vstd::prelude::*;

verus! {

/// The modes the application can be in; each changes what is shown on screen
/// and how key presses are processed.
#[derive(Clone, Copy, Debug, PartialEq, Eq, Structural)]
pub enum Mode {
    Select,
    AddNoteTitle,
    AddNoteBody,
    AddNoteRelevance,
    Remove,
    ModifyNoteSelect,
    ModifyNoteTitle,
    ModifyNoteBody,
    Display,
}

/// The command name of a mode: every step of adding a note is "add", every
/// step of modifying one is "modify".
pub open spec fn mode_name(mode: Mode) -> Seq<char> {
    match mode {
        Mode::Select => "select"@,
        Mode::AddNoteTitle | Mode::AddNoteBody | Mode::AddNoteRelevance => "add"@,
        Mode::Remove => "remove"@,
        Mode::ModifyNoteSelect | Mode::ModifyNoteTitle | Mode::ModifyNoteBody => "modify"@,
        Mode::Display => "display"@,
    }
}

/// The mode that a command enters: the first step of its group.
pub open spec fn command_mode(command: Seq<char>) -> Option<Mode> {
    if command == "select"@ {
        Some(Mode::Select)
    } else if command == "add"@ {
        Some(Mode::AddNoteTitle)
    } else if command == "remove"@ {
        Some(Mode::Remove)
    } else if command == "modify"@ {
        Some(Mode::ModifyNoteSelect)
    } else if command == "display"@ {
        Some(Mode::Display)
    } else {
        None
    }
}

/// The first mode of the group that `mode` belongs to.
pub open spec fn entry_mode(mode: Mode) -> Mode {
    match mode {
        Mode::AddNoteTitle | Mode::AddNoteBody | Mode::AddNoteRelevance => Mode::AddNoteTitle,
        Mode::ModifyNoteSelect | Mode::ModifyNoteTitle | Mode::ModifyNoteBody => Mode::ModifyNoteSelect,
        _ => mode,
    }
}

/// Parses a command name into the mode that it enters.
pub fn to_mode(mode_as_string: String) -> (mode: Option<Mode>)
    ensures
        mode == command_mode(mode_as_string@),
{
    if mode_as_string == String::from_str("select") {
        Some(Mode::Select)
    } else if mode_as_string == String::from_str("add") {
        Some(Mode::AddNoteTitle)
    } else if mode_as_string == String::from_str("remove") {
        Some(Mode::Remove)
    } else if mode_as_string == String::from_str("modify") {
        Some(Mode::ModifyNoteSelect)
    } else if mode_as_string == String::from_str("display") {
        Some(Mode::Display)
    } else {
        None
    }
}

impl Mode {
    /// The command name of this mode.
    pub fn to_string(&self) -> (name: String)
        ensures
            name@ == mode_name(*self),
    {
        match self {
            Mode::Select => String::from_str("select"),
            Mode::AddNoteTitle | Mode::AddNoteBody | Mode::AddNoteRelevance => String::from_str("add"),
            Mode::Remove => String::from_str("remove"),
            Mode::ModifyNoteSelect | Mode::ModifyNoteTitle | Mode::ModifyNoteBody => String::from_str(
                "modify",
            ),
            Mode::Display => String::from_str("display"),
        }
    }
}

/// A command that names a mode enters a mode with that name.
pub proof fn lemma_command_mode_named(command: Seq<char>)
    ensures
        command_mode(command) matches Some(m) ==> mode_name(m) == command,
{
}

/// The name of any mode is a command, and it enters the first mode of that
/// mode's group.
pub proof fn lemma_mode_name_round_trip(mode: Mode)
    ensures
        command_mode(mode_name(mode)) == Some(entry_mode(mode)),
{
    reveal_strlit("select");
    reveal_strlit("add");
    reveal_strlit("remove");
    reveal_strlit("modify");
    reveal_strlit("display");
    assert("add"@[0] != "select"@[0]);
    assert("remove"@[0] != "select"@[0]);
    assert("remove"@.len() != "add"@.len());
    assert("modify"@[0] != "select"@[0]);
    assert("modify"@.len() != "add"@.len());
    assert("modify"@[0] != "remove"@[0]);
    assert("display"@.len() != "select"@.len());
    assert("display"@.len() != "add"@.len());
    assert("display"@.len() != "remove"@.len());
    assert("display"@.len() != "modify"@.len());
}

} // verus!
