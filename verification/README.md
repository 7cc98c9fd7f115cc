# QuickNote

A compact terminal note-taking tool. Notes have a title, a body, a relevance
level, a random numerical id and the time they were written; they are kept in
a JSON file in the user's data directory.

The program works in modes: `display` shows a note and takes commands
(`select`, `add`, `remove`, `modify`, `display`, `exit`); `select`, `remove`
and the first step of `modify` list the notes, newest first, filtered by a
search on the title or the id; `add` and `modify` edit a title and a body.
Escape ends the program, Control + c leaves the current mode, Control + j
submits what was typed.

## Layout

- `src/` is the verified library (Verus):
  - `mode.rs`: the modes and the commands that name them;
  - `note.rs`: notes and relevance levels;
  - `text.rs`: case folding, decimal ids, prefixes, splitting and joining lines;
  - `selection.rs`: the selection state of an on-screen list;
  - `key.rs`: key presses;
  - `textarea.rs`: the text areas, seen through their lines;
  - `notes.rs`: searching, adding and removing stored notes;
  - `app.rs`: the application state and the key-press state machine, with its
    invariant and laws;
  - `screen.rs`: the header texts of each mode.
- `app/` is the terminal front end: the notes file, drawing, and the event
  loop that hands key presses and stored notes to the library.
- `tests/` runs the library on concrete scenarios.
