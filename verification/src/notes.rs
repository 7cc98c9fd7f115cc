//! The stored notes: searching them, adding one, removing one.

use crate::note::Note;
use crate::text::{
    decimal, is_prefix, lemma_decimal_digits, lowercase_of, starts_with,
    to_lowercase, u32_to_string,
};
use vstd::prelude::*;

verus! {

/// A note matches a search query when, compared without case, its title or
/// its decimal id starts with the query.
pub open spec fn note_matches(note: Note, query: Seq<char>) -> bool {
    is_prefix(lowercase_of(query), lowercase_of(note.title@)) || is_prefix(
        lowercase_of(query),
        decimal(note.id as nat),
    )
}

/// The notes that match the query, the most recently stored first.
pub open spec fn matching_newest_first(notes: Seq<Note>, query: Seq<char>) -> Seq<Note>
    decreases notes.len(),
{
    if notes.len() == 0 {
        Seq::empty()
    } else {
        let rest = matching_newest_first(notes.drop_first(), query);
        if note_matches(notes[0], query) {
            rest.push(notes[0])
        } else {
            rest
        }
    }
}

/// The result of a search: the matching notes, newest first, or nothing
/// when no note matches.
pub open spec fn search_result(notes: Seq<Note>, query: Seq<char>) -> Option<Seq<Note>> {
    let found = matching_newest_first(notes, query);
    if found.len() >= 1 {
        Some(found)
    } else {
        None
    }
}

/// Every note, newest first, or nothing when there is no note.
pub open spec fn all_newest_first(notes: Seq<Note>) -> Option<Seq<Note>> {
    if notes.len() >= 1 {
        Some(notes.reverse())
    } else {
        None
    }
}

/// The notes of a result, as a sequence.
pub open spec fn notes_view(notes: Option<Vec<Note>>) -> Option<Seq<Note>> {
    match notes {
        Some(v) => Some(v@),
        None => None,
    }
}

/// When every note matches, the matching notes are all of them, newest
/// first.
proof fn lemma_all_match(notes: Seq<Note>, query: Seq<char>)
    requires
        forall|i: int| 0 <= i < notes.len() ==> note_matches(#[trigger] notes[i], query),
    ensures
        matching_newest_first(notes, query) == notes.reverse(),
    decreases notes.len(),
{
    if notes.len() > 0 {
        let rest = notes.drop_first();
        assert forall|i: int| 0 <= i < rest.len() implies note_matches(#[trigger] rest[i], query) by {
            assert(rest[i] == notes[i + 1]);
        }
        lemma_all_match(rest, query);
        assert(note_matches(notes[0], query));
        assert(rest.reverse().push(notes[0]) =~= notes.reverse());
    }
}

/// Searches the notes: the notes whose title or id starts with the query,
/// compared without case, the most recently stored first; `None` when no
/// note matches. The empty query matches every note.
pub fn filter_notes(notes: &Vec<Note>, query: &str) -> (found: Option<Vec<Note>>)
    ensures
        notes_view(found) == search_result(notes@, query@),
        query@.len() == 0 ==> notes_view(found) == all_newest_first(notes@),
{
    let lower_query = to_lowercase(query);
    let n = notes.len();
    let mut found: Vec<Note> = Vec::new();
    let mut i: usize = n;
    while i > 0
        invariant
            n == notes@.len(),
            i <= n,
            lower_query@ == lowercase_of(query@),
            found@ == matching_newest_first(notes@.subrange(i as int, n as int), query@),
        decreases i,
    {
        i = i - 1;
        let note = &notes[i];
        let title = to_lowercase(note.title.as_str());
        let id_text = u32_to_string(note.id);
        let id = to_lowercase(id_text.as_str());
        proof {
            lemma_decimal_digits(note.id as nat);
            assert(id@ =~= decimal(note.id as nat));
        }
        let ghost tail = notes@.subrange(i as int, n as int);
        assert(tail.drop_first() =~= notes@.subrange(i + 1, n as int));
        assert(tail[0] == notes@[i as int]);
        if starts_with(title.as_str(), lower_query.as_str()) || starts_with(
            id.as_str(),
            lower_query.as_str(),
        ) {
            found.push(note.clone());
        }
    }
    assert(notes@.subrange(0, n as int) =~= notes@);
    proof {
        if query@.len() == 0 {
            assert forall|k: int| 0 <= k < notes@.len() implies note_matches(
                #[trigger] notes@[k],
                query@,
            ) by {
                assert(lowercase_of(query@) =~= Seq::<char>::empty());
                assert(lowercase_of(notes@[k].title@).subrange(0, 0) =~= Seq::<char>::empty());
            }
            lemma_all_match(notes@, query@);
        }
    }
    if found.len() >= 1 {
        Some(found)
    } else {
        None
    }
}

/// A search finds exactly the stored notes that match the query.
pub proof fn lemma_search_finds_matching(notes: Seq<Note>, query: Seq<char>, note: Note)
    ensures
        matching_newest_first(notes, query).contains(note) == (notes.contains(note) && note_matches(
            note,
            query,
        )),
    decreases notes.len(),
{
    if notes.len() > 0 {
        let rest = notes.drop_first();
        lemma_search_finds_matching(rest, query, note);
        assert(notes =~= seq![notes[0]] + rest);
        if notes.contains(note) && note != notes[0] {
            let i = choose|i: int| 0 <= i < notes.len() && notes[i] == note;
            assert(rest[i - 1] == note);
        }
        if rest.contains(note) {
            let i = choose|i: int| 0 <= i < rest.len() && rest[i] == note;
            assert(notes[i + 1] == note);
        }
        let found = matching_newest_first(rest, query);
        if note_matches(notes[0], query) {
            assert(found.push(notes[0])[found.len() as int] == notes[0]);
            if found.push(notes[0]).contains(note) && note != notes[0] {
                let i = choose|i: int| 0 <= i < found.len() + 1 && found.push(notes[0])[i] == note;
                assert(found[i] == note);
            }
            if found.contains(note) {
                let i = choose|i: int| 0 <= i < found.len() && found[i] == note;
                assert(found.push(notes[0])[i] == note);
            }
        }
    }
}

/// A note that matches a query matches every query whose lowercase form is
/// a prefix of that query's lowercase form.
proof fn lemma_match_shorter_query(note: Note, q1: Seq<char>, q2: Seq<char>)
    requires
        is_prefix(lowercase_of(q1), lowercase_of(q2)),
        note_matches(note, q2),
    ensures
        note_matches(note, q1),
{
    let l1 = lowercase_of(q1);
    let l2 = lowercase_of(q2);
    let title = lowercase_of(note.title@);
    let id = decimal(note.id as nat);
    if is_prefix(l2, title) {
        assert(title.subrange(0, l1.len() as int) =~= l2.subrange(0, l1.len() as int));
    } else {
        assert(id.subrange(0, l1.len() as int) =~= l2.subrange(0, l1.len() as int));
    }
}

/// Typing more of a query never brings a note back: the notes found for a
/// query whose lowercase form extends another's are exactly those found for
/// the shorter one that also match the longer one, in the same order; when
/// the shorter query finds nothing, the longer one finds nothing.
pub proof fn lemma_longer_query_narrows(notes: Seq<Note>, q1: Seq<char>, q2: Seq<char>)
    requires
        is_prefix(lowercase_of(q1), lowercase_of(q2)),
    ensures
        matching_newest_first(notes, q2) == matching_newest_first(notes, q1).filter(
            |n: Note| note_matches(n, q2),
        ),
        search_result(notes, q1) is None ==> search_result(notes, q2) is None,
    decreases notes.len(),
{
    reveal(Seq::filter);
    let p2 = |n: Note| note_matches(n, q2);
    if notes.len() > 0 {
        let rest = notes.drop_first();
        lemma_longer_query_narrows(rest, q1, q2);
        let m1 = matching_newest_first(rest, q1);
        if note_matches(notes[0], q1) {
            assert(m1.push(notes[0]).drop_last() =~= m1);
        } else if note_matches(notes[0], q2) {
            lemma_match_shorter_query(notes[0], q1, q2);
        }
    }
    matching_newest_first(notes, q1).lemma_filter_len(p2);
}

/// Some note has the id.
pub open spec fn has_id(notes: Seq<Note>, id: u32) -> bool {
    exists|i: int| 0 <= i < notes.len() && notes[i].id == id
}

/// The notes without the first one that has the id; all of them when none
/// has it.
pub open spec fn without_first_with_id(notes: Seq<Note>, id: u32) -> Seq<Note>
    decreases notes.len(),
{
    if notes.len() == 0 {
        notes
    } else if notes[0].id == id {
        notes.drop_first()
    } else {
        seq![notes[0]] + without_first_with_id(notes.drop_first(), id)
    }
}

/// Removing the first note with an id is removing the note at its index.
proof fn lemma_without_first_at(notes: Seq<Note>, id: u32, i: int)
    requires
        0 <= i < notes.len(),
        notes[i].id == id,
        forall|j: int| 0 <= j < i ==> notes[j].id != id,
    ensures
        without_first_with_id(notes, id) == notes.remove(i),
    decreases i,
{
    if i > 0 {
        let rest = notes.drop_first();
        assert forall|j: int| 0 <= j < i - 1 implies rest[j].id != id by {
            assert(rest[j] == notes[j + 1]);
        }
        lemma_without_first_at(rest, id, i - 1);
        assert(notes[0].id != id);
        assert(seq![notes[0]] + rest.remove(i - 1) =~= notes.remove(i));
    } else {
        assert(notes.drop_first() =~= notes.remove(0));
    }
}

/// Without a note of the id, removing it changes nothing.
pub proof fn lemma_remove_absent_id(notes: Seq<Note>, id: u32)
    requires
        !has_id(notes, id),
    ensures
        without_first_with_id(notes, id) == notes,
    decreases notes.len(),
{
    if notes.len() > 0 {
        let rest = notes.drop_first();
        assert(notes[0].id != id);
        assert forall|j: int| 0 <= j < rest.len() implies rest[j].id != id by {
            assert(rest[j] == notes[j + 1]);
        }
        lemma_remove_absent_id(rest, id);
        assert(seq![notes[0]] + rest =~= notes);
    }
}

/// Adds a note after all stored ones.
pub fn add_note(notes: &mut Vec<Note>, note: Note)
    ensures
        final(notes)@ == old(notes)@.push(note),
{
    notes.push(note);
}

/// Removes the first stored note with the id, if there is one; says whether
/// a note was removed.
pub fn remove_note(notes: &mut Vec<Note>, id: u32) -> (removed: bool)
    ensures
        removed == has_id(old(notes)@, id),
        final(notes)@ == without_first_with_id(old(notes)@, id),
{
    let n = notes.len();
    let mut i: usize = 0;
    while i < n
        invariant
            n == notes@.len(),
            notes@ == old(notes)@,
            i <= n,
            forall|j: int| 0 <= j < i ==> notes@[j].id != id,
        decreases n - i,
    {
        if notes[i].id == id {
            proof {
                lemma_without_first_at(notes@, id, i as int);
            }
            notes.remove(i);
            return true;
        }
        i = i + 1;
    }
    proof {
        lemma_remove_absent_id(notes@, id);
    }
    false
}

/// Removing the id of a note that was just added, when no other note had
/// that id, gives back the notes as they were before.
pub proof fn lemma_remove_undoes_add(notes: Seq<Note>, note: Note)
    requires
        !has_id(notes, note.id),
    ensures
        without_first_with_id(notes.push(note), note.id) == notes,
    decreases notes.len(),
{
    if notes.len() == 0 {
        assert(notes.push(note).drop_first() =~= notes);
    } else {
        let rest = notes.drop_first();
        assert(notes[0].id != note.id);
        assert forall|j: int| 0 <= j < rest.len() implies rest[j].id != note.id by {
            assert(rest[j] == notes[j + 1]);
        }
        lemma_remove_undoes_add(rest, note);
        assert(notes.push(note).drop_first() =~= rest.push(note));
        assert(seq![notes[0]] + rest =~= notes);
    }
}

/// Removing a note of an id that is stored removes exactly one note; the
/// others keep their order.
pub proof fn lemma_remove_present_id(notes: Seq<Note>, id: u32)
    requires
        has_id(notes, id),
    ensures
        without_first_with_id(notes, id).len() == notes.len() - 1,
        exists|i: int|
            0 <= i < notes.len() && notes[i].id == id && without_first_with_id(notes, id)
                == notes.remove(i),
    decreases notes.len(),
{
    if notes[0].id == id {
        lemma_without_first_at(notes, id, 0);
    } else {
        let rest = notes.drop_first();
        let k = choose|k: int| 0 <= k < notes.len() && notes[k].id == id;
        assert(rest[k - 1] == notes[k]);
        lemma_remove_present_id(rest, id);
        let i = choose|i: int|
            0 <= i < rest.len() && rest[i].id == id && without_first_with_id(rest, id)
                == rest.remove(i);
        assert(seq![notes[0]] + rest.remove(i) =~= notes.remove(i + 1));
    }
}

} // verus!
