//! Operations on the text of notes and text areas: case folding, decimal
//! numbers, prefixes, and the splitting and joining of lines.

use vstd::prelude::*;

verus! {

/// What `str::to_lowercase` returns for a string: every character mapped to
/// its lowercase form by the Unicode rules, as std documents it.
pub uninterp spec fn lowercase_of(s: Seq<char>) -> Seq<char>;

/// A character that is ASCII.
pub open spec fn is_ascii_char(c: char) -> bool {
    (c as u32) < 128
}

/// The ASCII lowercase of a character: `A` to `Z` become `a` to `z`, every
/// other character stays as it is.
pub open spec fn ascii_lowercase(c: char) -> char {
    if 65 <= (c as u32) <= 90 {
        ((c as u32) + 32) as char
    } else {
        c
    }
}

/// `str::to_lowercase`. The contract names the result `lowercase_of` of the
/// characters, and states the facts that std's documentation plainly gives
/// and the library needs: the empty string stays empty, and a string of
/// ASCII characters is lowercased character by character as
/// `char::to_ascii_lowercase` does.
#[verifier::external_body]
pub(crate) fn to_lowercase(s: &str) -> (lower: String)
    ensures
        lower@ == lowercase_of(s@),
        s@.len() == 0 ==> lower@.len() == 0,
        (forall|i: int| 0 <= i < s@.len() ==> is_ascii_char(#[trigger] s@[i])) ==> lower@
            == s@.map_values(|c: char| ascii_lowercase(c)),
{
    s.to_lowercase()
}

/// The character of a decimal digit.
pub open spec fn digit_char(d: nat) -> char {
    (48 + d) as char
}

/// The decimal representation of a number, without sign or leading zeros.
pub open spec fn decimal(n: nat) -> Seq<char>
    decreases n,
{
    if n < 10 {
        seq![digit_char(n)]
    } else {
        decimal(n / 10).push(digit_char(n % 10))
    }
}

/// The characters of a number's decimal representation are the digits `0`
/// to `9`.
pub proof fn lemma_decimal_digits(n: nat)
    ensures
        forall|i: int|
            0 <= i < decimal(n).len() ==> 48 <= (#[trigger] decimal(n)[i] as u32) <= 57,
    decreases n,
{
    if n >= 10 {
        lemma_decimal_digits(n / 10);
        assert(decimal(n) == decimal(n / 10).push(digit_char(n % 10)));
    }
}

/// The one-character text of a decimal digit.
fn digit_text(d: u32) -> (text: &'static str)
    requires
        d < 10,
    ensures
        text@ == seq![digit_char(d as nat)],
{
    proof {
        reveal_strlit("0");
        reveal_strlit("1");
        reveal_strlit("2");
        reveal_strlit("3");
        reveal_strlit("4");
        reveal_strlit("5");
        reveal_strlit("6");
        reveal_strlit("7");
        reveal_strlit("8");
        reveal_strlit("9");
    }
    let text = match d {
        0 => "0",
        1 => "1",
        2 => "2",
        3 => "3",
        4 => "4",
        5 => "5",
        6 => "6",
        7 => "7",
        8 => "8",
        _ => "9",
    };
    assert(text@ =~= seq![digit_char(d as nat)]);
    text
}

/// Appends the decimal digits of the number.
fn append_decimal(n: u32, text: &mut String)
    ensures
        final(text)@ == old(text)@ + decimal(n as nat),
    decreases n,
{
    if n >= 10 {
        append_decimal(n / 10, text);
    }
    text.append(digit_text(n % 10));
    proof {
        if n >= 10 {
            assert(old(text)@ + decimal((n / 10) as nat) + seq![digit_char((n % 10) as nat)] =~= old(
                text,
            )@ + decimal(n as nat));
        } else {
            assert(old(text)@ + seq![digit_char((n % 10) as nat)] =~= old(text)@ + decimal(
                n as nat,
            ));
        }
    }
}

/// The decimal digits of a number, as `u32::to_string` writes them.
pub(crate) fn u32_to_string(n: u32) -> (text: String)
    ensures
        text@ == decimal(n as nat),
{
    let mut text = String::new();
    append_decimal(n, &mut text);
    assert(text@ =~= decimal(n as nat));
    text
}

/// `prefix` is a prefix of `s`.
pub open spec fn is_prefix(prefix: Seq<char>, s: Seq<char>) -> bool {
    prefix.len() <= s.len() && s.subrange(0, prefix.len() as int) == prefix
}

/// Whether `s` starts with `prefix`, character by character.
pub fn starts_with(s: &str, prefix: &str) -> (b: bool)
    ensures
        b == is_prefix(prefix@, s@),
{
    let n = s.unicode_len();
    let m = prefix.unicode_len();
    if m > n {
        return false;
    }
    let mut i: usize = 0;
    while i < m
        invariant
            n == s@.len(),
            m == prefix@.len(),
            m <= n,
            i <= m,
            forall|j: int| 0 <= j < i ==> s@[j] == prefix@[j],
        decreases m - i,
    {
        if s.get_char(i) != prefix.get_char(i) {
            assert(s@.subrange(0, m as int)[i as int] != prefix@[i as int]);
            return false;
        }
        i = i + 1;
    }
    assert(s@.subrange(0, m as int) =~= prefix@);
    true
}

/// Lines joined into one text, with a newline between each two of them.
pub open spec fn joined(lines: Seq<Seq<char>>) -> Seq<char>
    decreases lines.len(),
{
    if lines.len() == 0 {
        Seq::empty()
    } else if lines.len() == 1 {
        lines[0]
    } else {
        joined(lines.drop_last()) + seq!['\n'] + lines.last()
    }
}

/// The characters of each string of a sequence.
pub open spec fn texts(strings: Seq<String>) -> Seq<Seq<char>> {
    strings.map_values(|s: String| s@)
}

/// Joins the lines with newlines between them.
pub fn join_lines(lines: &Vec<String>) -> (text: String)
    ensures
        text@ == joined(texts(lines@)),
{
    let mut text = String::new();
    let mut i: usize = 0;
    while i < lines.len()
        invariant
            i <= lines@.len(),
            text@ == joined(texts(lines@).take(i as int)),
        decreases lines@.len() - i,
    {
        let ghost before = texts(lines@).take(i as int);
        let ghost after = texts(lines@).take(i + 1);
        assert(after.drop_last() =~= before);
        if i > 0 {
            text.append("\n");
            proof {
                reveal_strlit("\n");
                assert("\n"@ =~= seq!['\n']);
            }
        }
        text.append(lines[i].as_str());
        i = i + 1;
    }
    assert(texts(lines@).take(lines@.len() as int) =~= texts(lines@));
    text
}

/// Whether some line holds at least one character.
pub fn has_text(lines: &Vec<String>) -> (b: bool)
    ensures
        b == exists|i: int| 0 <= i < lines@.len() && lines@[i]@.len() > 0,
{
    let mut i: usize = 0;
    while i < lines.len()
        invariant
            i <= lines@.len(),
            forall|j: int| 0 <= j < i ==> lines@[j]@.len() == 0,
        decreases lines@.len() - i,
    {
        if !lines[i].as_str().is_empty() {
            return true;
        }
        i = i + 1;
    }
    false
}

/// The pieces of a text between its newlines; a text with `k` newlines has
/// `k + 1` pieces.
pub open spec fn split_newlines(s: Seq<char>) -> Seq<Seq<char>>
    decreases s.len(),
{
    if s.len() == 0 {
        seq![Seq::empty()]
    } else {
        let pieces = split_newlines(s.drop_last());
        if s.last() == '\n' {
            pieces.push(Seq::empty())
        } else {
            pieces.update(pieces.len() - 1, pieces.last().push(s.last()))
        }
    }
}

/// A piece without the one carriage return that may end it.
pub open spec fn strip_carriage_return(line: Seq<char>) -> Seq<char> {
    if line.len() > 0 && line.last() == '\r' {
        line.drop_last()
    } else {
        line
    }
}

/// The lines of a text as a text area takes them in: the pieces between
/// newlines, each without a carriage return at its end.
pub open spec fn split_lines(s: Seq<char>) -> Seq<Seq<char>> {
    split_newlines(s).map_values(|line: Seq<char>| strip_carriage_return(line))
}

/// A text holds no carriage return.
pub open spec fn no_carriage_return(s: Seq<char>) -> bool {
    forall|i: int| 0 <= i < s.len() ==> s[i] != '\r'
}

proof fn lemma_split_newlines_shape(s: Seq<char>)
    ensures
        split_newlines(s).len() >= 1,
        no_carriage_return(s) ==> forall|k: int|
            0 <= k < split_newlines(s).len() ==> no_carriage_return(#[trigger] split_newlines(s)[k]),
        joined(split_newlines(s)) == s,
    decreases s.len(),
{
    if s.len() > 0 {
        let rest = s.drop_last();
        lemma_split_newlines_shape(rest);
        let pieces = split_newlines(rest);
        assert(no_carriage_return(s) ==> no_carriage_return(rest));
        if s.last() == '\n' {
            let next = pieces.push(Seq::empty());
            assert(next.drop_last() =~= pieces);
            assert(joined(next) =~= s);
        } else {
            let last = pieces.last().push(s.last());
            let next = pieces.update(pieces.len() - 1, last);
            if pieces.len() == 1 {
                assert(joined(pieces) == pieces[0]);
                assert(joined(next) =~= s);
            } else {
                assert(next.drop_last() =~= pieces.drop_last());
                assert(joined(pieces) == joined(pieces.drop_last()) + seq!['\n'] + pieces.last());
                assert(joined(next) == joined(pieces.drop_last()) + seq!['\n'] + last);
                assert(s =~= rest.push(s.last()));
                assert((joined(pieces.drop_last()) + seq!['\n'] + pieces.last()).push(s.last())
                    =~= joined(pieces.drop_last()) + seq!['\n'] + last);
            }
            assert forall|k: int|
                no_carriage_return(s) && 0 <= k < next.len() implies no_carriage_return(
                #[trigger] next[k],
            ) by {
                if k == next.len() - 1 {
                    assert forall|i: int| 0 <= i < last.len() implies last[i] != '\r' by {
                        if i < last.len() - 1 {
                            assert(last[i] == pieces.last()[i]);
                        } else {
                            assert(last[i] == s[s.len() - 1]);
                        }
                    }
                }
            }
        }
    }
}

/// A text without carriage returns, split into the lines a text area takes
/// and joined back with newlines, is the text itself.
pub proof fn lemma_join_split_lines(s: Seq<char>)
    requires
        no_carriage_return(s),
    ensures
        joined(split_lines(s)) == s,
{
    lemma_split_newlines_shape(s);
    let pieces = split_newlines(s);
    assert forall|k: int| 0 <= k < pieces.len() implies strip_carriage_return(#[trigger] pieces[k])
        == pieces[k] by {
        if pieces[k].len() > 0 {
            assert(pieces[k][pieces[k].len() - 1] != '\r');
        }
    }
    assert(split_lines(s) =~= pieces);
}

} // verus!
