//! Command rewriting for privilege elevation.
//!
//! A command that mentions the elevation marker, the text `sudo`, anywhere has
//! every occurrence of the marker removed and is then run under `sudo -S`,
//! with the elevation password echoed into it.
//!
//! The match is on raw text, not on words: the marker is also found inside a
//! longer word such as `visudo`, and the password is inserted as it is, with
//! no escaping for the shell.

use vstd::prelude::*;
use vstd::string::*;

verus! {

/// Number of characters in the elevation marker.
pub const MARKER_LEN: usize = 4;

/// The elevation marker occurs in `s` at position `i`.
pub open spec fn marker_at(s: Seq<char>, i: int) -> bool {
    &&& 0 <= i
    &&& i + 4 <= s.len()
    &&& s[i] == 's'
    &&& s[i + 1] == 'u'
    &&& s[i + 2] == 'd'
    &&& s[i + 3] == 'o'
}

/// The elevation marker occurs somewhere in `s`.
pub open spec fn contains_marker(s: Seq<char>) -> bool {
    exists|i: int| marker_at(s, i)
}

/// `s` with every occurrence of the marker removed, scanning from the left;
/// text that only becomes a marker once another one has been removed stays.
pub open spec fn strip_marker(s: Seq<char>) -> Seq<char>
    decreases s.len(),
{
    if s.len() == 0 {
        s
    } else if marker_at(s, 0) {
        strip_marker(s.skip(4))
    } else {
        seq![s[0]] + strip_marker(s.skip(1))
    }
}

/// The text that is executed for a requested command: the command itself
/// when it does not mention the marker; otherwise `echo`, the password, a
/// pipe into `sudo -S`, and the command without its markers.
pub open spec fn rewritten(command: Seq<char>, password: Seq<char>) -> Seq<char> {
    if contains_marker(command) {
        "echo "@ + password + " | sudo -S "@ + strip_marker(command)
    } else {
        command
    }
}

/// Tells whether the marker occurs at character position `i` of `s`.
fn has_marker_at(s: &str, len: usize, i: usize) -> (found: bool)
    requires
        len == s@.len(),
    ensures
        found == marker_at(s@, i as int),
{
    if len < MARKER_LEN || i > len - MARKER_LEN {
        return false;
    }
    s.get_char(i) == 's' && s.get_char(i + 1) == 'u' && s.get_char(i + 2) == 'd'
        && s.get_char(i + 3) == 'o'
}

/// Tells whether a command needs elevation.
pub fn needs_elevation(command: &str) -> (found: bool)
    ensures
        found == contains_marker(command@),
{
    let len: usize = command.unicode_len();
    let mut i: usize = 0;
    while i < len
        invariant
            len == command@.len(),
            i <= len,
            forall|j: int| 0 <= j < i ==> !marker_at(command@, j),
        decreases len - i,
    {
        if has_marker_at(command, len, i) {
            return true;
        }
        i += 1;
    }
    false
}

/// Removes every occurrence of the marker from a command.
pub fn remove_marker(command: &str) -> (stripped: String)
    ensures
        stripped@ == strip_marker(command@),
{
    let len: usize = command.unicode_len();
    let mut stripped = String::new();
    let mut i: usize = 0;
    assert(command@.skip(0) =~= command@);
    assert(stripped@ + strip_marker(command@) =~= strip_marker(command@));
    while i < len
        invariant
            len == command@.len(),
            i <= len,
            strip_marker(command@) == stripped@ + strip_marker(command@.skip(i as int)),
        decreases len - i,
    {
        let ghost rest = command@.skip(i as int);
        if has_marker_at(command, len, i) {
            assert(marker_at(rest, 0));
            assert(rest.skip(4) =~= command@.skip(i + 4));
            i += MARKER_LEN;
        } else {
            assert(!marker_at(rest, 0));
            assert(rest.skip(1) =~= command@.skip(i + 1));
            let ghost before = stripped@;
            stripped.append(command.substring_char(i, i + 1));
            assert(stripped@ =~= before + seq![rest[0]]);
            assert(before + (seq![rest[0]] + strip_marker(rest.skip(1))) =~= stripped@
                + strip_marker(rest.skip(1)));
            i += 1;
        }
    }
    assert(command@.skip(len as int) =~= Seq::<char>::empty());
    assert(strip_marker(Seq::<char>::empty()) =~= Seq::<char>::empty());
    assert(stripped@ + Seq::<char>::empty() =~= stripped@);
    stripped
}

/// Rewrites a requested command into the text to execute: unchanged when it
/// does not mention the marker, otherwise stripped of the marker and fed the
/// password on standard input.
pub fn rewrite(command: &str, password: &str) -> (literal: String)
    ensures
        literal@ == rewritten(command@, password@),
{
    if needs_elevation(command) {
        let stripped = remove_marker(command);
        let mut literal = String::from_str("echo ");
        literal.append(password);
        literal.append(" | sudo -S ");
        literal.append(stripped.as_str());
        literal
    } else {
        String::from_str(command)
    }
}

/// Removing the marker never lengthens a command, and leaves a command that
/// does not mention it as it is.
pub proof fn lemma_strip_marker_bounds(s: Seq<char>)
    ensures
        strip_marker(s).len() <= s.len(),
        !contains_marker(s) ==> strip_marker(s) == s,
    decreases s.len(),
{
    if s.len() == 0 {
    } else if marker_at(s, 0) {
        lemma_strip_marker_bounds(s.skip(4));
    } else {
        lemma_strip_marker_bounds(s.skip(1));
        if !contains_marker(s) {
            assert forall|j: int| !marker_at(s.skip(1), j) by {
                if marker_at(s.skip(1), j) {
                    assert(marker_at(s, j + 1));
                }
            }
            assert(seq![s[0]] + s.skip(1) =~= s);
        }
    }
}

} // verus!
