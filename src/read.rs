//! The decisions behind reading keys: which key events count, and how a
//! line is built from keys.
use vstd::prelude::*;

verus! {

/// What a key event reports: a press, a repeat while held, or a release.
#[derive(Clone, Copy, Debug, PartialEq, Eq, Structural)]
pub enum KeyKind {
    Press,
    Repeat,
    Release,
}

/// The keys that line reading tells apart.
#[derive(Clone, Copy, Debug, PartialEq, Eq, Structural)]
pub enum Key {
    Enter,
    Char(char),
    Other,
}

/// Whether a key event of this kind is handed to the caller: presses and
/// repeats, or with `once` presses only. Releases never are.
pub fn accepts(kind: KeyKind, once: bool) -> (r: bool)
    ensures
        r == (kind == KeyKind::Press || (!once && kind == KeyKind::Repeat)),
{
    match kind {
        KeyKind::Press => true,
        KeyKind::Repeat => !once,
        KeyKind::Release => false,
    }
}

/// Takes one key into the line being read, and says whether the line is
/// done: a character is appended, Enter ends the line, any other key is
/// ignored.
pub fn feed(line: &mut Vec<char>, key: Key) -> (done: bool)
    ensures
        done == (key == Key::Enter),
        key is Char ==> final(line)@ == old(line)@.push(key->Char_0),
        !(key is Char) ==> final(line)@ == old(line)@,
{
    match key {
        Key::Enter => true,
        Key::Char(c) => {
            line.push(c);
            false
        },
        Key::Other => false,
    }
}

} // verus!
