//! Events merged into the single consumer stream: a key press or a memory
//! sample. Key presses carry the key code and the modifier flags as plain
//! values; only Esc and the lowercase character 'q' ever quit, whatever the
//! modifiers.

use vstd::prelude::*;

verus! {

/// A key code, reduced to what the quit predicate distinguishes: Escape, a
/// printable character, or anything else.
#[derive(Clone, Copy, Debug, PartialEq, Eq, Structural)]
pub enum KeyCode {
    Esc,
    Char(char),
    Other,
}

/// A key press: its code and its modifier flags packed as a bit set.
#[derive(Clone, Copy, Debug, PartialEq, Eq, Structural)]
pub struct KeyEvent {
    pub code: KeyCode,
    pub modifiers: u8,
}

/// One event drained from the channel: a key press from the input listener or
/// a free-memory sample (in bytes) from the metric sampler.
#[derive(Clone, Copy, Debug, PartialEq, Eq, Structural)]
pub enum Event {
    Input(KeyEvent),
    Memory(u64),
}

/// The quit predicate: Esc with any modifier set quits, so does the lowercase
/// character 'q'; nothing else does.
pub open spec fn quits(key: KeyEvent) -> bool {
    key.code == KeyCode::Esc || key.code == KeyCode::Char('q')
}

/// The quit predicate is decided by the key code alone: Esc quits with any
/// modifier set, so does the lowercase 'q'; the uppercase 'Q' never does.
pub proof fn lemma_quit_predicate()
    ensures
        forall|m: u8| quits((KeyEvent { code: KeyCode::Esc, modifiers: m })),
        forall|m: u8| quits((KeyEvent { code: KeyCode::Char('q'), modifiers: m })),
        forall|m: u8| !quits((KeyEvent { code: KeyCode::Char('Q'), modifiers: m })),
{
}

/// Whether this key press quits the application.
pub fn is_quit_key(key: &KeyEvent) -> (b: bool)
    ensures
        b == quits(*key),
{
    match key.code {
        KeyCode::Esc => true,
        KeyCode::Char(c) => c == 'q',
        KeyCode::Other => false,
    }
}

} // verus!
