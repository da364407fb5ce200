//! The one-word commands that clients send.
use vstd::prelude::*;

use crate::dispatcher::Event;

verus! {

/// The bytes of `toggle`.
pub open spec fn toggle_word() -> Seq<u8> {
    seq![116u8, 111u8, 103u8, 103u8, 108u8, 101u8]
}

/// The bytes of `reset`.
pub open spec fn reset_word() -> Seq<u8> {
    seq![114u8, 101u8, 115u8, 101u8, 116u8]
}

/// The bytes of `status`.
pub open spec fn status_word() -> Seq<u8> {
    seq![115u8, 116u8, 97u8, 116u8, 117u8, 115u8]
}

/// The event a token stands for: the two exact words, and a status query
/// for anything else.
pub open spec fn event_of(token: Seq<u8>) -> Event {
    if token == toggle_word() {
        Event::Toggle
    } else if token == reset_word() {
        Event::Reset
    } else {
        Event::Status
    }
}

fn same_bytes(a: &[u8], b: &[u8]) -> (r: bool)
    ensures
        r == (a@ == b@),
{
    if a.len() != b.len() {
        return false;
    }
    let mut i: usize = 0;
    while i < a.len()
        invariant
            a@.len() == b@.len(),
            i <= a@.len(),
            forall|j: int| 0 <= j < i ==> a@[j] == b@[j],
        decreases a@.len() - i,
    {
        if a[i] != b[i] {
            return false;
        }
        i = i + 1;
    }
    assert(a@ =~= b@);
    true
}

/// Reads a command token. Malformed or unknown text is never refused: it
/// asks for the status.
pub fn parse_command(token: &[u8]) -> (r: Event)
    ensures
        r == event_of(token@),
{
    let toggle: [u8; 6] = [116u8, 111u8, 103u8, 103u8, 108u8, 101u8];
    let reset: [u8; 5] = [114u8, 101u8, 115u8, 101u8, 116u8];
    assert(toggle@ =~= toggle_word());
    assert(reset@ =~= reset_word());
    if same_bytes(token, toggle.as_slice()) {
        Event::Toggle
    } else if same_bytes(token, reset.as_slice()) {
        Event::Reset
    } else {
        Event::Status
    }
}

} // verus!
