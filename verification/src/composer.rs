//! The text model of the composer buffer: insertion and deletion at a
//! codepoint offset. The offset never exceeds the buffer's length in
//! characters, so every edit keeps the buffer a valid text string.

use vstd::prelude::*;

verus! {

/// `s` with `c` inserted before position `i` (characters, not bytes).
pub open spec fn insert_char_at(s: Seq<char>, i: int, c: char) -> Seq<char> {
    s.subrange(0, i) + seq![c] + s.subrange(i, s.len() as int)
}

/// `s` with the character immediately before position `i` removed.
pub open spec fn delete_char_before(s: Seq<char>, i: int) -> Seq<char> {
    s.subrange(0, i - 1) + s.subrange(i, s.len() as int)
}

/// Law: inserting a character and deleting at the same offset is the
/// identity: the buffer comes back unchanged (the cursor bookkeeping is
/// handled by the state operations, which move it forward and back by one).
pub proof fn lemma_insert_then_delete(s: Seq<char>, i: int, c: char)
    requires
        0 <= i <= s.len(),
    ensures
        delete_char_before(insert_char_at(s, i, c), i + 1) == s,
{
    let t = insert_char_at(s, i, c);
    assert(t.len() == s.len() + 1);
    assert(t.subrange(0, i) =~= s.subrange(0, i));
    assert(t.subrange(i + 1, t.len() as int) =~= s.subrange(i, s.len() as int));
    assert(delete_char_before(t, i + 1) =~= s);
}

/// Relies on std's `String::push`: appends the given character to the end of
/// the string.
#[verifier::external_body]
pub(crate) fn push_char(s: &mut String, c: char)
    ensures
        final(s)@ == old(s)@.push(c),
{
    s.push(c);
}

} // verus!
