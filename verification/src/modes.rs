//! The modal input discipline: a closed set of UI modes and the push-down
//! stack that records which mode a cancel or commit returns to.

use vstd::prelude::*;

verus! {

/// The closed set of UI modes that governs how a key press is interpreted.
#[derive(Clone, Copy, Debug, PartialEq, Eq, Structural)]
pub enum Mode {
    /// Browsing; bare keys open the other modes.
    Normal,
    /// Editing the composer buffer.
    TextInput,
    /// Moving the channel selection of the active server.
    ChannelSelect,
    /// Moving the server selection.
    ServerSelect,
    /// A committed line is interpreted as a command rather than a message.
    Command,
    /// Shutdown was requested; the client tears down.
    Exiting,
}

/// The mode a `prev_mode` pop restores: the top of the stack, or Normal when
/// the stack is empty (popping an empty stack is safe, never an error).
pub open spec fn popped_mode(stack: Seq<Mode>) -> Mode {
    if stack.len() == 0 {
        Mode::Normal
    } else {
        stack.last()
    }
}

/// The stack a `prev_mode` pop leaves behind; an empty stack stays empty.
pub open spec fn popped_stack(stack: Seq<Mode>) -> Seq<Mode> {
    if stack.len() == 0 {
        stack
    } else {
        stack.drop_last()
    }
}

/// The mode active after `switch_mode(new_mode)`: entering Command immediately
/// nests into TextInput (a command is typed on the generic text-entry mode);
/// every other mode becomes active as given.
pub open spec fn switched_mode(new_mode: Mode) -> Mode {
    if new_mode == Mode::Command {
        Mode::TextInput
    } else {
        new_mode
    }
}

/// The stack after `switch_mode(new_mode)` from `mode`: the outgoing mode is
/// pushed; entering Command pushes Command on top of it as well, so that the
/// nested TextInput pops back to Command first.
pub open spec fn switched_stack(mode: Mode, stack: Seq<Mode>, new_mode: Mode) -> Seq<Mode> {
    if new_mode == Mode::Command {
        stack.push(mode).push(Mode::Command)
    } else {
        stack.push(mode)
    }
}

/// Law: popping with an empty stack yields Normal and leaves the stack empty,
/// so the stack depth can never go negative and a pop is never a crash.
pub proof fn lemma_pop_on_empty_stack(stack: Seq<Mode>)
    requires
        stack.len() == 0,
    ensures
        popped_mode(stack) == Mode::Normal,
        popped_stack(stack).len() == 0,
{
}

/// Law: every `switch_mode` push is undone by exactly the pops it calls for —
/// one pop for an ordinary mode, two for Command (whose entry nests TextInput
/// and pushes twice) — restoring the mode and the stack that stood before.
pub proof fn lemma_switch_matched_by_pops(mode: Mode, stack: Seq<Mode>, new_mode: Mode)
    ensures
        new_mode != Mode::Command ==> {
            let s1 = switched_stack(mode, stack, new_mode);
            popped_mode(s1) == mode && popped_stack(s1) == stack
        },
        new_mode == Mode::Command ==> {
            let s1 = switched_stack(mode, stack, new_mode);
            popped_mode(s1) == Mode::Command && popped_mode(popped_stack(s1)) == mode
                && popped_stack(popped_stack(s1)) == stack
        },
{
    let s1 = switched_stack(mode, stack, new_mode);
    if new_mode == Mode::Command {
        assert(popped_stack(s1) =~= stack.push(mode));
        assert(popped_stack(popped_stack(s1)) =~= stack);
    } else {
        assert(popped_stack(s1) =~= stack);
    }
}

} // verus!
