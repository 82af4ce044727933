//! The three event alphabets: raw input, flag changes and key output.
use vstd::prelude::*;

use crate::flags::StateFlags;

verus! {

/// Identifier of a physical or logical key.
pub type KeyCode = u8;

/// One debounced physical key transition.
#[derive(Clone, Copy, Debug, PartialEq, Eq, Structural)]
pub enum InputEvent {
    Press(KeyCode),
    Depress(KeyCode),
}

/// A logical key event for the host, in the order it must be reported.
#[derive(Clone, Copy, Debug, PartialEq, Eq, Structural)]
pub enum KeyEvent {
    Press(KeyCode),
    Depress(KeyCode),
    PressCurrent,
    DepressCurrent,
}

/// A change to the sticky flags, made when a transition commits.
#[derive(Clone, Copy, Debug, PartialEq, Eq, Structural)]
pub enum InternalEvent {
    SetFlags(StateFlags),
    UnsetFlags(StateFlags),
}

impl InternalEvent {
    /// The flags that result from applying this event to `flags`.
    pub open spec fn apply_spec(self, flags: StateFlags) -> StateFlags {
        match self {
            InternalEvent::SetFlags(mask) => flags.union_spec(mask),
            InternalEvent::UnsetFlags(mask) => flags.difference_spec(mask),
        }
    }

    /// Applies this event to `flags`: a set inserts its bits, an unset clears them.
    pub fn apply(&self, flags: &mut StateFlags)
        ensures
            *final(flags) == self.apply_spec(*old(flags)),
    {
        match self {
            InternalEvent::SetFlags(mask) => flags.insert(*mask),
            InternalEvent::UnsetFlags(mask) => flags.remove(*mask),
        }
    }
}

/// Setting the same flags twice leaves the same flags as setting them once,
/// whether by two events or by two lists of one event each (as two
/// transitions apply them), and clearing flags that are all clear changes
/// nothing.
pub proof fn lemma_flag_idempotence(flags: StateFlags, mask: StateFlags)
    ensures
        InternalEvent::SetFlags(mask).apply_spec(InternalEvent::SetFlags(mask).apply_spec(flags))
            == InternalEvent::SetFlags(mask).apply_spec(flags),
        flags.bits & mask.bits == 0 ==> InternalEvent::UnsetFlags(mask).apply_spec(flags) == flags,
        apply_all(flags, seq![InternalEvent::SetFlags(mask), InternalEvent::SetFlags(mask)])
            == apply_all(flags, seq![InternalEvent::SetFlags(mask)]),
        apply_all(
            apply_all(flags, seq![InternalEvent::SetFlags(mask)]),
            seq![InternalEvent::SetFlags(mask)],
        ) == apply_all(flags, seq![InternalEvent::SetFlags(mask)]),
{
    let (f, m) = (flags.bits, mask.bits);
    assert((f | m) | m == f | m) by (bit_vector);
    assert(f & m == 0 ==> f & !m == f) by (bit_vector);
    let one = seq![InternalEvent::SetFlags(mask)];
    let two = seq![InternalEvent::SetFlags(mask), InternalEvent::SetFlags(mask)];
    assert(one.drop_last() =~= Seq::<InternalEvent>::empty());
    assert(two.drop_last() =~= one);
    assert(one.last() == InternalEvent::SetFlags(mask));
    assert(two.last() == InternalEvent::SetFlags(mask));
    assert(apply_all(flags, one.drop_last()) == flags);
    assert(apply_all(apply_all(flags, one), one.drop_last()) == apply_all(flags, one));
}

/// The flags that result from applying `events` to `flags`, first to last.
pub open spec fn apply_all(flags: StateFlags, events: Seq<InternalEvent>) -> StateFlags
    decreases events.len(),
{
    if events.len() == 0 {
        flags
    } else {
        events.last().apply_spec(apply_all(flags, events.drop_last()))
    }
}

/// Applies `events` to `flags` in the order listed.
pub fn apply_internal_events(flags: &mut StateFlags, events: &Vec<InternalEvent>)
    ensures
        *final(flags) == apply_all(*old(flags), events@),
{
    let mut i: usize = 0;
    while i < events.len()
        invariant
            i <= events@.len(),
            *flags == apply_all(*old(flags), events@.take(i as int)),
        decreases events@.len() - i,
    {
        events[i].apply(flags);
        assert(events@.take(i as int + 1).drop_last() == events@.take(i as int));
        i = i + 1;
    }
    assert(events@.take(i as int) == events@);
}

} // verus!
