//! The sessions of a module and the handles by which the host names them.
//!
//! A handle is given out once, when a bootstrap has completed, and names its
//! session until the session is freed. It is never given out again, so a
//! handle that outlives its session names nothing. Handle 0 is never given
//! out: a host can keep it to mean no session.

use vstd::prelude::*;
use crate::bootstrap::Boot;
use crate::violation::Violation;

verus! {

/// What a handle names.
pub enum Slot<S> {
    /// A live session.
    Ready(S),
    /// Nothing: the session has been freed, or the handle is 0.
    Freed,
}

/// The sessions of a module; handle `h` names slot `h`, and slot 0 is set
/// aside.
pub struct Sessions<S> {
    slots: Vec<Slot<S>>,
}

/// Whether `handle` names a live session among `slots`. Handle 0 names none.
pub open spec fn names_session<S>(slots: Seq<Slot<S>>, handle: usize) -> bool {
    0 < handle < slots.len() && slots[handle as int] is Ready
}

/// The slots with slot 0 set aside, which the first creation does.
pub open spec fn set_aside<S>(slots: Seq<Slot<S>>) -> Seq<Slot<S>> {
    if slots.len() == 0 {
        seq![Slot::Freed]
    } else {
        slots
    }
}

/// One call of the host on the sessions of a module.
pub enum SessionCall<S> {
    /// A completed bootstrap hands over its session.
    Create(S),
    /// The session under `handle` is worked on, and is `left` so.
    Work { handle: usize, left: S },
    /// The session under `handle` is freed.
    Free(usize),
}

/// The slots after one call: a created session takes the next handle, which
/// is not 0; work and freeing change the slot of a live handle, and nothing
/// under any other.
pub open spec fn after_session_call<S>(slots: Seq<Slot<S>>, call: SessionCall<S>) -> Seq<Slot<S>> {
    match call {
        SessionCall::Create(session) => set_aside(slots).push(Slot::Ready(session)),
        SessionCall::Work { handle, left } => if names_session(slots, handle) {
            slots.update(handle as int, Slot::Ready(left))
        } else {
            slots
        },
        SessionCall::Free(handle) => if names_session(slots, handle) {
            slots.update(handle as int, Slot::Freed)
        } else {
            slots
        },
    }
}

/// The slots after a sequence of calls, first call first.
pub open spec fn after_session_calls<S>(slots: Seq<Slot<S>>, calls: Seq<SessionCall<S>>) -> Seq<
    Slot<S>,
>
    decreases calls.len(),
{
    if calls.len() == 0 {
        slots
    } else {
        after_session_call(after_session_calls(slots, calls.drop_last()), calls.last())
    }
}

impl<S> Sessions<S> {
    /// The slots of handle 0 and of all handles given out so far, in the
    /// order in which they were given out.
    pub closed spec fn view(&self) -> Seq<Slot<S>> {
        self.slots@
    }

    /// Whether `handle` names a live session.
    pub open spec fn live(&self, handle: usize) -> bool {
        names_session(self@, handle)
    }

    /// A module without sessions.
    pub fn new() -> (sessions: Sessions<S>)
        ensures
            sessions@ == Seq::<Slot<S>>::empty(),
    {
        Sessions { slots: Vec::new() }
    }

    /// Whether `handle` names a live session.
    pub fn is_live(&self, handle: usize) -> (live: bool)
        ensures
            live == self.live(handle),
    {
        if 0 < handle && handle < self.slots.len() {
            match &self.slots[handle] {
                Slot::Ready(_) => true,
                Slot::Freed => false,
            }
        } else {
            false
        }
    }

    /// The session that `handle` names, if it is live.
    pub fn session(&self, handle: usize) -> (found: Option<&S>)
        ensures
            match found {
                Some(session) => self.live(handle) && self@[handle as int] == Slot::Ready(
                    *session,
                ),
                None => !self.live(handle),
            },
    {
        if 0 < handle && handle < self.slots.len() {
            match &self.slots[handle] {
                Slot::Ready(session) => Some(session),
                Slot::Freed => None,
            }
        } else {
            None
        }
    }

    /// The session that `handle` names, if it is live, for the interpreter
    /// core to work on. Whatever is done to it, it stays live under the same
    /// handle, and no other slot changes.
    pub fn session_mut(&mut self, handle: usize) -> (found: Option<&mut S>)
        ensures
            match found {
                Some(session) => {
                    &&& old(self).live(handle)
                    &&& old(self)@[handle as int] == Slot::Ready(*session)
                    &&& final(self)@ == after_session_call(
                        old(self)@,
                        SessionCall::Work { handle, left: *final(session) },
                    )
                },
                None => !old(self).live(handle) && final(self)@ == old(self)@,
            },
    {
        if 0 < handle && handle < self.slots.len() {
            match &mut self.slots[handle] {
                Slot::Ready(session) => Some(session),
                Slot::Freed => None,
            }
        } else {
            None
        }
    }
}

/// Gives the session of a completed bootstrap to the host: it becomes live
/// under a handle that was never given out before and is not 0. A bootstrap
/// that failed or has not come to its end yields no handle, and its session
/// is dropped.
pub fn create_state<S>(sessions: &mut Sessions<S>, boot: Boot<S>) -> (created: Option<usize>)
    ensures
        created is Some <==> boot@.phase is Ready,
        match created {
            Some(handle) => {
                &&& handle != 0
                &&& handle == set_aside(old(sessions)@).len()
                &&& final(sessions)@ == after_session_call(
                    old(sessions)@,
                    SessionCall::Create(boot@.session),
                )
            },
            None => final(sessions)@ == old(sessions)@,
        },
{
    match boot.finish() {
        Some(session) => {
            if sessions.slots.len() == 0 {
                sessions.slots.push(Slot::Freed);
            }
            let handle = sessions.slots.len();
            sessions.slots.push(Slot::Ready(session));
            Some(handle)
        },
        None => None,
    }
}

/// Ends the session that `handle` names and releases its storage. The handle
/// names nothing from then on; every other handle names what it named before.
/// A handle that names no live session is refused as `InvalidHandle`.
pub fn free_state<S>(sessions: &mut Sessions<S>, handle: usize) -> (freed: Result<(), Violation>)
    ensures
        freed is Ok <==> old(sessions).live(handle),
        freed is Err ==> freed == Err::<(), Violation>(Violation::InvalidHandle),
        final(sessions)@ == after_session_call(old(sessions)@, SessionCall::Free(handle)),
{
    if sessions.is_live(handle) {
        sessions.slots.set(handle, Slot::Freed);
        Ok(())
    } else {
        Err(Violation::InvalidHandle)
    }
}

/// No call takes a handle back: over any sequence of calls the handles given
/// out before are given out afterwards, and one that names no live session
/// before, because its session was freed, names none afterwards.
pub proof fn lemma_freed_handle_stays_invalid<S>(
    slots: Seq<Slot<S>>,
    calls: Seq<SessionCall<S>>,
    handle: usize,
)
    requires
        handle < slots.len(),
        !names_session(slots, handle),
    ensures
        slots.len() <= after_session_calls(slots, calls).len(),
        !names_session(after_session_calls(slots, calls), handle),
    decreases calls.len(),
{
    if calls.len() > 0 {
        lemma_freed_handle_stays_invalid(slots, calls.drop_last(), handle);
    }
}

/// Over any sequence of calls that does not free it, a live session stays
/// live under its handle, and where the sequence does not work on it either,
/// it stays as it was.
pub proof fn lemma_session_outlives_other_calls<S>(
    slots: Seq<Slot<S>>,
    calls: Seq<SessionCall<S>>,
    handle: usize,
)
    requires
        names_session(slots, handle),
        forall|i: int| 0 <= i < calls.len() ==> calls[i] != SessionCall::<S>::Free(handle),
    ensures
        names_session(after_session_calls(slots, calls), handle),
        (forall|i: int|
            0 <= i < calls.len() ==> !(#[trigger] calls[i] matches SessionCall::Work {
                handle: worked,
                ..
            } && worked == handle)) ==> after_session_calls(slots, calls)[handle as int]
            == slots[handle as int],
    decreases calls.len(),
{
    if calls.len() > 0 {
        let front = calls.drop_last();
        assert forall|i: int| 0 <= i < front.len() implies front[i] != SessionCall::<S>::Free(
            handle,
        ) by {
            assert(front[i] == calls[i]);
        }
        lemma_session_outlives_other_calls(slots, front, handle);
        assert(calls.last() == calls[calls.len() - 1]);
        if forall|i: int|
            0 <= i < calls.len() ==> !(#[trigger] calls[i] matches SessionCall::Work {
                handle: worked,
                ..
            } && worked == handle) {
            assert forall|i: int| 0 <= i < front.len() implies !(#[trigger] front[i] matches SessionCall::Work {
                handle: worked,
                ..
            } && worked == handle) by {
                assert(front[i] == calls[i]);
            }
        }
    }
}

} // verus!
