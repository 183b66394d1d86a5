//! The callback bridge.
//!
//! The native engine takes a bare function pointer plus an opaque context
//! pointer at registration time and calls them back later on a thread of its
//! own choosing.  This crate keeps the caller's payload (the boxed closure of
//! the unsafe shell, or any other owned value) in a [`CallbackRegistry`]: an
//! arena whose slot index plays the role of the context token.  A
//! [`CallbackHandle`] names the slot and must be presented exactly once to
//! [`CallbackRegistry::unregister`].
//!
//! Registration and removal each end with a status code from the engine's
//! registration call, handed in by the caller.  A rejected registration frees
//! the payload before returning, so the error path cannot leak.  A rejected
//! removal deliberately keeps the payload alive forever: the engine may still
//! hold the context token, and a dangling token would be worse than the leak.
//!
//! Event delivery is modelled by [`apply_render_outcome`]: given what the
//! callback produced (or that it panicked), it writes back exactly the output
//! the callback asked for, leaves every other event field alone, and always
//! answers the engine with a success status, so control returns to the
//! engine no matter what the callback did.

use vstd::prelude::*;

use crate::error::Error;

verus! {

/// One arena slot of a [`CallbackRegistry`].
pub enum SlotEntry<T> {
    /// The payload is registered and may still be called back.
    Live(T),
    /// Removal was rejected by the engine; the payload is kept alive forever
    /// because the engine may still hold its token.
    Leaked(T),
    /// The payload was reclaimed and dropped.
    Freed,
}

/// The token returned by a successful registration; presents the arena slot
/// back for removal.
#[derive(Clone, Copy, Debug, PartialEq, Eq, Structural)]
pub struct CallbackHandle {
    pub slot: usize,
}

/// An arena of registered callback payloads, one slot per registration.
///
/// Slots are never reused: a freed or leaked slot stays in place, so a stale
/// handle can never reach a payload registered later.
pub struct CallbackRegistry<T> {
    pub slots: Vec<SlotEntry<T>>,
}

/// How many slots of `s` still hold a registered, removable payload.
pub open spec fn live_count<T>(s: Seq<SlotEntry<T>>) -> nat
    decreases s.len(),
{
    if s.len() == 0 {
        0
    } else {
        live_count(s.drop_last()) + (if s.last() is Live {
            1nat
        } else {
            0nat
        })
    }
}

/// How many slots of `s` were deliberately kept alive after a rejected
/// removal.
pub open spec fn leaked_count<T>(s: Seq<SlotEntry<T>>) -> nat
    decreases s.len(),
{
    if s.len() == 0 {
        0
    } else {
        leaked_count(s.drop_last()) + (if s.last() is Leaked {
            1nat
        } else {
            0nat
        })
    }
}

impl<T> CallbackRegistry<T> {
    /// An arena with no slots.
    pub fn new() -> (r: CallbackRegistry<T>)
        ensures
            r.slots@.len() == 0,
    {
        CallbackRegistry { slots: Vec::new() }
    }

    /// Whether `h` names a slot whose payload is live.
    pub open spec fn is_live(self, h: CallbackHandle) -> bool {
        h.slot < self.slots@.len() && self.slots@[h.slot as int] is Live
    }

    /// Registers `value`, completing the engine's registration call that
    /// answered `status`.
    ///
    /// On success the payload is stored in a fresh slot and the slot's handle
    /// is returned.  On a rejected registration (`status != 0`) the arena is
    /// unchanged and the payload is dropped before returning, so the error
    /// path cannot leak it.
    pub fn register(&mut self, value: T, status: i32) -> (r: Result<CallbackHandle, Error>)
        ensures
            status == 0 ==> {
                &&& r == Ok::<CallbackHandle, Error>(
                    CallbackHandle { slot: old(self).slots@.len() as usize },
                )
                &&& final(self).slots@ == old(self).slots@.push(SlotEntry::Live(value))
            },
            status != 0 ==> {
                &&& r == Err::<CallbackHandle, Error>(Error::Engine(status))
                &&& final(self).slots@ == old(self).slots@
            },
    {
        if status == 0 {
            let slot = self.slots.len();
            self.slots.push(SlotEntry::Live(value));
            Ok(CallbackHandle { slot })
        } else {
            Err(Error::Engine(status))
        }
    }

    /// Removes the registration `h`, completing the engine's removal call
    /// that answered `status`.
    ///
    /// A handle that no longer names a live slot is rejected as a
    /// registration conflict and the arena is unchanged.  On success the
    /// payload is reclaimed and dropped.  On a rejected removal the payload
    /// is deliberately kept (the slot turns leaked): the engine may still
    /// hold the slot's token, and freeing it could leave the engine calling
    /// into reclaimed storage.
    pub fn unregister(&mut self, h: CallbackHandle, status: i32) -> (r: Result<(), Error>)
        ensures
            !old(self).is_live(h) ==> {
                &&& r == Err::<(), Error>(Error::RegistrationConflict)
                &&& final(self).slots@ == old(self).slots@
            },
            old(self).is_live(h) && status == 0 ==> {
                &&& r == Ok::<(), Error>(())
                &&& final(self).slots@ == old(self).slots@.update(h.slot as int, SlotEntry::Freed)
            },
            old(self).is_live(h) && status != 0 ==> {
                &&& r == Err::<(), Error>(Error::Engine(status))
                &&& (old(self).slots@[h.slot as int] matches SlotEntry::Live(v)
                    ==> final(self).slots@ == old(self).slots@.update(
                        h.slot as int,
                        SlotEntry::Leaked(v),
                    ))
            },
    {
        if h.slot >= self.slots.len() {
            return Err(Error::RegistrationConflict);
        }
        let live = match &self.slots[h.slot] {
            SlotEntry::Live(_) => true,
            _ => false,
        };
        if !live {
            return Err(Error::RegistrationConflict);
        }
        if status == 0 {
            self.slots[h.slot] = SlotEntry::Freed;
            Ok(())
        } else {
            let mut entry = SlotEntry::Freed;
            core::mem::swap(&mut entry, &mut self.slots[h.slot]);
            match entry {
                SlotEntry::Live(v) => {
                    self.slots[h.slot] = SlotEntry::Leaked(v);
                },
                _ => {},
            }
            Err(Error::Engine(status))
        }
    }

    /// Borrows the payload of a live registration, as the dispatch path does
    /// when the engine calls back with the slot's token.
    pub fn payload(&self, h: CallbackHandle) -> (r: Option<&T>)
        ensures
            self.is_live(h) ==> (r matches Some(v) && self.slots@[h.slot as int]
                == SlotEntry::Live(*v)),
            !self.is_live(h) ==> r is None,
    {
        if h.slot >= self.slots.len() {
            return None;
        }
        match &self.slots[h.slot] {
            SlotEntry::Live(v) => Some(v),
            _ => None,
        }
    }
}

/// The arguments a render notification delivers, as plain values.
///
/// The engine owns the timestamp and the buffer list; the event carries the
/// timestamp's host time and the buffer list's token untouched, and the flag
/// word both in and out.
#[derive(Clone, Copy, Debug, PartialEq, Eq, Structural)]
pub struct RenderEvent {
    /// The render action flag word, read by the callback and written back.
    pub action_flags: u32,
    /// The host time of the engine's timestamp for this cycle.
    pub host_time: u64,
    /// The bus being rendered.
    pub bus_number: u32,
    /// How many frames this cycle renders.
    pub number_frames: u32,
    /// The engine's token for the buffer list, passed through unread.
    pub buffer: u64,
}

/// What became of one callback invocation.
pub enum RenderOutcome {
    /// The callback ran to completion and asks for this flag word to be
    /// written back.
    Completed { action_flags: u32 },
    /// The callback panicked; the panic was contained at the foreign
    /// boundary and nothing may be written back.
    Panicked,
}

/// Completes one render notification: writes back what the callback
/// produced and answers the engine.
///
/// Only the flag word may change, and only when the callback completed; a
/// contained panic leaves the event exactly as delivered.  The status
/// returned to the engine is success in every case, so control always
/// returns to the engine normally.
pub fn apply_render_outcome(event: &mut RenderEvent, outcome: RenderOutcome) -> (status: i32)
    ensures
        status == 0,
        final(event).host_time == old(event).host_time,
        final(event).bus_number == old(event).bus_number,
        final(event).number_frames == old(event).number_frames,
        final(event).buffer == old(event).buffer,
        final(event).action_flags == (match outcome {
            RenderOutcome::Completed { action_flags } => action_flags,
            RenderOutcome::Panicked => old(event).action_flags,
        }),
{
    match outcome {
        RenderOutcome::Completed { action_flags } => {
            event.action_flags = action_flags;
        },
        RenderOutcome::Panicked => {},
    }
    0
}

/// Registering a payload and at once removing it with the returned handle,
/// with no callback in between, restores the arena's books: as many live
/// payloads as before, and not one more leaked slot.
pub proof fn lemma_register_unregister_no_leak<T>(slots: Seq<SlotEntry<T>>, value: T)
    ensures
        live_count(slots.push(SlotEntry::Live(value)).update(slots.len() as int, SlotEntry::Freed))
            == live_count(slots),
        leaked_count(
            slots.push(SlotEntry::Live(value)).update(slots.len() as int, SlotEntry::Freed),
        ) == leaked_count(slots),
{
    let after = slots.push(SlotEntry::Live(value)).update(slots.len() as int, SlotEntry::Freed);
    assert(after =~= slots.push(SlotEntry::Freed));
    assert(after.drop_last() =~= slots);
}

} // verus!
