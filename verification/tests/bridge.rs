//! The callback bridge: registration, removal and event dispatch.

use std::cell::Cell;
use std::rc::Rc;

use audio_toolbox::bridge::{
    apply_render_outcome, CallbackRegistry, RenderEvent, RenderOutcome,
};
use audio_toolbox::error::Error;

/// A payload that counts its own drops, standing in for a boxed closure.
struct DropCounter {
    drops: Rc<Cell<u32>>,
}

impl Drop for DropCounter {
    fn drop(&mut self) {
        self.drops.set(self.drops.get() + 1);
    }
}

#[test]
fn register_unregister_does_not_leak() {
    let drops = Rc::new(Cell::new(0u32));
    let mut reg: CallbackRegistry<DropCounter> = CallbackRegistry::new();
    let h = reg
        .register(DropCounter { drops: drops.clone() }, 0)
        .expect("accepted registration");
    assert_eq!(drops.get(), 0, "payload alive while registered");
    reg.unregister(h, 0).expect("accepted removal");
    assert_eq!(drops.get(), 1, "payload dropped exactly once on removal");
}

#[test]
fn rejected_registration_frees_payload() {
    let drops = Rc::new(Cell::new(0u32));
    let mut reg: CallbackRegistry<DropCounter> = CallbackRegistry::new();
    let r = reg.register(DropCounter { drops: drops.clone() }, -50);
    assert_eq!(r.unwrap_err(), Error::Engine(-50));
    assert_eq!(drops.get(), 1, "error path freed the payload before returning");
}

#[test]
fn rejected_removal_keeps_payload_alive() {
    let drops = Rc::new(Cell::new(0u32));
    let mut reg: CallbackRegistry<DropCounter> = CallbackRegistry::new();
    let h = reg
        .register(DropCounter { drops: drops.clone() }, 0)
        .expect("accepted registration");
    let r = reg.unregister(h, -10863);
    assert_eq!(r.unwrap_err(), Error::Engine(-10863));
    assert_eq!(drops.get(), 0, "payload deliberately kept after rejected removal");
    // The handle was consumed; the slot is no longer live.
    assert!(reg.payload(h).is_none());
}

#[test]
fn unregister_twice_is_a_conflict() {
    let mut reg: CallbackRegistry<u32> = CallbackRegistry::new();
    let h = reg.register(7, 0).expect("accepted registration");
    reg.unregister(h, 0).expect("accepted removal");
    assert_eq!(reg.unregister(h, 0).unwrap_err(), Error::RegistrationConflict);
}

#[test]
fn payload_reachable_while_live() {
    let mut reg: CallbackRegistry<&'static str> = CallbackRegistry::new();
    let h1 = reg.register("first", 0).expect("accepted");
    let h2 = reg.register("second", 0).expect("accepted");
    assert_eq!(*reg.payload(h1).expect("live"), "first");
    assert_eq!(*reg.payload(h2).expect("live"), "second");
    reg.unregister(h1, 0).expect("accepted removal");
    assert!(reg.payload(h1).is_none());
    assert_eq!(*reg.payload(h2).expect("still live"), "second");
}

#[test]
fn handles_name_distinct_slots() {
    let mut reg: CallbackRegistry<u8> = CallbackRegistry::new();
    let h1 = reg.register(1, 0).expect("accepted");
    let h2 = reg.register(2, 0).expect("accepted");
    assert_ne!(h1, h2);
}

#[test]
fn completed_outcome_writes_back_only_flags() {
    let mut event = RenderEvent {
        action_flags: 4,
        host_time: 111,
        bus_number: 2,
        number_frames: 512,
        buffer: 0xdead,
    };
    let status = apply_render_outcome(&mut event, RenderOutcome::Completed { action_flags: 16 });
    assert_eq!(status, 0);
    assert_eq!(event.action_flags, 16);
    assert_eq!(event.host_time, 111);
    assert_eq!(event.bus_number, 2);
    assert_eq!(event.number_frames, 512);
    assert_eq!(event.buffer, 0xdead);
}

#[test]
fn panicked_outcome_returns_normally_and_mutates_nothing() {
    let mut event = RenderEvent {
        action_flags: 8,
        host_time: 42,
        bus_number: 0,
        number_frames: 64,
        buffer: 7,
    };
    let before = event;
    let status = apply_render_outcome(&mut event, RenderOutcome::Panicked);
    assert_eq!(status, 0, "control returns to the engine even after a contained panic");
    assert_eq!(event, before);
}
