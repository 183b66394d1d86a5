//! The typed property facade against the unit model.

use audio_toolbox::error::{
    kAudioUnitErr_InvalidProperty, kAudioUnitErr_PropertyNotWritable, kAudioUnitErr_Uninitialized,
    Error,
};
use audio_toolbox::flags::AudioUnitRenderActionFlags;
use audio_toolbox::scope::AudioUnitScope;
use audio_toolbox::unit::{u32_to_le, AudioUnit};

fn unit_with(id: u32, scope: AudioUnitScope, element: u32, writable: bool, data: Vec<u8>) -> AudioUnit {
    let mut unit = AudioUnit::new();
    assert!(unit.add_property(id, scope, element, writable, data));
    unit
}

#[test]
fn get_property_answers_the_stored_bytes() {
    let unit = unit_with(14, AudioUnitScope::Global, 0, true, vec![0, 2, 0, 0]);
    let data = unit
        .get_property(14, AudioUnitScope::Global, 0, 4)
        .expect("matching size");
    assert_eq!(data, vec![0, 2, 0, 0]);
}

#[test]
fn get_property_reports_size_mismatch() {
    // The engine reports six bytes for the property; a four-byte typed read
    // must fail with the size mismatch carrying both sizes.
    let unit = unit_with(14, AudioUnitScope::Global, 0, true, vec![1, 2, 3, 4, 5, 6]);
    let e = unit
        .get_property(14, AudioUnitScope::Global, 0, 4)
        .unwrap_err();
    assert_eq!(e, Error::SizeMismatch { expected: 4, reported: 6 });
}

#[test]
fn get_property_u32_reports_size_mismatch() {
    let unit = unit_with(14, AudioUnitScope::Global, 0, true, vec![1, 2]);
    let e = unit
        .get_property_u32(14, AudioUnitScope::Global, 0)
        .unwrap_err();
    assert_eq!(e, Error::SizeMismatch { expected: 4, reported: 2 });
}

#[test]
fn unknown_property_is_invalid() {
    let unit = AudioUnit::new();
    assert_eq!(
        unit.get_property(14, AudioUnitScope::Global, 0, 4).unwrap_err(),
        Error::Engine(kAudioUnitErr_InvalidProperty)
    );
    assert_eq!(
        unit.get_property_info(14, AudioUnitScope::Global, 0).unwrap_err(),
        Error::Engine(kAudioUnitErr_InvalidProperty)
    );
}

#[test]
fn property_addresses_distinguish_scope_and_element() {
    let mut unit = AudioUnit::new();
    assert!(unit.add_property(3, AudioUnitScope::Input, 0, true, vec![1, 0, 0, 0]));
    assert!(unit.add_property(3, AudioUnitScope::Output, 0, true, vec![2, 0, 0, 0]));
    assert!(unit.add_property(3, AudioUnitScope::Input, 1, true, vec![3, 0, 0, 0]));
    assert!(
        !unit.add_property(3, AudioUnitScope::Input, 0, true, vec![9, 9, 9, 9]),
        "a second record at the same address is refused"
    );
    assert_eq!(
        unit.get_property_u32(3, AudioUnitScope::Input, 0).unwrap(),
        1
    );
    assert_eq!(
        unit.get_property_u32(3, AudioUnitScope::Output, 0).unwrap(),
        2
    );
    assert_eq!(
        unit.get_property_u32(3, AudioUnitScope::Input, 1).unwrap(),
        3
    );
}

#[test]
fn get_property_info_reports_size_and_writability() {
    let unit = unit_with(8, AudioUnitScope::Input, 0, false, vec![0; 40]);
    assert_eq!(
        unit.get_property_info(8, AudioUnitScope::Input, 0).unwrap(),
        (40, false)
    );
}

#[test]
fn get_property_array_hands_out_everything() {
    let unit = unit_with(3, AudioUnitScope::Global, 0, true, vec![9, 8, 7]);
    assert_eq!(
        unit.get_property_array(3, AudioUnitScope::Global, 0).unwrap(),
        vec![9, 8, 7]
    );
}

#[test]
fn large_property_values_read_back_whole() {
    let big: Vec<u8> = (0..=255u8).cycle().take(4096).collect();
    let unit = unit_with(19, AudioUnitScope::Global, 0, false, big.clone());
    assert_eq!(unit.get_property_info(19, AudioUnitScope::Global, 0).unwrap(), (4096, false));
    assert_eq!(unit.get_property_array(19, AudioUnitScope::Global, 0).unwrap(), big);
}

#[test]
fn set_property_replaces_the_bytes() {
    let mut unit = unit_with(14, AudioUnitScope::Global, 0, true, vec![0, 0, 0, 0]);
    unit.set_property(14, AudioUnitScope::Global, 0, &[0, 4, 0, 0])
        .expect("writable property");
    assert_eq!(
        unit.get_property(14, AudioUnitScope::Global, 0, 4).unwrap(),
        vec![0, 4, 0, 0]
    );
}

#[test]
fn set_property_rejects_read_only_records() {
    let mut unit = unit_with(22, AudioUnitScope::Global, 0, false, vec![0, 0, 0, 0]);
    assert_eq!(
        unit.set_property(22, AudioUnitScope::Global, 0, &[1, 0, 0, 0])
            .unwrap_err(),
        Error::Engine(kAudioUnitErr_PropertyNotWritable)
    );
    assert_eq!(
        unit.get_property_u32(22, AudioUnitScope::Global, 0).unwrap(),
        0,
        "rejected write left the bytes alone"
    );
}

#[test]
fn set_property_rejects_unknown_addresses() {
    let mut unit = AudioUnit::new();
    assert_eq!(
        unit.set_property(5, AudioUnitScope::Global, 0, &[1]).unwrap_err(),
        Error::Engine(kAudioUnitErr_InvalidProperty)
    );
}

#[test]
fn set_property_u32_roundtrips_through_get() {
    let mut unit = unit_with(11, AudioUnitScope::Global, 0, true, vec![0, 0, 0, 0]);
    unit.set_property_u32(11, AudioUnitScope::Global, 0, 0x0102_0304)
        .expect("writable");
    assert_eq!(
        unit.get_property_u32(11, AudioUnitScope::Global, 0).unwrap(),
        0x0102_0304
    );
    assert_eq!(
        unit.get_property(11, AudioUnitScope::Global, 0, 4).unwrap(),
        vec![0x04, 0x03, 0x02, 0x01],
        "payloads are least significant byte first"
    );
}

#[test]
fn u32_to_le_serialises_least_significant_first() {
    assert_eq!(u32_to_le(0xdead_beef), vec![0xef, 0xbe, 0xad, 0xde]);
}

#[test]
fn lifecycle_gates_render_and_process() {
    let mut unit = unit_with(1, AudioUnitScope::Global, 0, true, vec![0; 4]);
    let mut flags = AudioUnitRenderActionFlags::empty();
    assert_eq!(
        unit.render(&mut flags, 0, 0, 64).unwrap_err(),
        Error::Engine(kAudioUnitErr_Uninitialized)
    );
    unit.initialize().unwrap();
    unit.render(&mut flags, 0, 0, 64).expect("initialized unit renders");
    unit.process(&mut flags, 0, 64).expect("initialized unit processes");
    unit.reset(AudioUnitScope::Global, 0).expect("reset always accepted");
    unit.uninitialize().unwrap();
    assert_eq!(
        unit.process(&mut flags, 0, 64).unwrap_err(),
        Error::Engine(kAudioUnitErr_Uninitialized)
    );
}

#[test]
fn listener_registration_roundtrip() {
    let mut unit = AudioUnit::new();
    unit.add_property_listener(14, 0x1000).unwrap();
    unit.add_property_listener(14, 0x2000).unwrap();
    assert_eq!(unit.property_listeners.len(), 2);
    unit.remove_property_listener_with_user_data(14, 0x1000)
        .expect("registered pair");
    assert_eq!(unit.property_listeners, vec![(14, 0x2000)]);
}

#[test]
fn listener_removal_demands_the_identical_pair() {
    let mut unit = AudioUnit::new();
    unit.add_property_listener(14, 0x1000).unwrap();
    assert_eq!(
        unit.remove_property_listener_with_user_data(15, 0x1000)
            .unwrap_err(),
        Error::RegistrationConflict,
        "same token, wrong property"
    );
    assert_eq!(
        unit.remove_property_listener_with_user_data(14, 0x9999)
            .unwrap_err(),
        Error::RegistrationConflict,
        "right property, unknown token"
    );
    assert_eq!(unit.property_listeners.len(), 1);
}

#[test]
fn render_notify_registration_roundtrip() {
    let mut unit = AudioUnit::new();
    unit.add_render_notify(0xaaaa).unwrap();
    unit.add_render_notify(0xbbbb).unwrap();
    unit.remove_render_notify(0xaaaa).expect("registered token");
    assert_eq!(unit.render_listeners, vec![0xbbbb]);
    assert_eq!(
        unit.remove_render_notify(0xaaaa).unwrap_err(),
        Error::RegistrationConflict,
        "a token removes at most once"
    );
}
