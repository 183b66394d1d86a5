//! Output units: lifecycle, device, channel map and scoped switches.

use audio_toolbox::component::AudioComponentDescription;
use audio_toolbox::engine::{ComponentEntry, StubEngine};
use audio_toolbox::error::{kAudioUnitErr_Uninitialized, Error};
use audio_toolbox::kinds::{
    kAudioUnitManufacturer_Apple, kAudioUnitSubType_DefaultOutput, kAudioUnitType_Effect,
    kAudioUnitType_Output,
};
use audio_toolbox::output_unit::{
    kAudioOutputUnitProperty_ChannelMap, kAudioOutputUnitProperty_CurrentDevice,
    kAudioOutputUnitProperty_EnableIO, kAudioOutputUnitProperty_IsRunning, AudioDevice,
    AudioOutputUnit, AudioOutputUnitSubType,
};
use audio_toolbox::scope::AudioUnitScope;
use audio_toolbox::unit::AudioUnit;

fn output_unit() -> AudioOutputUnit {
    let mut unit = AudioUnit::new();
    assert!(unit.add_property(
        kAudioOutputUnitProperty_IsRunning,
        AudioUnitScope::Global,
        0,
        false,
        vec![0, 0, 0, 0],
    ));
    assert!(unit.add_property(
        kAudioOutputUnitProperty_CurrentDevice,
        AudioUnitScope::Global,
        0,
        true,
        vec![0; 8],
    ));
    assert!(unit.add_property(
        kAudioOutputUnitProperty_EnableIO,
        AudioUnitScope::Input,
        1,
        true,
        vec![0, 0, 0, 0],
    ));
    assert!(unit.add_property(
        kAudioOutputUnitProperty_EnableIO,
        AudioUnitScope::Output,
        0,
        true,
        vec![1, 0, 0, 0],
    ));
    assert!(unit.add_property(
        kAudioOutputUnitProperty_ChannelMap,
        AudioUnitScope::Output,
        0,
        true,
        vec![0; 8],
    ));
    AudioOutputUnit { unit }
}

#[test]
fn start_demands_an_initialized_unit() {
    let mut out = output_unit();
    assert_eq!(
        out.start().unwrap_err(),
        Error::Engine(kAudioUnitErr_Uninitialized)
    );
    assert!(!out.is_running().unwrap());
}

#[test]
fn start_and_stop_drive_is_running() {
    let mut out = output_unit();
    out.unit.initialize().unwrap();
    assert!(!out.is_running().unwrap());
    out.start().expect("initialized unit starts");
    assert!(out.is_running().unwrap());
    out.stop().expect("running unit stops");
    assert!(!out.is_running().unwrap());
}

#[test]
fn enable_io_reads_the_scoped_elements() {
    let mut out = output_unit();
    assert!(!out.enable_io(AudioUnitScope::Input).unwrap());
    assert!(out.enable_io(AudioUnitScope::Output).unwrap());
    out.set_enable_io(AudioUnitScope::Input, true).expect("writable");
    assert!(out.enable_io(AudioUnitScope::Input).unwrap());
    out.set_enable_io(AudioUnitScope::Output, false).expect("writable");
    assert!(!out.enable_io(AudioUnitScope::Output).unwrap());
}

#[test]
fn current_device_roundtrips() {
    let mut out = output_unit();
    out.set_current_device(&AudioDevice(0x1234_5678_9abc_def0))
        .expect("writable");
    assert_eq!(
        out.current_device().unwrap(),
        AudioDevice(0x1234_5678_9abc_def0)
    );
}

#[test]
fn channel_map_roundtrips() {
    let mut out = output_unit();
    assert_eq!(out.channel_map(AudioUnitScope::Output, 0).unwrap(), vec![0, 0]);
    out.set_channel_map(AudioUnitScope::Output, 0, &[1, -1])
        .expect("writable");
    assert_eq!(out.channel_map(AudioUnitScope::Output, 0).unwrap(), vec![1, -1]);
}

#[test]
fn output_sub_types_carry_their_codes() {
    assert_eq!(
        AudioOutputUnitSubType::Default.raw(),
        kAudioUnitSubType_DefaultOutput
    );
}

#[test]
fn new_instance_picks_the_first_accepted_output() {
    let apple_output = |sub: u32| ComponentEntry {
        description: AudioComponentDescription::new(
            kAudioUnitType_Output,
            sub,
            kAudioUnitManufacturer_Apple,
        ),
        version: 1,
    };
    let effect = ComponentEntry {
        description: AudioComponentDescription::new(
            kAudioUnitType_Effect,
            0,
            kAudioUnitManufacturer_Apple,
        ),
        version: 1,
    };
    let engine = StubEngine::with_components(vec![
        effect,
        apple_output(kAudioUnitSubType_DefaultOutput),
        apple_output(0x7465_7374),
    ]);
    let picked = AudioOutputUnit::new_instance(&engine, |c| c.0 == 3)
        .expect("instantiation accepted")
        .expect("a component was accepted");
    assert!(!picked.unit.initialized);

    let none = AudioOutputUnit::new_instance(&engine, |_| false).expect("no error");
    assert!(none.is_none(), "every output component was refused");

    let empty = StubEngine::new();
    assert!(AudioOutputUnit::new_instance(&empty, |_| true)
        .expect("no error")
        .is_none());
}
