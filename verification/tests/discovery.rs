//! Component discovery against the deterministic engine.

use audio_toolbox::component::{find_all, AudioComponent, AudioComponentDescription};
use audio_toolbox::engine::{ComponentEntry, StubEngine};
use audio_toolbox::error::{kAudio_ParamError, Error};
use audio_toolbox::kinds::{
    kAudioUnitManufacturer_Apple, kAudioUnitSubType_DefaultOutput,
    kAudioUnitSubType_GenericOutput, kAudioUnitType_Effect, kAudioUnitType_Output,
    AudioUnitManufacturer, AudioUnitSubType, AudioUnitType,
};

fn entry(t: u32, s: u32, m: u32, version: u32) -> ComponentEntry {
    ComponentEntry { description: AudioComponentDescription::new(t, s, m), version }
}

fn output_desc() -> AudioComponentDescription {
    AudioComponentDescription::new(kAudioUnitType_Output, 0, kAudioUnitManufacturer_Apple)
}

fn sample_engine() -> StubEngine {
    StubEngine::with_components(vec![
        entry(kAudioUnitType_Output, kAudioUnitSubType_DefaultOutput, kAudioUnitManufacturer_Apple, 1),
        entry(kAudioUnitType_Effect, 0x64656c79, kAudioUnitManufacturer_Apple, 2),
        entry(kAudioUnitType_Output, kAudioUnitSubType_GenericOutput, kAudioUnitManufacturer_Apple, 3),
    ])
}

#[test]
fn iteration_over_empty_roster_ends_at_once() {
    let engine = StubEngine::new();
    let desc = output_desc();
    let mut it = AudioComponent::iter(&desc);
    assert!(it.next(&engine).is_none());
    assert!(it.next(&engine).is_none(), "exhausted search stays exhausted");
}

#[test]
fn iteration_over_single_match_yields_one() {
    let engine = StubEngine::with_components(vec![entry(
        kAudioUnitType_Output,
        kAudioUnitSubType_DefaultOutput,
        kAudioUnitManufacturer_Apple,
        7,
    )]);
    let desc = output_desc();
    let mut it = AudioComponent::iter(&desc);
    let c = it.next(&engine).expect("one match");
    assert_eq!(c.0, 1);
    assert!(it.next(&engine).is_none());
}

#[test]
fn iteration_yields_no_more_elements_than_the_roster_holds() {
    let engine = sample_engine();
    let desc = AudioComponentDescription::new(0, 0, 0);
    let mut it = AudioComponent::iter(&desc);
    let mut produced = 0usize;
    while it.next(&engine).is_some() {
        produced += 1;
        assert!(produced <= 3, "no more elements than find-next steps before null");
    }
    assert_eq!(produced, 3);
}

#[test]
fn iteration_skips_non_matching_entries() {
    let engine = sample_engine();
    let desc = output_desc();
    let mut it = AudioComponent::iter(&desc);
    assert_eq!(it.next(&engine).expect("first output").0, 1);
    assert_eq!(it.next(&engine).expect("second output").0, 3);
    assert!(it.next(&engine).is_none());
}

#[test]
fn a_fresh_cursor_restarts_from_the_null_handle() {
    let engine = sample_engine();
    let desc = output_desc();
    let mut it = AudioComponent::iter(&desc);
    while it.next(&engine).is_some() {}
    // Re-issuing from null walks the same matches again.
    let mut again = AudioComponent::iter(&desc);
    assert_eq!(again.next(&engine).expect("restarted search").0, 1);
}

#[test]
fn find_all_gathers_matching_handles_in_order() {
    let engine = sample_engine();
    let found = find_all(&engine, &output_desc());
    let handles: Vec<usize> = found.iter().map(|c| c.0).collect();
    assert_eq!(handles, vec![1, 3]);
}

#[test]
fn count_matches_search() {
    let engine = sample_engine();
    assert_eq!(output_desc().count(&engine), 2);
    assert_eq!(AudioComponentDescription::new(0, 0, 0).count(&engine), 3);
    assert_eq!(
        AudioComponentDescription::new(kAudioUnitType_Effect, 0, 0).count(&engine),
        1
    );
}

#[test]
fn zero_codes_act_as_wildcards() {
    let engine = sample_engine();
    let any_apple = AudioComponentDescription::new(0, 0, kAudioUnitManufacturer_Apple);
    assert_eq!(any_apple.count(&engine), 3);
}

#[test]
fn description_and_version_answer_for_valid_handles() {
    let engine = sample_engine();
    let c = AudioComponent(3);
    let desc = c.description(&engine).expect("valid handle");
    assert_eq!(desc.component_sub_type, kAudioUnitSubType_GenericOutput);
    assert_eq!(c.version(&engine).expect("valid handle"), 3);
}

#[test]
fn stale_handles_answer_a_parameter_error() {
    let engine = sample_engine();
    let stale = AudioComponent(9);
    assert_eq!(
        stale.description(&engine).unwrap_err(),
        Error::Engine(kAudio_ParamError)
    );
    assert_eq!(stale.version(&engine).unwrap_err(), Error::Engine(kAudio_ParamError));
    let null = AudioComponent(0);
    assert_eq!(null.version(&engine).unwrap_err(), Error::Engine(kAudio_ParamError));
}

#[test]
fn instantiation_yields_a_fresh_unit() {
    let engine = sample_engine();
    let inst = AudioComponent(1).new(&engine).expect("valid handle");
    assert!(!inst.unit.initialized);
    assert_eq!(inst.unit.properties.len(), 0);
    assert_eq!(
        AudioComponent(4).new(&engine).unwrap_err(),
        Error::Engine(kAudio_ParamError)
    );
}

#[test]
fn description_decodes_published_codes() {
    let desc = AudioComponentDescription::new(
        kAudioUnitType_Output,
        kAudioUnitSubType_DefaultOutput,
        kAudioUnitManufacturer_Apple,
    );
    assert_eq!(desc.kind(), AudioUnitType::Output);
    assert_eq!(desc.sub_kind(), AudioUnitSubType::DefaultOutput);
    assert_eq!(desc.manufacturer(), AudioUnitManufacturer::Apple);
    assert_eq!(desc.flags(), 0);
}

#[test]
fn kind_codes_roundtrip() {
    for t in [
        AudioUnitType::Output,
        AudioUnitType::MusicDevice,
        AudioUnitType::Effect,
        AudioUnitType::Mixer,
        AudioUnitType::MIDIProcessor,
    ] {
        assert_eq!(AudioUnitType::from_raw(t.raw()), Some(t));
    }
    assert_eq!(AudioUnitType::from_raw(0), None);
}

#[test]
fn sub_kind_codes_roundtrip_with_shared_pitch_code() {
    for s in [
        AudioUnitSubType::DefaultOutput,
        AudioUnitSubType::Sampler,
        AudioUnitSubType::Delay,
        AudioUnitSubType::MatrixMixer,
        AudioUnitSubType::AudioFilePlayer,
    ] {
        assert_eq!(AudioUnitSubType::from_raw(s.raw()), Some(s));
    }
    // The retired time-pitch tag shares its code with the pitch unit.
    assert_eq!(
        AudioUnitSubType::TimePitch.raw(),
        AudioUnitSubType::Pitch.raw()
    );
    assert_eq!(
        AudioUnitSubType::from_raw(AudioUnitSubType::TimePitch.raw()),
        Some(AudioUnitSubType::Pitch)
    );
}
