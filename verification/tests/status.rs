//! Status conversion and render action flag words.

use audio_toolbox::error::{cvt_r, kAudioUnitErr_InvalidProperty, Error};
use audio_toolbox::flags::{
    kAudioOfflineUnitRenderAction_Complete, kAudioUnitRenderAction_OutputIsSilence,
    kAudioUnitRenderAction_PostRender, kAudioUnitRenderAction_PreRender,
    AudioUnitRenderActionFlags, RENDER_ACTION_MASK,
};

#[test]
fn zero_status_is_ok() {
    assert_eq!(cvt_r(0), Ok(()));
}

#[test]
fn nonzero_status_carries_through() {
    assert_eq!(cvt_r(-10879), Err(Error::Engine(kAudioUnitErr_InvalidProperty)));
    assert_eq!(cvt_r(1), Err(Error::Engine(1)));
    assert_eq!(cvt_r(i32::MIN), Err(Error::Engine(i32::MIN)));
}

#[test]
fn error_status_unwraps_engine_codes_only() {
    assert_eq!(Error::Engine(-50).status(), -50);
    assert_eq!(Error::SizeMismatch { expected: 4, reported: 8 }.status(), 0);
    assert_eq!(Error::RegistrationConflict.status(), 0);
}

#[test]
fn truncation_keeps_only_defined_bits() {
    let f = AudioUnitRenderActionFlags::from_bits_truncate(0xffff_ffff);
    assert_eq!(f.bits(), RENDER_ACTION_MASK);
    let g = AudioUnitRenderActionFlags::from_bits_truncate(
        kAudioUnitRenderAction_PreRender | 0x1,
    );
    assert_eq!(g.bits(), kAudioUnitRenderAction_PreRender);
}

#[test]
fn contains_and_union_follow_the_bits() {
    let pre = AudioUnitRenderActionFlags::from_bits_truncate(kAudioUnitRenderAction_PreRender);
    let post = AudioUnitRenderActionFlags::from_bits_truncate(kAudioUnitRenderAction_PostRender);
    let both = pre.union(post);
    assert!(both.contains(pre));
    assert!(both.contains(post));
    assert!(!pre.contains(post));
    assert_eq!(
        both.bits(),
        kAudioUnitRenderAction_PreRender | kAudioUnitRenderAction_PostRender
    );
    assert_eq!(AudioUnitRenderActionFlags::empty().bits(), 0);
    assert!(both.contains(AudioUnitRenderActionFlags::empty()));
}

#[test]
fn defined_bits_survive_truncation() {
    for &bit in &[
        kAudioUnitRenderAction_PreRender,
        kAudioUnitRenderAction_PostRender,
        kAudioUnitRenderAction_OutputIsSilence,
        kAudioOfflineUnitRenderAction_Complete,
    ] {
        assert_eq!(AudioUnitRenderActionFlags::from_bits_truncate(bit).bits(), bit);
    }
}
