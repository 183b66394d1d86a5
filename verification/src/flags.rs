//! Render action flags.
//!
//! The engine hands a 32-bit flag word in and out of every render call.
//! Only the bits below are defined; [`AudioUnitRenderActionFlags`] carries a
//! word restricted to them.

use vstd::prelude::*;

verus! {

pub const kAudioUnitRenderAction_PreRender: u32 = 4;

pub const kAudioUnitRenderAction_PostRender: u32 = 8;

pub const kAudioUnitRenderAction_OutputIsSilence: u32 = 16;

pub const kAudioOfflineUnitRenderAction_Preflight: u32 = 32;

pub const kAudioOfflineUnitRenderAction_Render: u32 = 64;

pub const kAudioOfflineUnitRenderAction_Complete: u32 = 128;

pub const kAudioUnitRenderAction_PostRenderError: u32 = 256;

pub const kAudioUnitRenderAction_DoNotCheckRenderArgs: u32 = 512;

/// Every defined render action bit.
pub const RENDER_ACTION_MASK: u32 = 1020;

/// A render call's flag word, restricted to the defined bits.
#[derive(Clone, Copy, Debug, PartialEq, Eq, Structural)]
pub struct AudioUnitRenderActionFlags {
    bits: u32,
}

impl View for AudioUnitRenderActionFlags {
    type V = u32;

    closed spec fn view(&self) -> u32 {
        self.bits
    }
}

impl AudioUnitRenderActionFlags {
    /// The flag word with no bit set.
    pub fn empty() -> (r: AudioUnitRenderActionFlags)
        ensures
            r@ == 0,
    {
        AudioUnitRenderActionFlags { bits: 0 }
    }

    /// Keeps the defined bits of a raw word and drops the rest.
    pub fn from_bits_truncate(v: u32) -> (r: AudioUnitRenderActionFlags)
        ensures
            r@ == v & RENDER_ACTION_MASK,
    {
        AudioUnitRenderActionFlags { bits: v & RENDER_ACTION_MASK }
    }

    /// The raw word.
    pub fn bits(self) -> (r: u32)
        ensures
            r == self@,
    {
        self.bits
    }

    /// Whether every bit of `other` is set in `self`.
    pub fn contains(self, other: AudioUnitRenderActionFlags) -> (r: bool)
        ensures
            r == (self@ & other@ == other@),
    {
        self.bits & other.bits == other.bits
    }

    /// The union of the two flag words.
    pub fn union(self, other: AudioUnitRenderActionFlags) -> (r: AudioUnitRenderActionFlags)
        ensures
            r@ == (self@ | other@),
    {
        AudioUnitRenderActionFlags { bits: self.bits | other.bits }
    }
}

} // verus!
