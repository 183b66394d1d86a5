//! Audio unit scopes.
//!
//! A property or parameter address names a scope beside its identifier and
//! element.  The scopes form a small closed set, so they are carried as an
//! enumeration; the raw numbering of the native interface is reached through
//! [`AudioUnitScope::raw`] and [`AudioUnitScope::from_raw`].

use vstd::prelude::*;

verus! {

pub const kAudioUnitScope_Global: u32 = 0;

pub const kAudioUnitScope_Input: u32 = 1;

pub const kAudioUnitScope_Output: u32 = 2;

pub const kAudioUnitScope_Group: u32 = 3;

pub const kAudioUnitScope_Part: u32 = 4;

pub const kAudioUnitScope_Note: u32 = 5;

pub const kAudioUnitScope_Layer: u32 = 6;

pub const kAudioUnitScope_LayerItem: u32 = 7;

/// The part of a unit that a property or parameter address speaks of.
#[derive(Clone, Copy, Debug, PartialEq, Eq, Structural)]
pub enum AudioUnitScope {
    Global,
    Input,
    Output,
    Group,
    Part,
    Note,
    Layer,
    LayerItem,
}

/// The raw number of a scope in the native interface.
pub open spec fn scope_code(s: AudioUnitScope) -> u32 {
    match s {
        AudioUnitScope::Global => kAudioUnitScope_Global,
        AudioUnitScope::Input => kAudioUnitScope_Input,
        AudioUnitScope::Output => kAudioUnitScope_Output,
        AudioUnitScope::Group => kAudioUnitScope_Group,
        AudioUnitScope::Part => kAudioUnitScope_Part,
        AudioUnitScope::Note => kAudioUnitScope_Note,
        AudioUnitScope::Layer => kAudioUnitScope_Layer,
        AudioUnitScope::LayerItem => kAudioUnitScope_LayerItem,
    }
}

/// The scope a raw number stands for, if any.
pub open spec fn scope_from_code(v: u32) -> Option<AudioUnitScope> {
    if v == kAudioUnitScope_Global {
        Some(AudioUnitScope::Global)
    } else if v == kAudioUnitScope_Input {
        Some(AudioUnitScope::Input)
    } else if v == kAudioUnitScope_Output {
        Some(AudioUnitScope::Output)
    } else if v == kAudioUnitScope_Group {
        Some(AudioUnitScope::Group)
    } else if v == kAudioUnitScope_Part {
        Some(AudioUnitScope::Part)
    } else if v == kAudioUnitScope_Note {
        Some(AudioUnitScope::Note)
    } else if v == kAudioUnitScope_Layer {
        Some(AudioUnitScope::Layer)
    } else if v == kAudioUnitScope_LayerItem {
        Some(AudioUnitScope::LayerItem)
    } else {
        None
    }
}

impl AudioUnitScope {
    /// The scope's raw number in the native interface.
    pub fn raw(self) -> (r: u32)
        ensures
            r == scope_code(self),
    {
        match self {
            AudioUnitScope::Global => kAudioUnitScope_Global,
            AudioUnitScope::Input => kAudioUnitScope_Input,
            AudioUnitScope::Output => kAudioUnitScope_Output,
            AudioUnitScope::Group => kAudioUnitScope_Group,
            AudioUnitScope::Part => kAudioUnitScope_Part,
            AudioUnitScope::Note => kAudioUnitScope_Note,
            AudioUnitScope::Layer => kAudioUnitScope_Layer,
            AudioUnitScope::LayerItem => kAudioUnitScope_LayerItem,
        }
    }

    /// The scope a raw number stands for; `None` on a number outside the
    /// closed set.
    pub fn from_raw(v: u32) -> (r: Option<AudioUnitScope>)
        ensures
            r == scope_from_code(v),
    {
        if v == kAudioUnitScope_Global {
            Some(AudioUnitScope::Global)
        } else if v == kAudioUnitScope_Input {
            Some(AudioUnitScope::Input)
        } else if v == kAudioUnitScope_Output {
            Some(AudioUnitScope::Output)
        } else if v == kAudioUnitScope_Group {
            Some(AudioUnitScope::Group)
        } else if v == kAudioUnitScope_Part {
            Some(AudioUnitScope::Part)
        } else if v == kAudioUnitScope_Note {
            Some(AudioUnitScope::Note)
        } else if v == kAudioUnitScope_Layer {
            Some(AudioUnitScope::Layer)
        } else if v == kAudioUnitScope_LayerItem {
            Some(AudioUnitScope::LayerItem)
        } else {
            None
        }
    }
}

/// A scope's raw number always maps back to the same scope.
pub proof fn lemma_scope_code_roundtrip(s: AudioUnitScope)
    ensures
        scope_from_code(scope_code(s)) == Some(s),
{
}

} // verus!
