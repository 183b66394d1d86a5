//! Unit kinds, sub-kinds and manufacturers.
//!
//! Components advertise a type, a subtype and a manufacturer, each a
//! packed four-character code.  The codes that the vendor publishes form
//! closed sets and are carried as enumerations; the raw codes are reached
//! through `raw` and `from_raw` on each enumeration.

use vstd::prelude::*;

verus! {

pub const kAudioUnitType_Output: u32 = 1635086197;

pub const kAudioUnitType_MusicDevice: u32 = 1635085685;

pub const kAudioUnitType_MusicEffect: u32 = 1635085670;

pub const kAudioUnitType_FormatConverter: u32 = 1635083875;

pub const kAudioUnitType_Effect: u32 = 1635083896;

pub const kAudioUnitType_Mixer: u32 = 1635085688;

pub const kAudioUnitType_Panner: u32 = 1635086446;

pub const kAudioUnitType_Generator: u32 = 1635084142;

pub const kAudioUnitType_OfflineEffect: u32 = 1635086188;

pub const kAudioUnitType_MIDIProcessor: u32 = 1635085673;

pub const kAudioUnitManufacturer_Apple: u32 = 1634758764;

pub const kAudioUnitSubType_GenericOutput: u32 = 1734700658;

pub const kAudioUnitSubType_VoiceProcessingIO: u32 = 1987078511;

pub const kAudioUnitSubType_HALOutput: u32 = 1634230636;

pub const kAudioUnitSubType_DefaultOutput: u32 = 1684366880;

pub const kAudioUnitSubType_SystemOutput: u32 = 1937339168;

pub const kAudioUnitSubType_DLSSynth: u32 = 1684828960;

pub const kAudioUnitSubType_Sampler: u32 = 1935764848;

pub const kAudioUnitSubType_MIDISynth: u32 = 1836284270;

pub const kAudioUnitSubType_AUConverter: u32 = 1668247158;

pub const kAudioUnitSubType_Varispeed: u32 = 1986097769;

pub const kAudioUnitSubType_DeferredRenderer: u32 = 1684366962;

pub const kAudioUnitSubType_Splitter: u32 = 1936747636;

pub const kAudioUnitSubType_MultiSplitter: u32 = 1836281964;

pub const kAudioUnitSubType_Merger: u32 = 1835364967;

pub const kAudioUnitSubType_NewTimePitch: u32 = 1853191280;

pub const kAudioUnitSubType_AUiPodTimeOther: u32 = 1768977519;

pub const kAudioUnitSubType_RoundTripAAC: u32 = 1918984547;

pub const kAudioUnitSubType_PeakLimiter: u32 = 1819112562;

pub const kAudioUnitSubType_DynamicsProcessor: u32 = 1684237680;

pub const kAudioUnitSubType_LowPassFilter: u32 = 1819304307;

pub const kAudioUnitSubType_HighPassFilter: u32 = 1752195443;

pub const kAudioUnitSubType_BandPassFilter: u32 = 1651532147;

pub const kAudioUnitSubType_HighShelfFilter: u32 = 1752393830;

pub const kAudioUnitSubType_LowShelfFilter: u32 = 1819502694;

pub const kAudioUnitSubType_ParametricEQ: u32 = 1886217585;

pub const kAudioUnitSubType_Distortion: u32 = 1684632436;

pub const kAudioUnitSubType_Delay: u32 = 1684368505;

pub const kAudioUnitSubType_SampleDelay: u32 = 1935961209;

pub const kAudioUnitSubType_NBandEQ: u32 = 1851942257;

pub const kAudioUnitSubType_GraphicEQ: u32 = 1735550321;

pub const kAudioUnitSubType_MultiBandCompressor: u32 = 1835232624;

pub const kAudioUnitSubType_MatrixReverb: u32 = 1836213622;

pub const kAudioUnitSubType_Pitch: u32 = 1953329268;

pub const kAudioUnitSubType_AUFilter: u32 = 1718185076;

pub const kAudioUnitSubType_NetSend: u32 = 1853058660;

pub const kAudioUnitSubType_RogerBeep: u32 = 1919903602;

pub const kAudioUnitSubType_MultiChannelMixer: u32 = 1835232632;

pub const kAudioUnitSubType_MatrixMixer: u32 = 1836608888;

pub const kAudioUnitSubType_SpatialMixer: u32 = 862217581;

pub const kAudioUnitSubType_StereoMixer: u32 = 1936554098;

pub const kAudioUnitSubType_3DMixer: u32 = 862219640;

pub const kAudioUnitSubType_SphericalHeadPanner: u32 = 1936746610;

pub const kAudioUnitSubType_VectorPanner: u32 = 1986158963;

pub const kAudioUnitSubType_SoundFieldPanner: u32 = 1634558569;

pub const kAudioUnitSubType_HRTFPanner: u32 = 1752331366;

pub const kAudioUnitSubType_NetReceive: u32 = 1852990326;

pub const kAudioUnitSubType_ScheduledSoundPlayer: u32 = 1936945260;

pub const kAudioUnitSubType_AudioFilePlayer: u32 = 1634103404;

pub const kAudioUnitSubType_TimePitch: u32 = 1953329268;

/// The broad kind of processing a unit performs.
#[derive(Clone, Copy, Debug, PartialEq, Eq, Structural)]
pub enum AudioUnitType {
    Output,
    MusicDevice,
    MusicEffect,
    FormatConverter,
    Effect,
    Mixer,
    Panner,
    Generator,
    OfflineEffect,
    MIDIProcessor,
}

/// The vendor a component names as its manufacturer.
#[derive(Clone, Copy, Debug, PartialEq, Eq, Structural)]
pub enum AudioUnitManufacturer {
    Apple,
}

/// The concrete unit within its broad kind.
#[derive(Clone, Copy, Debug, PartialEq, Eq, Structural)]
pub enum AudioUnitSubType {
    GenericOutput,
    VoiceProcessingIO,
    HALOutput,
    DefaultOutput,
    SystemOutput,
    DLSSynth,
    Sampler,
    MIDISynth,
    AUConverter,
    Varispeed,
    DeferredRenderer,
    Splitter,
    MultiSplitter,
    Merger,
    NewTimePitch,
    AUiPodTimeOther,
    RoundTripAAC,
    TimePitch,
    PeakLimiter,
    DynamicsProcessor,
    LowPassFilter,
    HighPassFilter,
    BandPassFilter,
    HighShelfFilter,
    LowShelfFilter,
    ParametricEQ,
    Distortion,
    Delay,
    SampleDelay,
    NBandEQ,
    GraphicEQ,
    MultiBandCompressor,
    MatrixReverb,
    Pitch,
    AUFilter,
    NetSend,
    RogerBeep,
    MultiChannelMixer,
    MatrixMixer,
    SpatialMixer,
    StereoMixer,
    _3DMixer,
    SphericalHeadPanner,
    VectorPanner,
    SoundFieldPanner,
    HRTFPanner,
    NetReceive,
    ScheduledSoundPlayer,
    AudioFilePlayer,
}

/// The packed code of a unit_type in the native interface.
pub open spec fn unit_type_code(s: AudioUnitType) -> u32 {
    match s {
        AudioUnitType::Output => kAudioUnitType_Output,
        AudioUnitType::MusicDevice => kAudioUnitType_MusicDevice,
        AudioUnitType::MusicEffect => kAudioUnitType_MusicEffect,
        AudioUnitType::FormatConverter => kAudioUnitType_FormatConverter,
        AudioUnitType::Effect => kAudioUnitType_Effect,
        AudioUnitType::Mixer => kAudioUnitType_Mixer,
        AudioUnitType::Panner => kAudioUnitType_Panner,
        AudioUnitType::Generator => kAudioUnitType_Generator,
        AudioUnitType::OfflineEffect => kAudioUnitType_OfflineEffect,
        AudioUnitType::MIDIProcessor => kAudioUnitType_MIDIProcessor,
    }
}

/// The unit_type a packed code stands for, if any.
pub open spec fn unit_type_from_code(v: u32) -> Option<AudioUnitType> {
    if v == kAudioUnitType_Output {
        Some(AudioUnitType::Output)
    } else if v == kAudioUnitType_MusicDevice {
        Some(AudioUnitType::MusicDevice)
    } else if v == kAudioUnitType_MusicEffect {
        Some(AudioUnitType::MusicEffect)
    } else if v == kAudioUnitType_FormatConverter {
        Some(AudioUnitType::FormatConverter)
    } else if v == kAudioUnitType_Effect {
        Some(AudioUnitType::Effect)
    } else if v == kAudioUnitType_Mixer {
        Some(AudioUnitType::Mixer)
    } else if v == kAudioUnitType_Panner {
        Some(AudioUnitType::Panner)
    } else if v == kAudioUnitType_Generator {
        Some(AudioUnitType::Generator)
    } else if v == kAudioUnitType_OfflineEffect {
        Some(AudioUnitType::OfflineEffect)
    } else if v == kAudioUnitType_MIDIProcessor {
        Some(AudioUnitType::MIDIProcessor)
    } else {
        None
    }
}

impl AudioUnitType {
    /// The packed code in the native interface.
    pub fn raw(self) -> (r: u32)
        ensures
            r == unit_type_code(self),
    {
        match self {
            AudioUnitType::Output => kAudioUnitType_Output,
            AudioUnitType::MusicDevice => kAudioUnitType_MusicDevice,
            AudioUnitType::MusicEffect => kAudioUnitType_MusicEffect,
            AudioUnitType::FormatConverter => kAudioUnitType_FormatConverter,
            AudioUnitType::Effect => kAudioUnitType_Effect,
            AudioUnitType::Mixer => kAudioUnitType_Mixer,
            AudioUnitType::Panner => kAudioUnitType_Panner,
            AudioUnitType::Generator => kAudioUnitType_Generator,
            AudioUnitType::OfflineEffect => kAudioUnitType_OfflineEffect,
            AudioUnitType::MIDIProcessor => kAudioUnitType_MIDIProcessor,
        }
    }

    /// The unit_type a packed code stands for; `None` on an unknown code.
    pub fn from_raw(v: u32) -> (r: Option<AudioUnitType>)
        ensures
            r == unit_type_from_code(v),
    {
        if v == kAudioUnitType_Output {
            Some(AudioUnitType::Output)
        } else if v == kAudioUnitType_MusicDevice {
            Some(AudioUnitType::MusicDevice)
        } else if v == kAudioUnitType_MusicEffect {
            Some(AudioUnitType::MusicEffect)
        } else if v == kAudioUnitType_FormatConverter {
            Some(AudioUnitType::FormatConverter)
        } else if v == kAudioUnitType_Effect {
            Some(AudioUnitType::Effect)
        } else if v == kAudioUnitType_Mixer {
            Some(AudioUnitType::Mixer)
        } else if v == kAudioUnitType_Panner {
            Some(AudioUnitType::Panner)
        } else if v == kAudioUnitType_Generator {
            Some(AudioUnitType::Generator)
        } else if v == kAudioUnitType_OfflineEffect {
            Some(AudioUnitType::OfflineEffect)
        } else if v == kAudioUnitType_MIDIProcessor {
            Some(AudioUnitType::MIDIProcessor)
        } else {
            None
        }
    }
}

/// The packed code of a manufacturer in the native interface.
pub open spec fn manufacturer_code(s: AudioUnitManufacturer) -> u32 {
    match s {
        AudioUnitManufacturer::Apple => kAudioUnitManufacturer_Apple,
    }
}

/// The manufacturer a packed code stands for, if any.
pub open spec fn manufacturer_from_code(v: u32) -> Option<AudioUnitManufacturer> {
    if v == kAudioUnitManufacturer_Apple {
        Some(AudioUnitManufacturer::Apple)
    } else {
        None
    }
}

impl AudioUnitManufacturer {
    /// The packed code in the native interface.
    pub fn raw(self) -> (r: u32)
        ensures
            r == manufacturer_code(self),
    {
        match self {
            AudioUnitManufacturer::Apple => kAudioUnitManufacturer_Apple,
        }
    }

    /// The manufacturer a packed code stands for; `None` on an unknown code.
    pub fn from_raw(v: u32) -> (r: Option<AudioUnitManufacturer>)
        ensures
            r == manufacturer_from_code(v),
    {
        if v == kAudioUnitManufacturer_Apple {
            Some(AudioUnitManufacturer::Apple)
        } else {
            None
        }
    }
}

/// The packed code of a sub_type in the native interface.
pub open spec fn sub_type_code(s: AudioUnitSubType) -> u32 {
    match s {
        AudioUnitSubType::GenericOutput => kAudioUnitSubType_GenericOutput,
        AudioUnitSubType::VoiceProcessingIO => kAudioUnitSubType_VoiceProcessingIO,
        AudioUnitSubType::HALOutput => kAudioUnitSubType_HALOutput,
        AudioUnitSubType::DefaultOutput => kAudioUnitSubType_DefaultOutput,
        AudioUnitSubType::SystemOutput => kAudioUnitSubType_SystemOutput,
        AudioUnitSubType::DLSSynth => kAudioUnitSubType_DLSSynth,
        AudioUnitSubType::Sampler => kAudioUnitSubType_Sampler,
        AudioUnitSubType::MIDISynth => kAudioUnitSubType_MIDISynth,
        AudioUnitSubType::AUConverter => kAudioUnitSubType_AUConverter,
        AudioUnitSubType::Varispeed => kAudioUnitSubType_Varispeed,
        AudioUnitSubType::DeferredRenderer => kAudioUnitSubType_DeferredRenderer,
        AudioUnitSubType::Splitter => kAudioUnitSubType_Splitter,
        AudioUnitSubType::MultiSplitter => kAudioUnitSubType_MultiSplitter,
        AudioUnitSubType::Merger => kAudioUnitSubType_Merger,
        AudioUnitSubType::NewTimePitch => kAudioUnitSubType_NewTimePitch,
        AudioUnitSubType::AUiPodTimeOther => kAudioUnitSubType_AUiPodTimeOther,
        AudioUnitSubType::RoundTripAAC => kAudioUnitSubType_RoundTripAAC,
        AudioUnitSubType::TimePitch => kAudioUnitSubType_TimePitch,
        AudioUnitSubType::PeakLimiter => kAudioUnitSubType_PeakLimiter,
        AudioUnitSubType::DynamicsProcessor => kAudioUnitSubType_DynamicsProcessor,
        AudioUnitSubType::LowPassFilter => kAudioUnitSubType_LowPassFilter,
        AudioUnitSubType::HighPassFilter => kAudioUnitSubType_HighPassFilter,
        AudioUnitSubType::BandPassFilter => kAudioUnitSubType_BandPassFilter,
        AudioUnitSubType::HighShelfFilter => kAudioUnitSubType_HighShelfFilter,
        AudioUnitSubType::LowShelfFilter => kAudioUnitSubType_LowShelfFilter,
        AudioUnitSubType::ParametricEQ => kAudioUnitSubType_ParametricEQ,
        AudioUnitSubType::Distortion => kAudioUnitSubType_Distortion,
        AudioUnitSubType::Delay => kAudioUnitSubType_Delay,
        AudioUnitSubType::SampleDelay => kAudioUnitSubType_SampleDelay,
        AudioUnitSubType::NBandEQ => kAudioUnitSubType_NBandEQ,
        AudioUnitSubType::GraphicEQ => kAudioUnitSubType_GraphicEQ,
        AudioUnitSubType::MultiBandCompressor => kAudioUnitSubType_MultiBandCompressor,
        AudioUnitSubType::MatrixReverb => kAudioUnitSubType_MatrixReverb,
        AudioUnitSubType::Pitch => kAudioUnitSubType_Pitch,
        AudioUnitSubType::AUFilter => kAudioUnitSubType_AUFilter,
        AudioUnitSubType::NetSend => kAudioUnitSubType_NetSend,
        AudioUnitSubType::RogerBeep => kAudioUnitSubType_RogerBeep,
        AudioUnitSubType::MultiChannelMixer => kAudioUnitSubType_MultiChannelMixer,
        AudioUnitSubType::MatrixMixer => kAudioUnitSubType_MatrixMixer,
        AudioUnitSubType::SpatialMixer => kAudioUnitSubType_SpatialMixer,
        AudioUnitSubType::StereoMixer => kAudioUnitSubType_StereoMixer,
        AudioUnitSubType::_3DMixer => kAudioUnitSubType_3DMixer,
        AudioUnitSubType::SphericalHeadPanner => kAudioUnitSubType_SphericalHeadPanner,
        AudioUnitSubType::VectorPanner => kAudioUnitSubType_VectorPanner,
        AudioUnitSubType::SoundFieldPanner => kAudioUnitSubType_SoundFieldPanner,
        AudioUnitSubType::HRTFPanner => kAudioUnitSubType_HRTFPanner,
        AudioUnitSubType::NetReceive => kAudioUnitSubType_NetReceive,
        AudioUnitSubType::ScheduledSoundPlayer => kAudioUnitSubType_ScheduledSoundPlayer,
        AudioUnitSubType::AudioFilePlayer => kAudioUnitSubType_AudioFilePlayer,
    }
}

/// The sub_type a packed code stands for, if any.
pub open spec fn sub_type_from_code(v: u32) -> Option<AudioUnitSubType> {
    if v == kAudioUnitSubType_GenericOutput {
        Some(AudioUnitSubType::GenericOutput)
    } else if v == kAudioUnitSubType_VoiceProcessingIO {
        Some(AudioUnitSubType::VoiceProcessingIO)
    } else if v == kAudioUnitSubType_HALOutput {
        Some(AudioUnitSubType::HALOutput)
    } else if v == kAudioUnitSubType_DefaultOutput {
        Some(AudioUnitSubType::DefaultOutput)
    } else if v == kAudioUnitSubType_SystemOutput {
        Some(AudioUnitSubType::SystemOutput)
    } else if v == kAudioUnitSubType_DLSSynth {
        Some(AudioUnitSubType::DLSSynth)
    } else if v == kAudioUnitSubType_Sampler {
        Some(AudioUnitSubType::Sampler)
    } else if v == kAudioUnitSubType_MIDISynth {
        Some(AudioUnitSubType::MIDISynth)
    } else if v == kAudioUnitSubType_AUConverter {
        Some(AudioUnitSubType::AUConverter)
    } else if v == kAudioUnitSubType_Varispeed {
        Some(AudioUnitSubType::Varispeed)
    } else if v == kAudioUnitSubType_DeferredRenderer {
        Some(AudioUnitSubType::DeferredRenderer)
    } else if v == kAudioUnitSubType_Splitter {
        Some(AudioUnitSubType::Splitter)
    } else if v == kAudioUnitSubType_MultiSplitter {
        Some(AudioUnitSubType::MultiSplitter)
    } else if v == kAudioUnitSubType_Merger {
        Some(AudioUnitSubType::Merger)
    } else if v == kAudioUnitSubType_NewTimePitch {
        Some(AudioUnitSubType::NewTimePitch)
    } else if v == kAudioUnitSubType_AUiPodTimeOther {
        Some(AudioUnitSubType::AUiPodTimeOther)
    } else if v == kAudioUnitSubType_RoundTripAAC {
        Some(AudioUnitSubType::RoundTripAAC)
    } else if v == kAudioUnitSubType_PeakLimiter {
        Some(AudioUnitSubType::PeakLimiter)
    } else if v == kAudioUnitSubType_DynamicsProcessor {
        Some(AudioUnitSubType::DynamicsProcessor)
    } else if v == kAudioUnitSubType_LowPassFilter {
        Some(AudioUnitSubType::LowPassFilter)
    } else if v == kAudioUnitSubType_HighPassFilter {
        Some(AudioUnitSubType::HighPassFilter)
    } else if v == kAudioUnitSubType_BandPassFilter {
        Some(AudioUnitSubType::BandPassFilter)
    } else if v == kAudioUnitSubType_HighShelfFilter {
        Some(AudioUnitSubType::HighShelfFilter)
    } else if v == kAudioUnitSubType_LowShelfFilter {
        Some(AudioUnitSubType::LowShelfFilter)
    } else if v == kAudioUnitSubType_ParametricEQ {
        Some(AudioUnitSubType::ParametricEQ)
    } else if v == kAudioUnitSubType_Distortion {
        Some(AudioUnitSubType::Distortion)
    } else if v == kAudioUnitSubType_Delay {
        Some(AudioUnitSubType::Delay)
    } else if v == kAudioUnitSubType_SampleDelay {
        Some(AudioUnitSubType::SampleDelay)
    } else if v == kAudioUnitSubType_NBandEQ {
        Some(AudioUnitSubType::NBandEQ)
    } else if v == kAudioUnitSubType_GraphicEQ {
        Some(AudioUnitSubType::GraphicEQ)
    } else if v == kAudioUnitSubType_MultiBandCompressor {
        Some(AudioUnitSubType::MultiBandCompressor)
    } else if v == kAudioUnitSubType_MatrixReverb {
        Some(AudioUnitSubType::MatrixReverb)
    } else if v == kAudioUnitSubType_Pitch {
        Some(AudioUnitSubType::Pitch)
    } else if v == kAudioUnitSubType_AUFilter {
        Some(AudioUnitSubType::AUFilter)
    } else if v == kAudioUnitSubType_NetSend {
        Some(AudioUnitSubType::NetSend)
    } else if v == kAudioUnitSubType_RogerBeep {
        Some(AudioUnitSubType::RogerBeep)
    } else if v == kAudioUnitSubType_MultiChannelMixer {
        Some(AudioUnitSubType::MultiChannelMixer)
    } else if v == kAudioUnitSubType_MatrixMixer {
        Some(AudioUnitSubType::MatrixMixer)
    } else if v == kAudioUnitSubType_SpatialMixer {
        Some(AudioUnitSubType::SpatialMixer)
    } else if v == kAudioUnitSubType_StereoMixer {
        Some(AudioUnitSubType::StereoMixer)
    } else if v == kAudioUnitSubType_3DMixer {
        Some(AudioUnitSubType::_3DMixer)
    } else if v == kAudioUnitSubType_SphericalHeadPanner {
        Some(AudioUnitSubType::SphericalHeadPanner)
    } else if v == kAudioUnitSubType_VectorPanner {
        Some(AudioUnitSubType::VectorPanner)
    } else if v == kAudioUnitSubType_SoundFieldPanner {
        Some(AudioUnitSubType::SoundFieldPanner)
    } else if v == kAudioUnitSubType_HRTFPanner {
        Some(AudioUnitSubType::HRTFPanner)
    } else if v == kAudioUnitSubType_NetReceive {
        Some(AudioUnitSubType::NetReceive)
    } else if v == kAudioUnitSubType_ScheduledSoundPlayer {
        Some(AudioUnitSubType::ScheduledSoundPlayer)
    } else if v == kAudioUnitSubType_AudioFilePlayer {
        Some(AudioUnitSubType::AudioFilePlayer)
    } else {
        None
    }
}

impl AudioUnitSubType {
    /// The packed code in the native interface.
    pub fn raw(self) -> (r: u32)
        ensures
            r == sub_type_code(self),
    {
        match self {
            AudioUnitSubType::GenericOutput => kAudioUnitSubType_GenericOutput,
            AudioUnitSubType::VoiceProcessingIO => kAudioUnitSubType_VoiceProcessingIO,
            AudioUnitSubType::HALOutput => kAudioUnitSubType_HALOutput,
            AudioUnitSubType::DefaultOutput => kAudioUnitSubType_DefaultOutput,
            AudioUnitSubType::SystemOutput => kAudioUnitSubType_SystemOutput,
            AudioUnitSubType::DLSSynth => kAudioUnitSubType_DLSSynth,
            AudioUnitSubType::Sampler => kAudioUnitSubType_Sampler,
            AudioUnitSubType::MIDISynth => kAudioUnitSubType_MIDISynth,
            AudioUnitSubType::AUConverter => kAudioUnitSubType_AUConverter,
            AudioUnitSubType::Varispeed => kAudioUnitSubType_Varispeed,
            AudioUnitSubType::DeferredRenderer => kAudioUnitSubType_DeferredRenderer,
            AudioUnitSubType::Splitter => kAudioUnitSubType_Splitter,
            AudioUnitSubType::MultiSplitter => kAudioUnitSubType_MultiSplitter,
            AudioUnitSubType::Merger => kAudioUnitSubType_Merger,
            AudioUnitSubType::NewTimePitch => kAudioUnitSubType_NewTimePitch,
            AudioUnitSubType::AUiPodTimeOther => kAudioUnitSubType_AUiPodTimeOther,
            AudioUnitSubType::RoundTripAAC => kAudioUnitSubType_RoundTripAAC,
            AudioUnitSubType::TimePitch => kAudioUnitSubType_TimePitch,
            AudioUnitSubType::PeakLimiter => kAudioUnitSubType_PeakLimiter,
            AudioUnitSubType::DynamicsProcessor => kAudioUnitSubType_DynamicsProcessor,
            AudioUnitSubType::LowPassFilter => kAudioUnitSubType_LowPassFilter,
            AudioUnitSubType::HighPassFilter => kAudioUnitSubType_HighPassFilter,
            AudioUnitSubType::BandPassFilter => kAudioUnitSubType_BandPassFilter,
            AudioUnitSubType::HighShelfFilter => kAudioUnitSubType_HighShelfFilter,
            AudioUnitSubType::LowShelfFilter => kAudioUnitSubType_LowShelfFilter,
            AudioUnitSubType::ParametricEQ => kAudioUnitSubType_ParametricEQ,
            AudioUnitSubType::Distortion => kAudioUnitSubType_Distortion,
            AudioUnitSubType::Delay => kAudioUnitSubType_Delay,
            AudioUnitSubType::SampleDelay => kAudioUnitSubType_SampleDelay,
            AudioUnitSubType::NBandEQ => kAudioUnitSubType_NBandEQ,
            AudioUnitSubType::GraphicEQ => kAudioUnitSubType_GraphicEQ,
            AudioUnitSubType::MultiBandCompressor => kAudioUnitSubType_MultiBandCompressor,
            AudioUnitSubType::MatrixReverb => kAudioUnitSubType_MatrixReverb,
            AudioUnitSubType::Pitch => kAudioUnitSubType_Pitch,
            AudioUnitSubType::AUFilter => kAudioUnitSubType_AUFilter,
            AudioUnitSubType::NetSend => kAudioUnitSubType_NetSend,
            AudioUnitSubType::RogerBeep => kAudioUnitSubType_RogerBeep,
            AudioUnitSubType::MultiChannelMixer => kAudioUnitSubType_MultiChannelMixer,
            AudioUnitSubType::MatrixMixer => kAudioUnitSubType_MatrixMixer,
            AudioUnitSubType::SpatialMixer => kAudioUnitSubType_SpatialMixer,
            AudioUnitSubType::StereoMixer => kAudioUnitSubType_StereoMixer,
            AudioUnitSubType::_3DMixer => kAudioUnitSubType_3DMixer,
            AudioUnitSubType::SphericalHeadPanner => kAudioUnitSubType_SphericalHeadPanner,
            AudioUnitSubType::VectorPanner => kAudioUnitSubType_VectorPanner,
            AudioUnitSubType::SoundFieldPanner => kAudioUnitSubType_SoundFieldPanner,
            AudioUnitSubType::HRTFPanner => kAudioUnitSubType_HRTFPanner,
            AudioUnitSubType::NetReceive => kAudioUnitSubType_NetReceive,
            AudioUnitSubType::ScheduledSoundPlayer => kAudioUnitSubType_ScheduledSoundPlayer,
            AudioUnitSubType::AudioFilePlayer => kAudioUnitSubType_AudioFilePlayer,
        }
    }

    /// The sub_type a packed code stands for; `None` on an unknown code.
    pub fn from_raw(v: u32) -> (r: Option<AudioUnitSubType>)
        ensures
            r == sub_type_from_code(v),
    {
        if v == kAudioUnitSubType_GenericOutput {
            Some(AudioUnitSubType::GenericOutput)
        } else if v == kAudioUnitSubType_VoiceProcessingIO {
            Some(AudioUnitSubType::VoiceProcessingIO)
        } else if v == kAudioUnitSubType_HALOutput {
            Some(AudioUnitSubType::HALOutput)
        } else if v == kAudioUnitSubType_DefaultOutput {
            Some(AudioUnitSubType::DefaultOutput)
        } else if v == kAudioUnitSubType_SystemOutput {
            Some(AudioUnitSubType::SystemOutput)
        } else if v == kAudioUnitSubType_DLSSynth {
            Some(AudioUnitSubType::DLSSynth)
        } else if v == kAudioUnitSubType_Sampler {
            Some(AudioUnitSubType::Sampler)
        } else if v == kAudioUnitSubType_MIDISynth {
            Some(AudioUnitSubType::MIDISynth)
        } else if v == kAudioUnitSubType_AUConverter {
            Some(AudioUnitSubType::AUConverter)
        } else if v == kAudioUnitSubType_Varispeed {
            Some(AudioUnitSubType::Varispeed)
        } else if v == kAudioUnitSubType_DeferredRenderer {
            Some(AudioUnitSubType::DeferredRenderer)
        } else if v == kAudioUnitSubType_Splitter {
            Some(AudioUnitSubType::Splitter)
        } else if v == kAudioUnitSubType_MultiSplitter {
            Some(AudioUnitSubType::MultiSplitter)
        } else if v == kAudioUnitSubType_Merger {
            Some(AudioUnitSubType::Merger)
        } else if v == kAudioUnitSubType_NewTimePitch {
            Some(AudioUnitSubType::NewTimePitch)
        } else if v == kAudioUnitSubType_AUiPodTimeOther {
            Some(AudioUnitSubType::AUiPodTimeOther)
        } else if v == kAudioUnitSubType_RoundTripAAC {
            Some(AudioUnitSubType::RoundTripAAC)
        } else if v == kAudioUnitSubType_PeakLimiter {
            Some(AudioUnitSubType::PeakLimiter)
        } else if v == kAudioUnitSubType_DynamicsProcessor {
            Some(AudioUnitSubType::DynamicsProcessor)
        } else if v == kAudioUnitSubType_LowPassFilter {
            Some(AudioUnitSubType::LowPassFilter)
        } else if v == kAudioUnitSubType_HighPassFilter {
            Some(AudioUnitSubType::HighPassFilter)
        } else if v == kAudioUnitSubType_BandPassFilter {
            Some(AudioUnitSubType::BandPassFilter)
        } else if v == kAudioUnitSubType_HighShelfFilter {
            Some(AudioUnitSubType::HighShelfFilter)
        } else if v == kAudioUnitSubType_LowShelfFilter {
            Some(AudioUnitSubType::LowShelfFilter)
        } else if v == kAudioUnitSubType_ParametricEQ {
            Some(AudioUnitSubType::ParametricEQ)
        } else if v == kAudioUnitSubType_Distortion {
            Some(AudioUnitSubType::Distortion)
        } else if v == kAudioUnitSubType_Delay {
            Some(AudioUnitSubType::Delay)
        } else if v == kAudioUnitSubType_SampleDelay {
            Some(AudioUnitSubType::SampleDelay)
        } else if v == kAudioUnitSubType_NBandEQ {
            Some(AudioUnitSubType::NBandEQ)
        } else if v == kAudioUnitSubType_GraphicEQ {
            Some(AudioUnitSubType::GraphicEQ)
        } else if v == kAudioUnitSubType_MultiBandCompressor {
            Some(AudioUnitSubType::MultiBandCompressor)
        } else if v == kAudioUnitSubType_MatrixReverb {
            Some(AudioUnitSubType::MatrixReverb)
        } else if v == kAudioUnitSubType_Pitch {
            Some(AudioUnitSubType::Pitch)
        } else if v == kAudioUnitSubType_AUFilter {
            Some(AudioUnitSubType::AUFilter)
        } else if v == kAudioUnitSubType_NetSend {
            Some(AudioUnitSubType::NetSend)
        } else if v == kAudioUnitSubType_RogerBeep {
            Some(AudioUnitSubType::RogerBeep)
        } else if v == kAudioUnitSubType_MultiChannelMixer {
            Some(AudioUnitSubType::MultiChannelMixer)
        } else if v == kAudioUnitSubType_MatrixMixer {
            Some(AudioUnitSubType::MatrixMixer)
        } else if v == kAudioUnitSubType_SpatialMixer {
            Some(AudioUnitSubType::SpatialMixer)
        } else if v == kAudioUnitSubType_StereoMixer {
            Some(AudioUnitSubType::StereoMixer)
        } else if v == kAudioUnitSubType_3DMixer {
            Some(AudioUnitSubType::_3DMixer)
        } else if v == kAudioUnitSubType_SphericalHeadPanner {
            Some(AudioUnitSubType::SphericalHeadPanner)
        } else if v == kAudioUnitSubType_VectorPanner {
            Some(AudioUnitSubType::VectorPanner)
        } else if v == kAudioUnitSubType_SoundFieldPanner {
            Some(AudioUnitSubType::SoundFieldPanner)
        } else if v == kAudioUnitSubType_HRTFPanner {
            Some(AudioUnitSubType::HRTFPanner)
        } else if v == kAudioUnitSubType_NetReceive {
            Some(AudioUnitSubType::NetReceive)
        } else if v == kAudioUnitSubType_ScheduledSoundPlayer {
            Some(AudioUnitSubType::ScheduledSoundPlayer)
        } else if v == kAudioUnitSubType_AudioFilePlayer {
            Some(AudioUnitSubType::AudioFilePlayer)
        } else {
            None
        }
    }
}

/// A unit type's code always maps back to the same unit type.
pub proof fn lemma_unit_type_code_roundtrip(s: AudioUnitType)
    ensures
        unit_type_from_code(unit_type_code(s)) == Some(s),
{
}

/// A manufacturer's code always maps back to the same manufacturer.
pub proof fn lemma_manufacturer_code_roundtrip(s: AudioUnitManufacturer)
    ensures
        manufacturer_from_code(manufacturer_code(s)) == Some(s),
{
}

/// A sub-kind's code maps back to the same sub-kind, except that the
/// retired time-pitch tag shares its code with the pitch unit and decodes
/// to the latter.
pub proof fn lemma_sub_type_code_roundtrip(s: AudioUnitSubType)
    requires
        s != AudioUnitSubType::TimePitch,
    ensures
        sub_type_from_code(sub_type_code(s)) == Some(s),
{
}

} // verus!
