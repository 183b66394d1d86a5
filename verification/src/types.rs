//! Fixed-layout records of the native interface, modelled with plain
//! values.
//!
//! The native records carry handles and foreign string references; here a
//! handle is carried as its 64-bit token and a string reference as an owned
//! string, so the records can be built, compared and reasoned about without
//! the native framework.

use vstd::prelude::*;

verus! {

/// A parameter address bound to a unit: the unit's handle token with the
/// parameter's identifier, scope and element.
#[derive(Clone, Copy, Debug, PartialEq, Eq, Structural)]
pub struct AudioUnitParameter {
    pub m_audio_unit: u64,
    pub m_parameter_id: u32,
    pub m_scope: u32,
    pub m_element: u32,
}

impl Default for AudioUnitParameter {
    /// The all-zero record, as the native interface zero-fills it.
    fn default() -> (r: Self)
        ensures
            r.m_audio_unit == 0,
            r.m_parameter_id == 0,
            r.m_scope == 0,
            r.m_element == 0,
    {
        AudioUnitParameter { m_audio_unit: 0, m_parameter_id: 0, m_scope: 0, m_element: 0 }
    }
}

/// A property address bound to a unit: the unit's handle token with the
/// property's identifier, scope and element.
#[derive(Clone, Copy, Debug, PartialEq, Eq, Structural)]
pub struct AudioUnitProperty {
    pub m_audio_unit: u64,
    pub m_property_id: u32,
    pub m_scope: u32,
    pub m_element: u32,
}

impl Default for AudioUnitProperty {
    /// The all-zero record, as the native interface zero-fills it.
    fn default() -> (r: Self)
        ensures
            r.m_audio_unit == 0,
            r.m_property_id == 0,
            r.m_scope == 0,
            r.m_element == 0,
    {
        AudioUnitProperty { m_audio_unit: 0, m_property_id: 0, m_scope: 0, m_element: 0 }
    }
}

/// A connection from one unit's output bus into another unit's input bus.
#[derive(Clone, Copy, Debug, PartialEq, Eq, Structural)]
pub struct AudioUnitConnection {
    pub source_audio_unit: u64,
    pub source_output_number: u32,
    pub dest_input_number: u32,
}

impl Default for AudioUnitConnection {
    /// The all-zero record, as the native interface zero-fills it.
    fn default() -> (r: Self)
        ensures
            r.source_audio_unit == 0,
            r.source_output_number == 0,
            r.dest_input_number == 0,
    {
        AudioUnitConnection { source_audio_unit: 0, source_output_number: 0, dest_input_number: 0 }
    }
}

/// One supported channel configuration: input and output channel counts,
/// where a negative count means any number.
#[derive(Clone, Copy, Debug, PartialEq, Eq, Structural)]
pub struct AUChannelInfo {
    pub in_channels: i16,
    pub out_channels: i16,
}

impl Default for AUChannelInfo {
    /// The all-zero record, as the native interface zero-fills it.
    fn default() -> (r: Self)
        ensures
            r.in_channels == 0,
            r.out_channels == 0,
    {
        AUChannelInfo { in_channels: 0, out_channels: 0 }
    }
}

/// A parameter another parameter depends on.
#[derive(Clone, Copy, Debug, PartialEq, Eq, Structural)]
pub struct AUDependentParameter {
    pub m_scope: u32,
    pub m_parameter_id: u32,
}

impl Default for AUDependentParameter {
    /// The all-zero record, as the native interface zero-fills it.
    fn default() -> (r: Self)
        ensures
            r.m_scope == 0,
            r.m_parameter_id == 0,
    {
        AUDependentParameter { m_scope: 0, m_parameter_id: 0 }
    }
}

/// A request for a parameter's abbreviated name: the parameter, the desired
/// length, and the engine's answer once filled in.
#[derive(Clone, Debug, PartialEq, Eq)]
pub struct AudioUnitParameterNameInfo {
    pub in_id: u32,
    pub in_desired_length: i32,
    pub out_name: Option<String>,
}

/// The host naming itself to a unit: its name and packed version.
#[derive(Clone, Debug, PartialEq, Eq)]
pub struct AUHostVersionIdentifier {
    pub host_name: String,
    pub host_version: u32,
}

/// One stored setting of a preset in the interchange bank format: whether
/// it is a stock setting, its identifier, and its raw bytes.
#[derive(Clone, Debug, PartialEq, Eq)]
pub struct AudioUnitPresetMAS_SettingData {
    pub is_stock_setting: u32,
    pub setting_id: u32,
    pub data: Vec<u8>,
}

/// A preset in the interchange bank format: its identity and its settings.
#[derive(Clone, Debug, PartialEq, Eq)]
pub struct AudioUnitPresetMAS_Settings {
    pub manufacturer_id: u32,
    pub effect_id: u32,
    pub variant_id: u32,
    pub settings_version: u32,
    pub settings: Vec<AudioUnitPresetMAS_SettingData>,
}

/// An instrument for a sampler unit to load: where it lives and which bank
/// and preset to pick.
#[derive(Clone, Debug, PartialEq, Eq)]
pub struct AUSamplerInstrumentData {
    pub file_url: String,
    pub instrument_type: u8,
    pub bank_msb: u8,
    pub bank_lsb: u8,
    pub preset_id: u8,
}

/// A bank preset for a sampler unit to load.
#[derive(Clone, Debug, PartialEq, Eq)]
pub struct AUSamplerBankPresetData {
    pub bank_url: String,
    pub bank_msb: u8,
    pub bank_lsb: u8,
    pub preset_id: u8,
}

} // verus!
