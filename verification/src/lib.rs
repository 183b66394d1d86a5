//! A safe, verified modelling layer for an audio plugin toolbox.
//!
//! The crate mirrors the two layers of a native audio plugin framework: a
//! data layer (component descriptions, four-character type tags, status
//! codes, fixed-layout records) and a behaviour layer (component discovery,
//! typed property access, callback registration and dispatch).  The native
//! engine itself is an opaque collaborator; its observable behaviour is
//! modelled by [`engine::StubEngine`] and the unit model of [`unit`],
//! against which every operation in this crate is specified and proved, and
//! which double as the deterministic engine the tests run against.

#![allow(non_upper_case_globals)]
#![allow(non_camel_case_types)]

pub mod bridge;
pub mod component;
pub mod engine;
pub mod error;
pub mod flags;
pub mod fourcc;
pub mod kinds;
pub mod output_unit;
pub mod scope;
pub mod types;
pub mod unit;

pub use bridge::{CallbackHandle, CallbackRegistry, RenderEvent, RenderOutcome};
pub use component::{
    find_all, AudioComponent, AudioComponentDescription, AudioComponentInstance,
    AudioComponentIter,
};
pub use engine::{ComponentEntry, StubEngine};
pub use error::{cvt_r, Error};
pub use flags::AudioUnitRenderActionFlags;
pub use fourcc::{format_ostype, pack_fourcc, unpack_fourcc};
pub use kinds::{AudioUnitManufacturer, AudioUnitSubType, AudioUnitType};
pub use output_unit::{AudioDevice, AudioOutputUnit, AudioOutputUnitSubType};
pub use scope::AudioUnitScope;
pub use types::{
    AUChannelInfo, AUDependentParameter, AUHostVersionIdentifier, AUSamplerBankPresetData,
    AUSamplerInstrumentData, AudioUnitConnection, AudioUnitParameter,
    AudioUnitParameterNameInfo, AudioUnitPresetMAS_SettingData, AudioUnitPresetMAS_Settings,
    AudioUnitProperty,
};
pub use unit::{AudioUnit, PropertyRecord};
