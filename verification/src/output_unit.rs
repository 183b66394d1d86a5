//! Output units.
//!
//! An output unit is a unit whose properties steer a device-facing side:
//! whether it runs, which device it addresses, which channels it maps, and
//! how its timestamps start.  Each accessor below is a typed read or write
//! of one such property, addressed in the global scope unless the operation
//! itself is scoped.

use vstd::prelude::*;

use crate::component::AudioComponentInstance;
use crate::error::{kAudioUnitErr_Uninitialized, Error};
use crate::kinds::{
    kAudioUnitSubType_DefaultOutput, kAudioUnitSubType_GenericOutput, kAudioUnitSubType_HALOutput,
    kAudioUnitSubType_SystemOutput, kAudioUnitSubType_VoiceProcessingIO,
};
use crate::scope::{scope_code, AudioUnitScope};
use crate::unit::{u32_le_seq, u64_le_seq, AudioUnit};

verus! {

pub const kAudioOutputUnitProperty_CurrentDevice: u32 = 2000;

pub const kAudioOutputUnitProperty_IsRunning: u32 = 2001;

pub const kAudioOutputUnitProperty_ChannelMap: u32 = 2002;

pub const kAudioOutputUnitProperty_EnableIO: u32 = 2003;

pub const kAudioOutputUnitProperty_StartTime: u32 = 2004;

pub const kAudioOutputUnitProperty_SetInputCallback: u32 = 2005;

pub const kAudioOutputUnitProperty_HasIO: u32 = 2006;

pub const kAudioOutputUnitProperty_StartTimestampsAtZero: u32 = 2007;

pub const kAudioOutputUnitRange: u32 = 512;

pub const kAudioOutputUnitStartSelect: u32 = 513;

pub const kAudioOutputUnitStopSelect: u32 = 514;

/// The concrete output unit within the output kind.
#[derive(Clone, Copy, Debug, PartialEq, Eq, Structural)]
pub enum AudioOutputUnitSubType {
    Generic,
    VoiceProcessing,
    HAL,
    Default,
    System,
}

/// The packed subtype code of an output unit in the native interface.
pub open spec fn output_sub_type_code(s: AudioOutputUnitSubType) -> u32 {
    match s {
        AudioOutputUnitSubType::Generic => kAudioUnitSubType_GenericOutput,
        AudioOutputUnitSubType::VoiceProcessing => kAudioUnitSubType_VoiceProcessingIO,
        AudioOutputUnitSubType::HAL => kAudioUnitSubType_HALOutput,
        AudioOutputUnitSubType::Default => kAudioUnitSubType_DefaultOutput,
        AudioOutputUnitSubType::System => kAudioUnitSubType_SystemOutput,
    }
}

impl AudioOutputUnitSubType {
    /// The packed subtype code in the native interface.
    pub fn raw(self) -> (r: u32)
        ensures
            r == output_sub_type_code(self),
    {
        match self {
            AudioOutputUnitSubType::Generic => kAudioUnitSubType_GenericOutput,
            AudioOutputUnitSubType::VoiceProcessing => kAudioUnitSubType_VoiceProcessingIO,
            AudioOutputUnitSubType::HAL => kAudioUnitSubType_HALOutput,
            AudioOutputUnitSubType::Default => kAudioUnitSubType_DefaultOutput,
            AudioOutputUnitSubType::System => kAudioUnitSubType_SystemOutput,
        }
    }
}

/// A handle naming an audio device of the host.
#[derive(Clone, Copy, Debug, PartialEq, Eq, Structural)]
pub struct AudioDevice(pub u64);

/// An output unit: the unit it was instantiated as.
#[derive(Debug)]
pub struct AudioOutputUnit {
    pub unit: AudioUnit,
}

impl From<AudioComponentInstance> for AudioOutputUnit {
    fn from(ci: AudioComponentInstance) -> Self {
        AudioOutputUnit { unit: ci.unit }
    }
}

impl vstd::std_specs::convert::FromSpecImpl<AudioComponentInstance> for AudioOutputUnit {
    open spec fn obeys_from_spec() -> bool {
        true
    }

    open spec fn from_spec(ci: AudioComponentInstance) -> Self {
        AudioOutputUnit { unit: ci.unit }
    }
}

/// The global-scope element zero address every output-unit property below
/// uses unless the operation itself is scoped.
pub open spec fn global_code() -> u32 {
    scope_code(AudioUnitScope::Global)
}

/// The element a scoped input/output property lives on: the input side on
/// element one, every other side on element zero.
pub open spec fn io_element(scope: AudioUnitScope) -> u32 {
    if scope == AudioUnitScope::Input {
        1
    } else {
        0
    }
}

impl AudioOutputUnit {
    /// The unit's well-formedness.
    pub open spec fn wf(self) -> bool {
        self.unit.wf()
    }

    /// Whether the engine has this output unit running.
    ///
    /// Reads the is-running property as a 32-bit value; any nonzero value
    /// means running.
    pub fn is_running(&self) -> (r: Result<bool, Error>)
        requires
            self.wf(),
        ensures
            crate::unit::read_bool_outcome(
                self.unit,
                kAudioOutputUnitProperty_IsRunning,
                global_code(),
                0,
                r,
            ),
    {
        match self.unit.get_property_u32(
            kAudioOutputUnitProperty_IsRunning,
            AudioUnitScope::Global,
            0,
        ) {
            Ok(v) => Ok(v != 0),
            Err(e) => Err(e),
        }
    }

    /// Starts the output unit.  The engine demands an initialized unit;
    /// once running, it records the fact in the is-running property, where
    /// the unit's table holds one.
    pub fn start(&mut self) -> (r: Result<(), Error>)
        requires
            old(self).wf(),
        ensures
            final(self).wf(),
            !old(self).unit.initialized ==> {
                &&& r == Err::<(), Error>(Error::Engine(kAudioUnitErr_Uninitialized))
                &&& final(self).unit == old(self).unit
            },
            old(self).unit.initialized ==> {
                &&& r is Ok
                &&& final(self).unit.initialized == old(self).unit.initialized
                &&& final(self).unit.render_listeners@ == old(self).unit.render_listeners@
                &&& final(self).unit.property_listeners@ == old(self).unit.property_listeners@
                &&& running_marked(old(self).unit, final(self).unit, 1)
            },
    {
        self.mark_running(1)
    }

    /// Stops the output unit, clearing the is-running property where the
    /// unit's table holds one; the same lifecycle demand as
    /// [`AudioOutputUnit::start`].
    pub fn stop(&mut self) -> (r: Result<(), Error>)
        requires
            old(self).wf(),
        ensures
            final(self).wf(),
            !old(self).unit.initialized ==> {
                &&& r == Err::<(), Error>(Error::Engine(kAudioUnitErr_Uninitialized))
                &&& final(self).unit == old(self).unit
            },
            old(self).unit.initialized ==> {
                &&& r is Ok
                &&& final(self).unit.initialized == old(self).unit.initialized
                &&& final(self).unit.render_listeners@ == old(self).unit.render_listeners@
                &&& final(self).unit.property_listeners@ == old(self).unit.property_listeners@
                &&& running_marked(old(self).unit, final(self).unit, 0)
            },
    {
        self.mark_running(0)
    }

    /// Whether input or output is enabled on the unit.  The input side
    /// lives on element one, the output side on element zero, as the native
    /// interface lays them out.
    pub fn enable_io(&self, scope: AudioUnitScope) -> (r: Result<bool, Error>)
        requires
            self.wf(),
        ensures
            crate::unit::read_bool_outcome(
                self.unit,
                kAudioOutputUnitProperty_EnableIO,
                scope_code(scope),
                io_element(scope),
                r,
            ),
    {
        let element: u32 = if scope == AudioUnitScope::Input {
            1
        } else {
            0
        };
        match self.unit.get_property_u32(kAudioOutputUnitProperty_EnableIO, scope, element) {
            Ok(v) => Ok(v != 0),
            Err(e) => Err(e),
        }
    }

    /// Whether the unit has hardware behind the scope's side at all.
    pub fn has_io(&self, scope: AudioUnitScope) -> (r: Result<bool, Error>)
        requires
            self.wf(),
        ensures
            crate::unit::read_bool_outcome(
                self.unit,
                kAudioOutputUnitProperty_HasIO,
                scope_code(scope),
                io_element(scope),
                r,
            ),
    {
        let element: u32 = if scope == AudioUnitScope::Input {
            1
        } else {
            0
        };
        match self.unit.get_property_u32(kAudioOutputUnitProperty_HasIO, scope, element) {
            Ok(v) => Ok(v != 0),
            Err(e) => Err(e),
        }
    }

    /// Whether the unit's timestamps start at zero rather than at the
    /// device's clock.
    pub fn start_timestamps_at_zero(&self) -> (r: Result<bool, Error>)
        requires
            self.wf(),
        ensures
            crate::unit::read_bool_outcome(
                self.unit,
                kAudioOutputUnitProperty_StartTimestampsAtZero,
                global_code(),
                0,
                r,
            ),
    {
        match self.unit.get_property_u32(
            kAudioOutputUnitProperty_StartTimestampsAtZero,
            AudioUnitScope::Global,
            0,
        ) {
            Ok(v) => Ok(v != 0),
            Err(e) => Err(e),
        }
    }

    /// Enables or disables the scope's side of the unit.
    pub fn set_enable_io(&mut self, scope: AudioUnitScope, enable: bool) -> (r: Result<(), Error>)
        requires
            old(self).wf(),
        ensures
            crate::unit::write_outcome(
                old(self).unit,
                final(self).unit,
                kAudioOutputUnitProperty_EnableIO,
                scope_code(scope),
                io_element(scope),
                u32_le_seq(
                    if enable {
                        1
                    } else {
                        0
                    },
                ),
                r,
            ),
    {
        let element: u32 = if scope == AudioUnitScope::Input {
            1
        } else {
            0
        };
        let data: u32 = if enable {
            1
        } else {
            0
        };
        self.unit.set_property_u32(kAudioOutputUnitProperty_EnableIO, scope, element, data)
    }

    /// Sets whether the unit's timestamps start at zero.
    pub fn set_start_timestamps_at_zero(&mut self, enable: bool) -> (r: Result<(), Error>)
        requires
            old(self).wf(),
        ensures
            crate::unit::write_outcome(
                old(self).unit,
                final(self).unit,
                kAudioOutputUnitProperty_StartTimestampsAtZero,
                global_code(),
                0,
                u32_le_seq(
                    if enable {
                        1
                    } else {
                        0
                    },
                ),
                r,
            ),
    {
        let data: u32 = if enable {
            1
        } else {
            0
        };
        self.unit.set_property_u32(
            kAudioOutputUnitProperty_StartTimestampsAtZero,
            AudioUnitScope::Global,
            0,
            data,
        )
    }

    /// The unit's channel map: one 32-bit entry per channel of the scope's
    /// side, read whole at whatever length the engine reports.
    pub fn channel_map(&self, scope: AudioUnitScope, element: u32) -> (r: Result<Vec<i32>, Error>)
        requires
            self.wf(),
        ensures
            !self.unit.has_property(kAudioOutputUnitProperty_ChannelMap, scope_code(scope), element)
                ==> r == Err::<Vec<i32>, _>(
                Error::Engine(crate::error::kAudioUnitErr_InvalidProperty),
            ),
            self.unit.has_property(kAudioOutputUnitProperty_ChannelMap, scope_code(scope), element)
                ==> (r matches Ok(v) && v@ == crate::unit::i32s_of_le_bytes(
                self.unit.property_at(
                    kAudioOutputUnitProperty_ChannelMap,
                    scope_code(scope),
                    element,
                ).data@,
            )),
    {
        match self.unit.get_property_array(kAudioOutputUnitProperty_ChannelMap, scope, element) {
            Ok(data) => Ok(crate::unit::i32s_from_le(&data)),
            Err(e) => Err(e),
        }
    }

    /// Replaces the unit's channel map with one entry per channel.
    pub fn set_channel_map(&mut self, scope: AudioUnitScope, element: u32, data: &[i32]) -> (r:
        Result<(), Error>)
        requires
            old(self).wf(),
            data@.len() * 4 <= u32::MAX,
        ensures
            crate::unit::write_outcome(
                old(self).unit,
                final(self).unit,
                kAudioOutputUnitProperty_ChannelMap,
                scope_code(scope),
                element,
                crate::unit::le_bytes_of_i32s(data@),
                r,
            ),
    {
        let bytes = crate::unit::i32s_to_le(data);
        self.unit.set_property(
            kAudioOutputUnitProperty_ChannelMap,
            scope,
            element,
            bytes.as_slice(),
        )
    }

    /// The device the unit currently addresses.
    pub fn current_device(&self) -> (r: Result<AudioDevice, Error>)
        requires
            self.wf(),
        ensures
            crate::unit::read_u64_outcome(
                self.unit,
                kAudioOutputUnitProperty_CurrentDevice,
                global_code(),
                0,
                (match r {
                    Ok(d) => Ok(d.0),
                    Err(e) => Err(e),
                }),
            ),
    {
        match self.unit.get_property_u64(
            kAudioOutputUnitProperty_CurrentDevice,
            AudioUnitScope::Global,
            0,
        ) {
            Ok(v) => Ok(AudioDevice(v)),
            Err(e) => Err(e),
        }
    }

    /// Points the unit at another device.
    pub fn set_current_device(&mut self, device: &AudioDevice) -> (r: Result<(), Error>)
        requires
            old(self).wf(),
        ensures
            crate::unit::write_outcome(
                old(self).unit,
                final(self).unit,
                kAudioOutputUnitProperty_CurrentDevice,
                global_code(),
                0,
                u64_le_seq(device.0),
                r,
            ),
    {
        let data = crate::unit::u64_to_le(device.0);
        self.unit.set_property(
            kAudioOutputUnitProperty_CurrentDevice,
            AudioUnitScope::Global,
            0,
            data.as_slice(),
        )
    }

    /// Schedules the unit to start at a host time rather than immediately.
    pub fn set_start_time(&mut self, host_time: u64) -> (r: Result<(), Error>)
        requires
            old(self).wf(),
        ensures
            crate::unit::write_outcome(
                old(self).unit,
                final(self).unit,
                kAudioOutputUnitProperty_StartTime,
                global_code(),
                0,
                u64_le_seq(host_time),
                r,
            ),
    {
        let data = crate::unit::u64_to_le(host_time);
        self.unit.set_property(
            kAudioOutputUnitProperty_StartTime,
            AudioUnitScope::Global,
            0,
            data.as_slice(),
        )
    }

    /// The engine's transition on start or stop: the is-running record, if
    /// the table holds one, now carries `v`, and no other record moved.
    fn mark_running(&mut self, v: u32) -> (r: Result<(), Error>)
        requires
            old(self).wf(),
        ensures
            final(self).wf(),
            !old(self).unit.initialized ==> {
                &&& r == Err::<(), Error>(Error::Engine(kAudioUnitErr_Uninitialized))
                &&& final(self).unit == old(self).unit
            },
            old(self).unit.initialized ==> {
                &&& r is Ok
                &&& final(self).unit.initialized == old(self).unit.initialized
                &&& final(self).unit.render_listeners@ == old(self).unit.render_listeners@
                &&& final(self).unit.property_listeners@ == old(self).unit.property_listeners@
                &&& running_marked(old(self).unit, final(self).unit, v)
            },
    {
        if !self.unit.initialized {
            return Err(Error::Engine(kAudioUnitErr_Uninitialized));
        }
        let data = crate::unit::u32_to_le(v);
        let _ = self.unit.engine_write(
            kAudioOutputUnitProperty_IsRunning,
            AudioUnitScope::Global,
            0,
            data.as_slice(),
        );
        Ok(())
    }
}

/// The search filter output units are discovered with: the output kind
/// from the platform vendor, any subtype.
pub open spec fn output_filter() -> crate::component::AudioComponentDescription {
    crate::component::AudioComponentDescription {
        component_type: crate::kinds::kAudioUnitType_Output,
        component_sub_type: 0,
        component_manufacturer: crate::kinds::kAudioUnitManufacturer_Apple,
        component_flags: 0,
        component_flags_mask: 0,
    }
}

impl AudioOutputUnit {
    /// Walks the vendor's output components in roster order and
    /// instantiates the first one the caller's predicate accepts; `None`
    /// when the predicate refused every output component on the roster.
    pub fn new_instance<F: Fn(&crate::component::AudioComponent) -> bool>(
        engine: &crate::engine::StubEngine,
        f: F,
    ) -> (r: Result<Option<AudioOutputUnit>, Error>)
        requires
            forall|c: &crate::component::AudioComponent| #[trigger] call_requires(f, (c,)),
        ensures
            r is Ok,
            (r matches Ok(Some(u)) ==> {
                &&& u.unit.wf()
                &&& !u.unit.initialized
                &&& u.unit.properties@.len() == 0
                &&& exists|c: &crate::component::AudioComponent|
                    {
                        &&& engine.is_component(c.0)
                        &&& crate::component::desc_matches(
                            output_filter(),
                            engine.components@[c.0 - 1].description,
                        )
                        &&& #[trigger] call_ensures(f, (c,), true)
                    }
            }),
            (r matches Ok(None) ==> forall|k: int|
                0 <= k < engine.components@.len() && crate::component::desc_matches(
                    output_filter(),
                    (#[trigger] engine.components@[k]).description,
                ) ==> (exists|c: &crate::component::AudioComponent|
                    c.0 == k + 1 && #[trigger] call_ensures(f, (c,), false))),
    {
        let desc = crate::component::AudioComponentDescription::new(
            crate::kinds::kAudioUnitType_Output,
            0,
            crate::kinds::kAudioUnitManufacturer_Apple,
        );
        let mut it = crate::component::AudioComponent::iter(&desc);
        loop
            invariant_except_break
                it.filter == output_filter(),
                it.cursor <= engine.components@.len(),
                forall|c: &crate::component::AudioComponent| #[trigger] call_requires(f, (c,)),
                forall|k: int|
                    0 <= k < it.cursor && crate::component::desc_matches(
                        output_filter(),
                        (#[trigger] engine.components@[k]).description,
                    ) ==> (exists|c: &crate::component::AudioComponent|
                        c.0 == k + 1 && #[trigger] call_ensures(f, (c,), false)),
            ensures
                forall|k: int|
                    0 <= k < engine.components@.len() && crate::component::desc_matches(
                        output_filter(),
                        (#[trigger] engine.components@[k]).description,
                    ) ==> (exists|c: &crate::component::AudioComponent|
                        c.0 == k + 1 && #[trigger] call_ensures(f, (c,), false)),
            decreases engine.components@.len() - it.cursor,
        {
            let ghost prev = it.cursor as int;
            match it.next(engine) {
                None => {
                    break ;
                },
                Some(c) => {
                    let accepted = f(&c);
                    if accepted {
                        match c.new(engine) {
                            Ok(inst) => {
                                return Ok(Some(AudioOutputUnit { unit: inst.unit }));
                            },
                            Err(e) => {
                                return Err(e);
                            },
                        }
                    }
                },
            }
        }
        Ok(None)
    }
}

/// How a unit's table moves when the engine marks it running (`v == 1`) or
/// stopped (`v == 0`): without an is-running record nothing moves; with
/// one, that record now carries `v` and every other record is untouched.
pub open spec fn running_marked(before: AudioUnit, after: AudioUnit, v: u32) -> bool {
    &&& (!before.has_property(kAudioOutputUnitProperty_IsRunning, global_code(), 0)
        ==> after.properties@ == before.properties@)
    &&& (before.has_property(kAudioOutputUnitProperty_IsRunning, global_code(), 0) ==> {
        &&& after.properties@.len() == before.properties@.len()
        &&& forall|i: int|
            0 <= i < before.properties@.len() && i != before.property_index(
                kAudioOutputUnitProperty_IsRunning,
                global_code(),
                0,
            ) ==> after.properties@[i] == before.properties@[i]
        &&& after.has_property(kAudioOutputUnitProperty_IsRunning, global_code(), 0)
        &&& after.property_at(kAudioOutputUnitProperty_IsRunning, global_code(), 0).data@
            == u32_le_seq(v)
    })
}

} // verus!
