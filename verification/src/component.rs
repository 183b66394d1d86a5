//! Component descriptions and discovery.
//!
//! A component advertises a type, a subtype and a manufacturer, each a
//! packed four-character code.  Discovery filters the engine's roster with a
//! description in which a zero code is a wildcard, and walks the matches
//! with a cursor seeded by the null handle, exactly as the native search
//! works.

use vstd::prelude::*;

use crate::engine::{matching_count, StubEngine};
use crate::error::Error;
use crate::kinds::{
    manufacturer_from_code, sub_type_from_code, unit_type_from_code, AudioUnitManufacturer,
    AudioUnitSubType, AudioUnitType,
};

verus! {

pub const kAudioComponentFlag_Unsearchable: u32 = 1;

/// The type, subtype and manufacturer a component advertises, with its
/// advertised flags and their mask.  A zero code acts as a wildcard when the
/// description filters a search.
#[derive(Clone, Copy, Debug, PartialEq, Eq, Structural)]
pub struct AudioComponentDescription {
    pub component_type: u32,
    pub component_sub_type: u32,
    pub component_manufacturer: u32,
    pub component_flags: u32,
    pub component_flags_mask: u32,
}

/// Whether a component advertising `desc` passes the search filter
/// `filter`: each of the three codes must be equal or left open by a zero in
/// the filter.  Flags and their mask take no part in matching.
pub open spec fn desc_matches(
    filter: AudioComponentDescription,
    desc: AudioComponentDescription,
) -> bool {
    &&& (filter.component_type == 0 || filter.component_type == desc.component_type)
    &&& (filter.component_sub_type == 0 || filter.component_sub_type == desc.component_sub_type)
    &&& (filter.component_manufacturer == 0 || filter.component_manufacturer
        == desc.component_manufacturer)
}

impl AudioComponentDescription {
    /// A description of the three codes, with no flags advertised.
    pub fn new(kind: u32, sub_kind: u32, manufacturer: u32) -> (r: AudioComponentDescription)
        ensures
            r.component_type == kind,
            r.component_sub_type == sub_kind,
            r.component_manufacturer == manufacturer,
            r.component_flags == 0,
            r.component_flags_mask == 0,
    {
        AudioComponentDescription {
            component_type: kind,
            component_sub_type: sub_kind,
            component_manufacturer: manufacturer,
            component_flags: 0,
            component_flags_mask: 0,
        }
    }

    /// Whether `desc` passes the search filter `self`.
    pub fn matches(filter: &AudioComponentDescription, desc: &AudioComponentDescription) -> (r:
        bool)
        ensures
            r == desc_matches(*filter, *desc),
    {
        (filter.component_type == 0 || filter.component_type == desc.component_type)
            && (filter.component_sub_type == 0 || filter.component_sub_type
            == desc.component_sub_type) && (filter.component_manufacturer == 0
            || filter.component_manufacturer == desc.component_manufacturer)
    }

    /// The broad kind the type code stands for.
    ///
    /// The type code must be one of the published kinds; a search answer
    /// from a vendor outside the published set must be read raw instead.
    pub fn kind(&self) -> (r: AudioUnitType)
        requires
            unit_type_from_code(self.component_type) is Some,
        ensures
            Some(r) == unit_type_from_code(self.component_type),
    {
        AudioUnitType::from_raw(self.component_type).unwrap()
    }

    /// The concrete unit the subtype code stands for, under the same proviso
    /// as [`AudioComponentDescription::kind`].
    pub fn sub_kind(&self) -> (r: AudioUnitSubType)
        requires
            sub_type_from_code(self.component_sub_type) is Some,
        ensures
            Some(r) == sub_type_from_code(self.component_sub_type),
    {
        AudioUnitSubType::from_raw(self.component_sub_type).unwrap()
    }

    /// The vendor the manufacturer code stands for, under the same proviso
    /// as [`AudioComponentDescription::kind`].
    pub fn manufacturer(&self) -> (r: AudioUnitManufacturer)
        requires
            manufacturer_from_code(self.component_manufacturer) is Some,
        ensures
            Some(r) == manufacturer_from_code(self.component_manufacturer),
    {
        AudioUnitManufacturer::from_raw(self.component_manufacturer).unwrap()
    }

    /// The advertised flag word.
    pub fn flags(&self) -> (r: u32)
        ensures
            r == self.component_flags,
    {
        self.component_flags
    }

    /// How many components of the engine's roster pass this description as
    /// a filter.
    pub fn count(&self, engine: &StubEngine) -> (r: usize)
        ensures
            r == matching_count(engine.components@, *self),
    {
        let found = find_all(engine, self);
        proof {
            crate::engine::lemma_matching_count_le_len(engine.components@, *self);
        }
        found.len()
    }
}

/// A discovered component: the engine's handle for one roster entry.
#[derive(Clone, Copy, Debug, PartialEq, Eq, Structural)]
pub struct AudioComponent(pub usize);

impl AudioComponent {
    /// Starts a search over the engine's roster, seeded with the null
    /// handle, for components passing `desc`.
    pub fn iter(desc: &AudioComponentDescription) -> (r: AudioComponentIter)
        ensures
            r.filter == *desc,
            r.cursor == 0,
    {
        AudioComponentIter { filter: *desc, cursor: 0 }
    }

    /// The description this component advertises; an engine parameter error
    /// on a stale handle.
    pub fn description(&self, engine: &StubEngine) -> (r: Result<AudioComponentDescription, Error>)
        ensures
            engine.is_component(self.0) ==> r == Ok::<_, Error>(
                engine.components@[self.0 - 1].description,
            ),
            !engine.is_component(self.0) ==> r == Err::<AudioComponentDescription, _>(
                Error::Engine(crate::error::kAudio_ParamError),
            ),
    {
        engine.get_description(self.0)
    }

    /// The version this component advertises; an engine parameter error on
    /// a stale handle.
    pub fn version(&self, engine: &StubEngine) -> (r: Result<u32, Error>)
        ensures
            engine.is_component(self.0) ==> r == Ok::<_, Error>(
                engine.components@[self.0 - 1].version,
            ),
            !engine.is_component(self.0) ==> r == Err::<u32, _>(
                Error::Engine(crate::error::kAudio_ParamError),
            ),
    {
        engine.get_version(self.0)
    }
}

/// An instantiated component: the stateful processing unit created from a
/// discovered component, owned by the caller until disposed.
#[derive(Debug)]
pub struct AudioComponentInstance {
    pub unit: crate::unit::AudioUnit,
}

impl AudioComponent {
    /// Instantiates the component: a fresh, uninitialized unit.  A stale or
    /// null handle is an engine parameter error.
    pub fn new(&self, engine: &StubEngine) -> (r: Result<AudioComponentInstance, Error>)
        ensures
            engine.is_component(self.0) ==> (r matches Ok(inst) && {
                &&& inst.unit.wf()
                &&& !inst.unit.initialized
                &&& inst.unit.properties@.len() == 0
                &&& inst.unit.render_listeners@.len() == 0
                &&& inst.unit.property_listeners@.len() == 0
            }),
            !engine.is_component(self.0) ==> r == Err::<AudioComponentInstance, _>(
                Error::Engine(crate::error::kAudio_ParamError),
            ),
    {
        if self.0 >= 1 && self.0 <= engine.components.len() {
            Ok(AudioComponentInstance { unit: crate::unit::AudioUnit::new() })
        } else {
            Err(Error::Engine(crate::error::kAudio_ParamError))
        }
    }
}

/// A discovery cursor: the search filter and the last handle the engine
/// answered, null before the first step.
#[derive(Clone, Copy, Debug, PartialEq, Eq, Structural)]
pub struct AudioComponentIter {
    pub filter: AudioComponentDescription,
    pub cursor: usize,
}

impl AudioComponentIter {
    /// One discovery step: asks the engine for the next match after the
    /// cursor.  Answers `None`, leaving the cursor alone, exactly when no
    /// later roster entry matches; otherwise advances the cursor onto the
    /// answered handle.
    pub fn next(&mut self, engine: &StubEngine) -> (r: Option<AudioComponent>)
        ensures
            final(self).filter == old(self).filter,
            r is None ==> {
                &&& final(self).cursor == old(self).cursor
                &&& forall|i: int|
                    old(self).cursor <= i < engine.components@.len() ==> !desc_matches(
                        old(self).filter,
                        engine.components@[i].description,
                    )
            },
            r matches Some(c) ==> {
                &&& old(self).cursor < c.0 <= engine.components@.len()
                &&& desc_matches(old(self).filter, engine.components@[c.0 - 1].description)
                &&& forall|i: int|
                    old(self).cursor <= i < c.0 - 1 ==> !desc_matches(
                        old(self).filter,
                        engine.components@[i].description,
                    )
                &&& final(self).cursor == c.0
            },
    {
        let next = engine.find_next(self.cursor, &self.filter);
        if next == 0 {
            None
        } else {
            self.cursor = next;
            Some(AudioComponent(next))
        }
    }
}

/// Walks a search over the engine's roster to its end and gathers every
/// answer.
///
/// The result holds exactly one handle per matching roster entry, in roster
/// order with strictly ascending handles — in particular never more
/// elements than the roster is long, so a search over a roster that answers
/// the null handle after its last entry always ends.
pub fn find_all(engine: &StubEngine, filter: &AudioComponentDescription) -> (r: Vec<
    AudioComponent,
>)
    ensures
        r@.len() == matching_count(engine.components@, *filter),
        r@.len() <= engine.components@.len(),
        forall|k: int|
            0 <= k < r@.len() ==> {
                &&& 1 <= #[trigger] r@[k].0 <= engine.components@.len()
                &&& desc_matches(*filter, engine.components@[r@[k].0 - 1].description)
            },
        forall|k: int| 0 <= k < r@.len() - 1 ==> #[trigger] r@[k].0 < r@[k + 1].0,
{
    let mut it = AudioComponent::iter(filter);
    let mut out: Vec<AudioComponent> = Vec::new();
    loop
        invariant_except_break
            it.filter == *filter,
            it.cursor <= engine.components@.len(),
            out@.len() == matching_count(engine.components@.take(it.cursor as int), *filter),
            forall|k: int|
                0 <= k < out@.len() ==> {
                    &&& 1 <= #[trigger] out@[k].0 <= it.cursor
                    &&& desc_matches(*filter, engine.components@[out@[k].0 - 1].description)
                },
            forall|k: int| 0 <= k < out@.len() - 1 ==> #[trigger] out@[k].0 < out@[k + 1].0,
        ensures
            it.filter == *filter,
            it.cursor <= engine.components@.len(),
            out@.len() == matching_count(engine.components@.take(it.cursor as int), *filter),
            forall|k: int|
                0 <= k < out@.len() ==> {
                    &&& 1 <= #[trigger] out@[k].0 <= it.cursor
                    &&& desc_matches(*filter, engine.components@[out@[k].0 - 1].description)
                },
            forall|k: int| 0 <= k < out@.len() - 1 ==> #[trigger] out@[k].0 < out@[k + 1].0,
            forall|i: int|
                it.cursor <= i < engine.components@.len() ==> !desc_matches(
                    *filter,
                    engine.components@[i].description,
                ),
        decreases engine.components@.len() - it.cursor,
    {
        let ghost prev = it.cursor as int;
        match it.next(engine) {
            None => {
                break ;
            },
            Some(c) => {
                proof {
                    crate::engine::lemma_matching_count_range_empty(
                        engine.components@,
                        *filter,
                        prev,
                        c.0 - 1,
                    );
                    crate::engine::lemma_matching_count_take_step(
                        engine.components@,
                        *filter,
                        c.0 - 1,
                    );
                }
                out.push(c);
            },
        }
    }
    proof {
        crate::engine::lemma_matching_count_range_empty(
            engine.components@,
            *filter,
            it.cursor as int,
            engine.components@.len() as int,
        );
        assert(engine.components@.take(engine.components@.len() as int) =~= engine.components@);
        crate::engine::lemma_matching_count_le_len(engine.components@, *filter);
    }
    out
}

} // verus!
