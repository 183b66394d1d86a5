//! A deterministic in-memory engine.
//!
//! The native engine is an opaque collaborator: discovery walks it with a
//! cursor, and every answer is a handle or a status code.  [`StubEngine`]
//! models the observable face of that collaborator — a fixed roster of
//! components — so that the discovery logic of this crate can be specified
//! and proved against it, and exercised without the native framework.
//!
//! A component handle is the roster position plus one; zero is the null
//! handle that seeds a fresh search and signals its end.

use vstd::prelude::*;

use crate::component::{desc_matches, AudioComponentDescription};

verus! {

/// One discoverable component of the engine's roster.
#[derive(Clone, Copy, Debug, PartialEq, Eq, Structural)]
pub struct ComponentEntry {
    /// The type, subtype and manufacturer the component advertises.
    pub description: AudioComponentDescription,
    /// The component's packed version number.
    pub version: u32,
}

/// The deterministic engine: a roster of discoverable components.
#[derive(Debug)]
pub struct StubEngine {
    pub components: Vec<ComponentEntry>,
}

/// How many entries of `s` match `filter`.
pub open spec fn matching_count(s: Seq<ComponentEntry>, filter: AudioComponentDescription) -> nat
    decreases s.len(),
{
    if s.len() == 0 {
        0
    } else {
        matching_count(s.drop_last(), filter) + (if desc_matches(filter, s.last().description) {
            1nat
        } else {
            0nat
        })
    }
}

impl StubEngine {
    /// An engine with an empty roster.
    pub fn new() -> (r: StubEngine)
        ensures
            r.components@.len() == 0,
    {
        StubEngine { components: Vec::new() }
    }

    /// An engine whose roster holds exactly `components`.
    pub fn with_components(components: Vec<ComponentEntry>) -> (r: StubEngine)
        ensures
            r.components@ == components@,
    {
        StubEngine { components }
    }

    /// Whether `handle` names a roster entry.
    pub open spec fn is_component(self, handle: usize) -> bool {
        1 <= handle <= self.components@.len()
    }

    /// One step of the discovery cursor: the first component after `prev`
    /// that matches `filter`, or the null handle when none is left.
    ///
    /// `prev` is the null handle for a fresh search, or the handle the
    /// previous step answered.
    pub fn find_next(&self, prev: usize, filter: &AudioComponentDescription) -> (r: usize)
        ensures
            r == 0 ==> forall|i: int|
                prev <= i < self.components@.len() ==> !desc_matches(
                    *filter,
                    self.components@[i].description,
                ),
            r != 0 ==> {
                &&& prev < r <= self.components@.len()
                &&& desc_matches(*filter, self.components@[r - 1].description)
                &&& forall|i: int|
                    prev <= i < r - 1 ==> !desc_matches(*filter, self.components@[i].description)
            },
    {
        let mut i = prev;
        while i < self.components.len()
            invariant
                prev <= i,
                forall|j: int|
                    prev <= j < i ==> !desc_matches(*filter, self.components@[j].description),
            decreases self.components@.len() - i,
        {
            if AudioComponentDescription::matches(filter, &self.components[i].description) {
                return i + 1;
            }
            i = i + 1;
        }
        0
    }

    /// The description a component handle advertises; an engine parameter
    /// error on the null or a stale handle.
    pub fn get_description(&self, handle: usize) -> (r: Result<
        AudioComponentDescription,
        crate::error::Error,
    >)
        ensures
            self.is_component(handle) ==> r == Ok::<_, crate::error::Error>(
                self.components@[handle - 1].description,
            ),
            !self.is_component(handle) ==> r == Err::<AudioComponentDescription, _>(
                crate::error::Error::Engine(crate::error::kAudio_ParamError),
            ),
    {
        if handle >= 1 && handle <= self.components.len() {
            Ok(self.components[handle - 1].description)
        } else {
            Err(crate::error::Error::Engine(crate::error::kAudio_ParamError))
        }
    }

    /// The version a component handle advertises; an engine parameter error
    /// on the null or a stale handle.
    pub fn get_version(&self, handle: usize) -> (r: Result<u32, crate::error::Error>)
        ensures
            self.is_component(handle) ==> r == Ok::<_, crate::error::Error>(
                self.components@[handle - 1].version,
            ),
            !self.is_component(handle) ==> r == Err::<u32, _>(
                crate::error::Error::Engine(crate::error::kAudio_ParamError),
            ),
    {
        if handle >= 1 && handle <= self.components.len() {
            Ok(self.components[handle - 1].version)
        } else {
            Err(crate::error::Error::Engine(crate::error::kAudio_ParamError))
        }
    }
}

/// Counting matches over a one-longer prefix adds exactly the new entry's
/// contribution.
pub proof fn lemma_matching_count_take_step(
    s: Seq<ComponentEntry>,
    filter: AudioComponentDescription,
    i: int,
)
    requires
        0 <= i < s.len(),
    ensures
        matching_count(s.take(i + 1), filter) == matching_count(s.take(i), filter) + (
        if desc_matches(filter, s[i].description) {
            1nat
        } else {
            0nat
        }),
{
    assert(s.take(i + 1).drop_last() =~= s.take(i));
    assert(s.take(i + 1).last() == s[i]);
}

/// A stretch without a single match contributes nothing to the count.
pub proof fn lemma_matching_count_range_empty(
    s: Seq<ComponentEntry>,
    filter: AudioComponentDescription,
    a: int,
    b: int,
)
    requires
        0 <= a <= b <= s.len(),
        forall|i: int| a <= i < b ==> !desc_matches(filter, s[i].description),
    ensures
        matching_count(s.take(b), filter) == matching_count(s.take(a), filter),
    decreases b - a,
{
    if a < b {
        lemma_matching_count_range_empty(s, filter, a, b - 1);
        lemma_matching_count_take_step(s, filter, b - 1);
    }
}

/// No roster yields more matches than it has entries: discovery seeded with
/// the null handle can answer at most one component per roster entry before
/// it answers the null handle.
pub proof fn lemma_matching_count_le_len(s: Seq<ComponentEntry>, filter: AudioComponentDescription)
    ensures
        matching_count(s, filter) <= s.len(),
    decreases s.len(),
{
    if s.len() > 0 {
        lemma_matching_count_le_len(s.drop_last(), filter);
    }
}

} // verus!
