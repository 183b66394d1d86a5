//! The unit model and the typed property facade.
//!
//! An instantiated unit owns a table of properties, each addressed by
//! identifier, scope and element and holding a byte value of the size the
//! engine reports for it.  The accessors below reproduce the marshalling
//! discipline of the native facade — query the size, check it against the
//! caller's expectation, then move the bytes — with the engine's observable
//! answers modelled by the table.
//!
//! Identifiers stay raw integers: the vendor's vocabulary is open-ended, so
//! only scopes, a small closed set, are carried as an enumeration.

use vstd::prelude::*;

use crate::error::{
    kAudioUnitErr_InvalidProperty, kAudioUnitErr_PropertyNotWritable, kAudioUnitErr_Uninitialized,
    Error,
};
use crate::flags::AudioUnitRenderActionFlags;
use crate::scope::{scope_code, AudioUnitScope};

verus! {

/// The 32-bit value held by four bytes, least significant byte first.
pub open spec fn le32(s: Seq<u8>) -> u32
    recommends
        s.len() == 4,
{
    (s[0] + s[1] * 0x100 + s[2] * 0x1_0000 + s[3] * 0x100_0000) as u32
}

/// The four bytes of a 32-bit value, least significant byte first.
pub open spec fn u32_le_seq(v: u32) -> Seq<u8> {
    seq![
        (v & 0xff) as u8,
        ((v >> 8) & 0xff) as u8,
        ((v >> 16) & 0xff) as u8,
        ((v >> 24) & 0xff) as u8,
    ]
}

/// The 64-bit value held by eight bytes, least significant byte first.
pub open spec fn le64(s: Seq<u8>) -> u64
    recommends
        s.len() == 8,
{
    (s[0] + s[1] * 0x100 + s[2] * 0x1_0000 + s[3] * 0x100_0000 + s[4] * 0x1_0000_0000 + s[5]
        * 0x100_0000_0000 + s[6] * 0x1_0000_0000_0000 + s[7] * 0x100_0000_0000_0000) as u64
}

/// The eight bytes of a 64-bit value, least significant byte first.
pub open spec fn u64_le_seq(v: u64) -> Seq<u8> {
    seq![
        (v & 0xff) as u8,
        ((v >> 8) & 0xff) as u8,
        ((v >> 16) & 0xff) as u8,
        ((v >> 24) & 0xff) as u8,
        ((v >> 32) & 0xff) as u8,
        ((v >> 40) & 0xff) as u8,
        ((v >> 48) & 0xff) as u8,
        ((v >> 56) & 0xff) as u8,
    ]
}

/// Reads the 32-bit value of a four-byte property payload.
pub fn u32_from_le(data: &Vec<u8>) -> (r: u32)
    requires
        data@.len() == 4,
    ensures
        r == le32(data@),
{
    (data[0] as u32) + (data[1] as u32) * 0x100 + (data[2] as u32) * 0x1_0000 + (data[3] as u32)
        * 0x100_0000
}

/// Serialises a 32-bit value into its four-byte payload.
pub fn u32_to_le(v: u32) -> (r: Vec<u8>)
    ensures
        r@ == u32_le_seq(v),
        r@.len() == 4,
        le32(r@) == v,
{
    let r = vec![
        (v & 0xff) as u8,
        ((v >> 8) & 0xff) as u8,
        ((v >> 16) & 0xff) as u8,
        ((v >> 24) & 0xff) as u8,
    ];
    proof {
        assert(r@ =~= u32_le_seq(v));
        assert(((v & 0xff) as u8) + (((v >> 8) & 0xff) as u8) * 0x100 + (((v >> 16) & 0xff) as u8)
            * 0x1_0000 + (((v >> 24) & 0xff) as u8) * 0x100_0000 == v) by (bit_vector);
    }
    r
}

/// Reads the 64-bit value of an eight-byte property payload.
pub fn u64_from_le(data: &Vec<u8>) -> (r: u64)
    requires
        data@.len() == 8,
    ensures
        r == le64(data@),
{
    (data[0] as u64) + (data[1] as u64) * 0x100 + (data[2] as u64) * 0x1_0000 + (data[3] as u64)
        * 0x100_0000 + (data[4] as u64) * 0x1_0000_0000 + (data[5] as u64) * 0x100_0000_0000 + (
    data[6] as u64) * 0x1_0000_0000_0000 + (data[7] as u64) * 0x100_0000_0000_0000
}

/// Serialises a 64-bit value into its eight-byte payload.
pub fn u64_to_le(v: u64) -> (r: Vec<u8>)
    ensures
        r@ == u64_le_seq(v),
        r@.len() == 8,
        le64(r@) == v,
{
    let r = vec![
        (v & 0xff) as u8,
        ((v >> 8) & 0xff) as u8,
        ((v >> 16) & 0xff) as u8,
        ((v >> 24) & 0xff) as u8,
        ((v >> 32) & 0xff) as u8,
        ((v >> 40) & 0xff) as u8,
        ((v >> 48) & 0xff) as u8,
        ((v >> 56) & 0xff) as u8,
    ];
    proof {
        assert(r@ =~= u64_le_seq(v));
        assert(((v & 0xff) as u8) + (((v >> 8) & 0xff) as u8) * 0x100 + (((v >> 16) & 0xff) as u8)
            * 0x1_0000 + (((v >> 24) & 0xff) as u8) * 0x100_0000 + (((v >> 32) & 0xff) as u8)
            * 0x1_0000_0000 + (((v >> 40) & 0xff) as u8) * 0x100_0000_0000 + (((v >> 48)
            & 0xff) as u8) * 0x1_0000_0000_0000 + (((v >> 56) & 0xff) as u8)
            * 0x100_0000_0000_0000 == v) by (bit_vector);
    }
    r
}

/// The 32-bit signed values held by a byte payload, least significant byte
/// first, four bytes each; a trailing fragment shorter than four bytes is
/// dropped.
pub open spec fn i32s_of_le_bytes(s: Seq<u8>) -> Seq<i32> {
    Seq::new((s.len() / 4) as nat, |k: int| le32(s.subrange(4 * k, 4 * k + 4)) as i32)
}

/// The byte payload of a sequence of 32-bit signed values, least
/// significant byte first, four bytes each.
pub open spec fn le_bytes_of_i32s(s: Seq<i32>) -> Seq<u8> {
    Seq::new((s.len() * 4) as nat, |b: int| u32_le_seq(s[b / 4] as u32)[b % 4])
}

/// Reads the 32-bit signed values of a property payload.
pub fn i32s_from_le(data: &Vec<u8>) -> (r: Vec<i32>)
    ensures
        r@ == i32s_of_le_bytes(data@),
{
    let len = data.len();
    let n = len / 4;
    proof {
        assert(4 * (data@.len() as int / 4) <= data@.len());
    }
    let mut out: Vec<i32> = Vec::new();
    let mut k: usize = 0;
    while k < n
        invariant
            data@.len() <= usize::MAX,
            n == data@.len() as int / 4,
            4 * n <= data@.len(),
            k <= n,
            out@.len() == k,
            forall|j: int| 0 <= j < k ==> out@[j] == i32s_of_le_bytes(data@)[j],
        decreases n - k,
    {
        let b0 = data[4 * k];
        let b1 = data[4 * k + 1];
        let b2 = data[4 * k + 2];
        let b3 = data[4 * k + 3];
        let v: u32 = (b0 as u32) + (b1 as u32) * 0x100 + (b2 as u32) * 0x1_0000 + (b3 as u32)
            * 0x100_0000;
        out.push(v as i32);
        proof {
            let sub = data@.subrange(4 * k as int, 4 * k as int + 4);
            assert(sub[0] == data@[4 * k as int]);
            assert(sub[1] == data@[4 * k as int + 1]);
            assert(sub[2] == data@[4 * k as int + 2]);
            assert(sub[3] == data@[4 * k as int + 3]);
            assert(i32s_of_le_bytes(data@)[k as int] == v as i32);
        }
        k = k + 1;
    }
    proof {
        assert(out@ =~= i32s_of_le_bytes(data@));
    }
    out
}

/// Serialises 32-bit signed values into a property payload.
pub fn i32s_to_le(data: &[i32]) -> (r: Vec<u8>)
    requires
        data@.len() * 4 <= usize::MAX,
    ensures
        r@ == le_bytes_of_i32s(data@),
        r@.len() == data@.len() * 4,
{
    let mut out: Vec<u8> = Vec::new();
    let mut k: usize = 0;
    while k < data.len()
        invariant
            data@.len() * 4 <= usize::MAX,
            k <= data@.len(),
            out@.len() == 4 * k,
            out@ == le_bytes_of_i32s(data@.take(k as int)),
        decreases data@.len() - k,
    {
        let v = data[k] as u32;
        let ghost before = out@;
        out.push((v & 0xff) as u8);
        out.push(((v >> 8) & 0xff) as u8);
        out.push(((v >> 16) & 0xff) as u8);
        out.push(((v >> 24) & 0xff) as u8);
        proof {
            let t1 = data@.take(k as int + 1);
            assert forall|b: int| 0 <= b < 4 * (k as int) + 4 implies le_bytes_of_i32s(t1)[b]
                == out@[b] by {
                if b < 4 * (k as int) {
                    assert(b / 4 < k as int) by (nonlinear_arith)
                        requires
                            0 <= b < 4 * (k as int),
                    ;
                    assert(t1[b / 4] == data@.take(k as int)[b / 4]);
                    assert(le_bytes_of_i32s(data@.take(k as int))[b] == before[b]);
                } else {
                    assert(b / 4 == k as int && b % 4 == b - 4 * (k as int)) by (nonlinear_arith)
                        requires
                            4 * (k as int) <= b < 4 * (k as int) + 4,
                    ;
                    assert(t1[b / 4] == data@[k as int]);
                }
            }
            assert(out@ =~= le_bytes_of_i32s(t1));
        }
        k = k + 1;
    }
    proof {
        assert(data@.take(data@.len() as int) =~= data@);
    }
    out
}

/// One property of a unit: its address, whether the engine lets the host
/// write it, and its current byte value.
#[derive(Debug)]
pub struct PropertyRecord {
    pub id: u32,
    pub scope: u32,
    pub element: u32,
    pub writable: bool,
    pub data: Vec<u8>,
}

/// The address of a property record.
pub open spec fn prop_addr(r: PropertyRecord) -> (u32, u32, u32) {
    (r.id, r.scope, r.element)
}

/// Whether the records of `s` carry pairwise distinct addresses.
pub open spec fn props_unique(s: Seq<PropertyRecord>) -> bool {
    forall|i: int, j: int|
        #![trigger prop_addr(s[i]), prop_addr(s[j])]
        0 <= i < s.len() && 0 <= j < s.len() && i != j ==> prop_addr(s[i]) != prop_addr(s[j])
}

/// The outcome every property write shares: an absent address is an
/// invalid-property error, a read-only record a not-writable error, and on
/// success exactly the addressed record now carries `bytes`.
pub open spec fn write_outcome(
    before: AudioUnit,
    after: AudioUnit,
    id: u32,
    sc: u32,
    element: u32,
    bytes: Seq<u8>,
    r: Result<(), Error>,
) -> bool {
    &&& after.wf()
    &&& after.initialized == before.initialized
    &&& after.render_listeners@ == before.render_listeners@
    &&& after.property_listeners@ == before.property_listeners@
    &&& (!before.has_property(id, sc, element) ==> {
        &&& r == Err::<(), Error>(Error::Engine(kAudioUnitErr_InvalidProperty))
        &&& after.properties@ == before.properties@
    })
    &&& (before.has_property(id, sc, element) && !before.property_at(id, sc, element).writable
        ==> {
        &&& r == Err::<(), Error>(Error::Engine(kAudioUnitErr_PropertyNotWritable))
        &&& after.properties@ == before.properties@
    })
    &&& (before.has_property(id, sc, element) && before.property_at(id, sc, element).writable
        ==> {
        &&& r is Ok
        &&& after.properties@.len() == before.properties@.len()
        &&& forall|i: int|
            0 <= i < before.properties@.len() && i != before.property_index(id, sc, element)
                ==> after.properties@[i] == before.properties@[i]
        &&& after.has_property(id, sc, element)
        &&& after.property_at(id, sc, element).data@ == bytes
    })
}

/// The outcome of a 32-bit typed read: an absent address is an
/// invalid-property error, a size other than four bytes a size mismatch,
/// and otherwise the record's value is answered.
pub open spec fn read_u32_outcome(
    u: AudioUnit,
    id: u32,
    sc: u32,
    element: u32,
    r: Result<u32, Error>,
) -> bool {
    &&& (!u.has_property(id, sc, element) ==> r == Err::<u32, _>(
        Error::Engine(kAudioUnitErr_InvalidProperty),
    ))
    &&& (u.has_property(id, sc, element) && u.property_at(id, sc, element).data@.len() != 4 ==> r
        == Err::<u32, _>(
        Error::SizeMismatch {
            expected: 4,
            reported: u.property_at(id, sc, element).data@.len() as u32,
        },
    ))
    &&& (u.has_property(id, sc, element) && u.property_at(id, sc, element).data@.len() == 4 ==> r
        == Ok::<_, Error>(le32(u.property_at(id, sc, element).data@)))
}

/// The outcome of a boolean read through a 32-bit property: as
/// [`read_u32_outcome`], with any nonzero value answered as true.
pub open spec fn read_bool_outcome(
    u: AudioUnit,
    id: u32,
    sc: u32,
    element: u32,
    r: Result<bool, Error>,
) -> bool {
    &&& (!u.has_property(id, sc, element) ==> r == Err::<bool, _>(
        Error::Engine(kAudioUnitErr_InvalidProperty),
    ))
    &&& (u.has_property(id, sc, element) && u.property_at(id, sc, element).data@.len() != 4 ==> r
        == Err::<bool, _>(
        Error::SizeMismatch {
            expected: 4,
            reported: u.property_at(id, sc, element).data@.len() as u32,
        },
    ))
    &&& (u.has_property(id, sc, element) && u.property_at(id, sc, element).data@.len() == 4 ==> r
        == Ok::<_, Error>(le32(u.property_at(id, sc, element).data@) != 0))
}

/// The outcome of a 64-bit typed read: as [`read_u32_outcome`] with the
/// eight-byte size.
pub open spec fn read_u64_outcome(
    u: AudioUnit,
    id: u32,
    sc: u32,
    element: u32,
    r: Result<u64, Error>,
) -> bool {
    &&& (!u.has_property(id, sc, element) ==> r == Err::<u64, _>(
        Error::Engine(kAudioUnitErr_InvalidProperty),
    ))
    &&& (u.has_property(id, sc, element) && u.property_at(id, sc, element).data@.len() != 8 ==> r
        == Err::<u64, _>(
        Error::SizeMismatch {
            expected: 8,
            reported: u.property_at(id, sc, element).data@.len() as u32,
        },
    ))
    &&& (u.has_property(id, sc, element) && u.property_at(id, sc, element).data@.len() == 8 ==> r
        == Ok::<_, Error>(le64(u.property_at(id, sc, element).data@)))
}

/// An instantiated unit: its lifecycle flag, its property table, and the
/// context tokens of the listeners registered with it.
#[derive(Debug)]
pub struct AudioUnit {
    pub initialized: bool,
    pub properties: Vec<PropertyRecord>,
    pub render_listeners: Vec<u64>,
    pub property_listeners: Vec<(u32, u64)>,
}

impl AudioUnit {
    /// The unit's well-formedness: property addresses are unique, so every
    /// address names at most one record, and each value's size fits the
    /// 32-bit size field of the native interface.
    pub open spec fn wf(self) -> bool {
        &&& props_unique(self.properties@)
        &&& forall|i: int|
            0 <= i < self.properties@.len() ==> (#[trigger] self.properties@[i]).data@.len()
                <= u32::MAX
    }

    /// Whether the table holds a record at this address.
    pub open spec fn has_property(self, id: u32, scope: u32, element: u32) -> bool {
        exists|i: int|
            0 <= i < self.properties@.len() && #[trigger] prop_addr(self.properties@[i]) == (
            id,
            scope,
            element,
            )
    }

    /// The position of the record at this address.
    pub open spec fn property_index(self, id: u32, scope: u32, element: u32) -> int {
        choose|i: int|
            0 <= i < self.properties@.len() && #[trigger] prop_addr(self.properties@[i]) == (
            id,
            scope,
            element,
            )
    }

    /// The record at this address.
    pub open spec fn property_at(self, id: u32, scope: u32, element: u32) -> PropertyRecord {
        self.properties@[self.property_index(id, scope, element)]
    }

    /// A fresh unit: not initialized, no properties, no listeners.
    pub fn new() -> (r: AudioUnit)
        ensures
            r.wf(),
            !r.initialized,
            r.properties@.len() == 0,
            r.render_listeners@.len() == 0,
            r.property_listeners@.len() == 0,
    {
        AudioUnit {
            initialized: false,
            properties: Vec::new(),
            render_listeners: Vec::new(),
            property_listeners: Vec::new(),
        }
    }

    /// Finds the record at an address, scanning the table front to back.
    fn lookup(&self, id: u32, scope: u32, element: u32) -> (r: Option<usize>)
        requires
            self.wf(),
        ensures
            r matches Some(i) ==> {
                &&& i < self.properties@.len()
                &&& prop_addr(self.properties@[i as int]) == (id, scope, element)
                &&& self.has_property(id, scope, element)
                &&& self.property_index(id, scope, element) == i
            },
            r is None ==> !self.has_property(id, scope, element),
    {
        let mut i: usize = 0;
        while i < self.properties.len()
            invariant
                self.wf(),
                i <= self.properties@.len(),
                forall|j: int|
                    0 <= j < i ==> #[trigger] prop_addr(self.properties@[j]) != (id, scope, element),
            decreases self.properties@.len() - i,
        {
            let rec = &self.properties[i];
            if rec.id == id && rec.scope == scope && rec.element == element {
                proof {
                    assert(prop_addr(self.properties@[i as int]) == (id, scope, element));
                    assert(self.has_property(id, scope, element));
                    let j = self.property_index(id, scope, element);
                    assert(0 <= j < self.properties@.len() && prop_addr(self.properties@[j]) == (
                    id,
                    scope,
                    element,
                    ));
                    if j != i {
                        assert(prop_addr(self.properties@[j]) != prop_addr(
                            self.properties@[i as int],
                        ));
                        assert(false);
                    }
                }
                return Some(i);
            }
            i = i + 1;
        }
        None
    }

    /// Adds a record to the table; answers whether it was taken.  A record
    /// whose address is already present, or whose value does not fit the
    /// 32-bit size field, is refused and the unit is unchanged.
    pub fn add_property(
        &mut self,
        id: u32,
        scope: AudioUnitScope,
        element: u32,
        writable: bool,
        data: Vec<u8>,
    ) -> (taken: bool)
        requires
            old(self).wf(),
        ensures
            final(self).wf(),
            final(self).initialized == old(self).initialized,
            final(self).render_listeners@ == old(self).render_listeners@,
            final(self).property_listeners@ == old(self).property_listeners@,
            taken == (!old(self).has_property(id, scope_code(scope), element) && data@.len()
                <= u32::MAX),
            !taken ==> final(self).properties@ == old(self).properties@,
            taken ==> {
                &&& final(self).properties@.len() == old(self).properties@.len() + 1
                &&& forall|i: int|
                    0 <= i < old(self).properties@.len() ==> final(self).properties@[i] == old(
                        self,
                    ).properties@[i]
                &&& prop_addr(final(self).properties@.last()) == (id, scope_code(scope), element)
                &&& final(self).properties@.last().writable == writable
                &&& final(self).properties@.last().data@ == data@
                &&& final(self).has_property(id, scope_code(scope), element)
            },
    {
        let sc = scope.raw();
        if data.len() > u32::MAX as usize {
            return false;
        }
        match self.lookup(id, sc, element) {
            Some(_) => false,
            None => {
                let rec = PropertyRecord { id, scope: sc, element, writable, data };
                self.properties.push(rec);
                proof {
                    let n = old(self).properties@.len() as int;
                    assert(prop_addr(self.properties@[n]) == (id, sc, element));
                    assert forall|i: int, j: int|
                        0 <= i < self.properties@.len() && 0 <= j < self.properties@.len() && i
                            != j implies prop_addr(self.properties@[i]) != prop_addr(
                        self.properties@[j],
                    ) by {
                        if i < n && j < n {
                            assert(prop_addr(old(self).properties@[i]) != prop_addr(
                                old(self).properties@[j],
                            ));
                        } else if i == n {
                            assert(prop_addr(self.properties@[j]) != (id, sc, element));
                        } else {
                            assert(prop_addr(self.properties@[i]) != (id, sc, element));
                        }
                    }
                }
                true
            },
        }
    }

    /// Marks the unit initialized; the engine accepts the call.
    pub fn initialize(&mut self) -> (r: Result<(), Error>)
        requires
            old(self).wf(),
        ensures
            r is Ok,
            final(self).wf(),
            final(self).initialized,
            final(self).properties@ == old(self).properties@,
            final(self).render_listeners@ == old(self).render_listeners@,
            final(self).property_listeners@ == old(self).property_listeners@,
    {
        self.initialized = true;
        Ok(())
    }

    /// Marks the unit uninitialized; the engine accepts the call.
    pub fn uninitialize(&mut self) -> (r: Result<(), Error>)
        requires
            old(self).wf(),
        ensures
            r is Ok,
            final(self).wf(),
            !final(self).initialized,
            final(self).properties@ == old(self).properties@,
            final(self).render_listeners@ == old(self).render_listeners@,
            final(self).property_listeners@ == old(self).property_listeners@,
    {
        self.initialized = false;
        Ok(())
    }

    /// Queries a property's reported size and writability.  An address the
    /// table does not hold is an invalid-property error.
    pub fn get_property_info(&self, id: u32, scope: AudioUnitScope, element: u32) -> (r: Result<
        (u32, bool),
        Error,
    >)
        requires
            self.wf(),
        ensures
            self.has_property(id, scope_code(scope), element) ==> r == Ok::<_, Error>(
                (
                    self.property_at(id, scope_code(scope), element).data@.len() as u32,
                    self.property_at(id, scope_code(scope), element).writable,
                ),
            ),
            !self.has_property(id, scope_code(scope), element) ==> r == Err::<(u32, bool), _>(
                Error::Engine(kAudioUnitErr_InvalidProperty),
            ),
    {
        let sc = scope.raw();
        match self.lookup(id, sc, element) {
            Some(i) => {
                let rec = &self.properties[i];
                Ok((rec.data.len() as u32, rec.writable))
            },
            None => Err(Error::Engine(kAudioUnitErr_InvalidProperty)),
        }
    }

    /// Reads a property value of an expected size, typically the size of
    /// the host-side type it will be read as.
    ///
    /// The size the engine reports for the address is checked first: a
    /// disagreement is a size-mismatch error carrying both sizes, and the
    /// bytes are fetched only on agreement.  An address the table does not
    /// hold is an invalid-property error.
    pub fn get_property(&self, id: u32, scope: AudioUnitScope, element: u32, expected_size: u32)
        -> (r: Result<Vec<u8>, Error>)
        requires
            self.wf(),
        ensures
            !self.has_property(id, scope_code(scope), element) ==> r == Err::<Vec<u8>, _>(
                Error::Engine(kAudioUnitErr_InvalidProperty),
            ),
            self.has_property(id, scope_code(scope), element) && self.property_at(
                id,
                scope_code(scope),
                element,
            ).data@.len() != expected_size ==> r == Err::<Vec<u8>, _>(
                Error::SizeMismatch {
                    expected: expected_size,
                    reported: self.property_at(id, scope_code(scope), element).data@.len() as u32,
                },
            ),
            self.has_property(id, scope_code(scope), element) && self.property_at(
                id,
                scope_code(scope),
                element,
            ).data@.len() == expected_size ==> (r matches Ok(v) && v@ == self.property_at(
                id,
                scope_code(scope),
                element,
            ).data@),
    {
        let sc = scope.raw();
        match self.lookup(id, sc, element) {
            Some(i) => {
                let rec = &self.properties[i];
                let reported = rec.data.len() as u32;
                if reported != expected_size {
                    Err(Error::SizeMismatch { expected: expected_size, reported })
                } else {
                    Ok(vstd::slice::slice_to_vec(rec.data.as_slice()))
                }
            },
            None => Err(Error::Engine(kAudioUnitErr_InvalidProperty)),
        }
    }

    /// Reads a property value whole, at whatever size the engine reports —
    /// the variable-length counterpart of
    /// [`AudioUnit::get_property`].  An address the table does not hold is
    /// an invalid-property error.
    pub fn get_property_array(&self, id: u32, scope: AudioUnitScope, element: u32) -> (r: Result<
        Vec<u8>,
        Error,
    >)
        requires
            self.wf(),
        ensures
            !self.has_property(id, scope_code(scope), element) ==> r == Err::<Vec<u8>, _>(
                Error::Engine(kAudioUnitErr_InvalidProperty),
            ),
            self.has_property(id, scope_code(scope), element) ==> (r matches Ok(v) && v@
                == self.property_at(id, scope_code(scope), element).data@),
    {
        let sc = scope.raw();
        match self.lookup(id, sc, element) {
            Some(i) => Ok(vstd::slice::slice_to_vec(self.properties[i].data.as_slice())),
            None => Err(Error::Engine(kAudioUnitErr_InvalidProperty)),
        }
    }

    /// Writes a property value.  An address the table does not hold is an
    /// invalid-property error; a read-only record is a not-writable error;
    /// otherwise the record's bytes are replaced and nothing else changes.
    pub fn set_property(
        &mut self,
        id: u32,
        scope: AudioUnitScope,
        element: u32,
        data: &[u8],
    ) -> (r: Result<(), Error>)
        requires
            old(self).wf(),
            data@.len() <= u32::MAX,
        ensures
            final(self).wf(),
            final(self).initialized == old(self).initialized,
            final(self).render_listeners@ == old(self).render_listeners@,
            final(self).property_listeners@ == old(self).property_listeners@,
            !old(self).has_property(id, scope_code(scope), element) ==> {
                &&& r == Err::<(), Error>(Error::Engine(kAudioUnitErr_InvalidProperty))
                &&& final(self).properties@ == old(self).properties@
            },
            old(self).has_property(id, scope_code(scope), element) && !old(self).property_at(
                id,
                scope_code(scope),
                element,
            ).writable ==> {
                &&& r == Err::<(), Error>(Error::Engine(kAudioUnitErr_PropertyNotWritable))
                &&& final(self).properties@ == old(self).properties@
            },
            old(self).has_property(id, scope_code(scope), element) && old(self).property_at(
                id,
                scope_code(scope),
                element,
            ).writable ==> {
                &&& r is Ok
                &&& final(self).properties@.len() == old(self).properties@.len()
                &&& forall|i: int|
                    0 <= i < old(self).properties@.len() && i != old(self).property_index(
                        id,
                        scope_code(scope),
                        element,
                    ) ==> final(self).properties@[i] == old(self).properties@[i]
                &&& final(self).has_property(id, scope_code(scope), element)
                &&& final(self).property_at(id, scope_code(scope), element).data@ == data@
                &&& final(self).property_at(id, scope_code(scope), element).writable
                &&& prop_addr(final(self).property_at(id, scope_code(scope), element)) == (
                    id,
                    scope_code(scope),
                    element,
                )
            },
    {
        let sc = scope.raw();
        match self.lookup(id, sc, element) {
            Some(i) => {
                if !self.properties[i].writable {
                    Err(Error::Engine(kAudioUnitErr_PropertyNotWritable))
                } else {
                    let rec = PropertyRecord {
                        id,
                        scope: sc,
                        element,
                        writable: true,
                        data: vstd::slice::slice_to_vec(data),
                    };
                    self.properties[i] = rec;
                    proof {
                        let n = old(self).properties@.len() as int;
                        assert forall|a: int, b: int|
                            0 <= a < self.properties@.len() && 0 <= b < self.properties@.len() && a
                                != b implies prop_addr(self.properties@[a]) != prop_addr(
                            self.properties@[b],
                        ) by {
                            assert(prop_addr(old(self).properties@[a]) != prop_addr(
                                old(self).properties@[b],
                            ));
                            assert(prop_addr(self.properties@[i as int]) == prop_addr(
                                old(self).properties@[i as int],
                            ));
                        }
                        assert(prop_addr(self.properties@[i as int]) == (id, sc, element));
                        let j = self.property_index(id, sc, element);
                        assert(prop_addr(self.properties@[j]) == (id, sc, element));
                        if j != i {
                            assert(prop_addr(old(self).properties@[j]) == prop_addr(
                                self.properties@[j],
                            ));
                            assert(false);
                        }
                    }
                    Ok(())
                }
            },
            None => Err(Error::Engine(kAudioUnitErr_InvalidProperty)),
        }
    }

    /// Writes a variable-length property value from a slice — the
    /// counterpart of [`AudioUnit::get_property_array`], with the same
    /// outcome as [`AudioUnit::set_property`].
    pub fn set_property_array(
        &mut self,
        id: u32,
        scope: AudioUnitScope,
        element: u32,
        data: &[u8],
    ) -> (r: Result<(), Error>)
        requires
            old(self).wf(),
            data@.len() <= u32::MAX,
        ensures
            final(self).wf(),
            final(self).initialized == old(self).initialized,
            final(self).render_listeners@ == old(self).render_listeners@,
            final(self).property_listeners@ == old(self).property_listeners@,
            !old(self).has_property(id, scope_code(scope), element) ==> {
                &&& r == Err::<(), Error>(Error::Engine(kAudioUnitErr_InvalidProperty))
                &&& final(self).properties@ == old(self).properties@
            },
            old(self).has_property(id, scope_code(scope), element) && !old(self).property_at(
                id,
                scope_code(scope),
                element,
            ).writable ==> {
                &&& r == Err::<(), Error>(Error::Engine(kAudioUnitErr_PropertyNotWritable))
                &&& final(self).properties@ == old(self).properties@
            },
            old(self).has_property(id, scope_code(scope), element) && old(self).property_at(
                id,
                scope_code(scope),
                element,
            ).writable ==> {
                &&& r is Ok
                &&& final(self).properties@.len() == old(self).properties@.len()
                &&& forall|i: int|
                    0 <= i < old(self).properties@.len() && i != old(self).property_index(
                        id,
                        scope_code(scope),
                        element,
                    ) ==> final(self).properties@[i] == old(self).properties@[i]
                &&& final(self).has_property(id, scope_code(scope), element)
                &&& final(self).property_at(id, scope_code(scope), element).data@ == data@
            },
    {
        self.set_property(id, scope, element, data)
    }

    /// Reads a property as a 32-bit value: a typed read expecting the
    /// four-byte size, with the same outcomes as [`AudioUnit::get_property`].
    pub fn get_property_u32(&self, id: u32, scope: AudioUnitScope, element: u32) -> (r: Result<
        u32,
        Error,
    >)
        requires
            self.wf(),
        ensures
            !self.has_property(id, scope_code(scope), element) ==> r == Err::<u32, _>(
                Error::Engine(kAudioUnitErr_InvalidProperty),
            ),
            self.has_property(id, scope_code(scope), element) && self.property_at(
                id,
                scope_code(scope),
                element,
            ).data@.len() != 4 ==> r == Err::<u32, _>(
                Error::SizeMismatch {
                    expected: 4,
                    reported: self.property_at(id, scope_code(scope), element).data@.len() as u32,
                },
            ),
            self.has_property(id, scope_code(scope), element) && self.property_at(
                id,
                scope_code(scope),
                element,
            ).data@.len() == 4 ==> r == Ok::<_, Error>(
                le32(self.property_at(id, scope_code(scope), element).data@),
            ),
    {
        match self.get_property(id, scope, element, 4) {
            Ok(data) => Ok(u32_from_le(&data)),
            Err(e) => Err(e),
        }
    }

    /// Reads a property as a 64-bit value: a typed read expecting the
    /// eight-byte size, with the same outcomes as [`AudioUnit::get_property`].
    pub fn get_property_u64(&self, id: u32, scope: AudioUnitScope, element: u32) -> (r: Result<
        u64,
        Error,
    >)
        requires
            self.wf(),
        ensures
            !self.has_property(id, scope_code(scope), element) ==> r == Err::<u64, _>(
                Error::Engine(kAudioUnitErr_InvalidProperty),
            ),
            self.has_property(id, scope_code(scope), element) && self.property_at(
                id,
                scope_code(scope),
                element,
            ).data@.len() != 8 ==> r == Err::<u64, _>(
                Error::SizeMismatch {
                    expected: 8,
                    reported: self.property_at(id, scope_code(scope), element).data@.len() as u32,
                },
            ),
            self.has_property(id, scope_code(scope), element) && self.property_at(
                id,
                scope_code(scope),
                element,
            ).data@.len() == 8 ==> r == Ok::<_, Error>(
                le64(self.property_at(id, scope_code(scope), element).data@),
            ),
    {
        match self.get_property(id, scope, element, 8) {
            Ok(data) => Ok(u64_from_le(&data)),
            Err(e) => Err(e),
        }
    }

    /// Writes a property from a 32-bit value, serialised to its four-byte
    /// payload, with the same outcomes as [`AudioUnit::set_property`].
    pub fn set_property_u32(&mut self, id: u32, scope: AudioUnitScope, element: u32, v: u32) -> (r:
        Result<(), Error>)
        requires
            old(self).wf(),
        ensures
            final(self).wf(),
            final(self).initialized == old(self).initialized,
            final(self).render_listeners@ == old(self).render_listeners@,
            final(self).property_listeners@ == old(self).property_listeners@,
            !old(self).has_property(id, scope_code(scope), element) ==> {
                &&& r == Err::<(), Error>(Error::Engine(kAudioUnitErr_InvalidProperty))
                &&& final(self).properties@ == old(self).properties@
            },
            old(self).has_property(id, scope_code(scope), element) && !old(self).property_at(
                id,
                scope_code(scope),
                element,
            ).writable ==> {
                &&& r == Err::<(), Error>(Error::Engine(kAudioUnitErr_PropertyNotWritable))
                &&& final(self).properties@ == old(self).properties@
            },
            old(self).has_property(id, scope_code(scope), element) && old(self).property_at(
                id,
                scope_code(scope),
                element,
            ).writable ==> {
                &&& r is Ok
                &&& final(self).properties@.len() == old(self).properties@.len()
                &&& forall|i: int|
                    0 <= i < old(self).properties@.len() && i != old(self).property_index(
                        id,
                        scope_code(scope),
                        element,
                    ) ==> final(self).properties@[i] == old(self).properties@[i]
                &&& final(self).has_property(id, scope_code(scope), element)
                &&& final(self).property_at(id, scope_code(scope), element).data@ == u32_le_seq(v)
                &&& le32(final(self).property_at(id, scope_code(scope), element).data@) == v
            },
    {
        let data = u32_to_le(v);
        self.set_property(id, scope, element, data.as_slice())
    }

    /// The engine's own write into its table: replaces a record's bytes
    /// regardless of host writability, as the engine does when its state
    /// moves.  Answers whether the address was present.
    pub(crate) fn engine_write(&mut self, id: u32, scope: AudioUnitScope, element: u32, data: &[u8]) -> (wrote:
        bool)
        requires
            old(self).wf(),
            data@.len() <= u32::MAX,
        ensures
            final(self).wf(),
            final(self).initialized == old(self).initialized,
            final(self).render_listeners@ == old(self).render_listeners@,
            final(self).property_listeners@ == old(self).property_listeners@,
            wrote == old(self).has_property(id, scope_code(scope), element),
            !wrote ==> final(self).properties@ == old(self).properties@,
            wrote ==> {
                &&& final(self).properties@.len() == old(self).properties@.len()
                &&& forall|i: int|
                    0 <= i < old(self).properties@.len() && i != old(self).property_index(
                        id,
                        scope_code(scope),
                        element,
                    ) ==> final(self).properties@[i] == old(self).properties@[i]
                &&& final(self).has_property(id, scope_code(scope), element)
                &&& final(self).property_at(id, scope_code(scope), element).data@ == data@
                &&& final(self).property_at(id, scope_code(scope), element).writable == old(
                    self,
                ).property_at(id, scope_code(scope), element).writable
            },
    {
        let sc = scope.raw();
        match self.lookup(id, sc, element) {
            Some(i) => {
                let writable = self.properties[i].writable;
                let rec = PropertyRecord {
                    id,
                    scope: sc,
                    element,
                    writable,
                    data: vstd::slice::slice_to_vec(data),
                };
                self.properties[i] = rec;
                proof {
                    assert forall|a: int, b: int|
                        0 <= a < self.properties@.len() && 0 <= b < self.properties@.len() && a
                            != b implies prop_addr(self.properties@[a]) != prop_addr(
                        self.properties@[b],
                    ) by {
                        assert(prop_addr(old(self).properties@[a]) != prop_addr(
                            old(self).properties@[b],
                        ));
                        assert(prop_addr(self.properties@[i as int]) == prop_addr(
                            old(self).properties@[i as int],
                        ));
                    }
                    assert(prop_addr(self.properties@[i as int]) == (id, sc, element));
                    let j = self.property_index(id, sc, element);
                    assert(prop_addr(self.properties@[j]) == (id, sc, element));
                    if j != i {
                        assert(prop_addr(old(self).properties@[j]) == prop_addr(
                            self.properties@[j],
                        ));
                        assert(false);
                    }
                }
                true
            },
            None => false,
        }
    }

    /// Registers a property listener: the engine records the property
    /// identifier with the caller's context token and accepts the call.
    pub fn add_property_listener(&mut self, id: u32, token: u64) -> (r: Result<(), Error>)
        requires
            old(self).wf(),
        ensures
            r is Ok,
            final(self).wf(),
            final(self).initialized == old(self).initialized,
            final(self).properties@ == old(self).properties@,
            final(self).render_listeners@ == old(self).render_listeners@,
            final(self).property_listeners@ == old(self).property_listeners@.push((id, token)),
    {
        self.property_listeners.push((id, token));
        Ok(())
    }

    /// Removes a property listener by the exact identifier and context
    /// token it was registered with — the engine demands the identical
    /// pair, so anything else is a registration conflict.  The earliest
    /// matching registration goes.
    pub fn remove_property_listener_with_user_data(&mut self, id: u32, token: u64) -> (r: Result<
        (),
        Error,
    >)
        requires
            old(self).wf(),
        ensures
            final(self).wf(),
            final(self).initialized == old(self).initialized,
            final(self).properties@ == old(self).properties@,
            final(self).render_listeners@ == old(self).render_listeners@,
            !old(self).property_listeners@.contains((id, token)) ==> {
                &&& r == Err::<(), Error>(Error::RegistrationConflict)
                &&& final(self).property_listeners@ == old(self).property_listeners@
            },
            old(self).property_listeners@.contains((id, token)) ==> {
                &&& r is Ok
                &&& (old(self).property_listeners@.index_of_first((id, token)) matches Some(i)
                    && final(self).property_listeners@ == old(self).property_listeners@.remove(i))
            },
    {
        match self.find_property_listener(id, token) {
            Some(i) => {
                self.property_listeners.remove(i);
                Ok(())
            },
            None => Err(Error::RegistrationConflict),
        }
    }

    /// Finds the earliest property-listener registration carrying this
    /// identifier and context token.
    fn find_property_listener(&self, id: u32, token: u64) -> (r: Option<usize>)
        ensures
            r matches Some(i) ==> {
                &&& i < self.property_listeners@.len()
                &&& self.property_listeners@.index_of_first((id, token)) == Some(i as int)
                &&& self.property_listeners@.contains((id, token))
            },
            r is None ==> !self.property_listeners@.contains((id, token)),
    {
        let ghost s = self.property_listeners@;
        let mut i: usize = 0;
        while i < self.property_listeners.len()
            invariant
                i <= s.len(),
                self.property_listeners@ == s,
                forall|j: int| 0 <= j < i ==> s[j] != (id, token),
            decreases s.len() - i,
        {
            let rec = &self.property_listeners[i];
            if rec.0 == id && rec.1 == token {
                proof {
                    assert(s[i as int] == (id, token));
                    s.index_of_first_ensures((id, token));
                }
                return Some(i);
            }
            i = i + 1;
        }
        proof {
            s.index_of_first_ensures((id, token));
        }
        None
    }

    /// Registers a render notification: the engine records the caller's
    /// context token and accepts the call.
    pub fn add_render_notify(&mut self, token: u64) -> (r: Result<(), Error>)
        requires
            old(self).wf(),
        ensures
            r is Ok,
            final(self).wf(),
            final(self).initialized == old(self).initialized,
            final(self).properties@ == old(self).properties@,
            final(self).property_listeners@ == old(self).property_listeners@,
            final(self).render_listeners@ == old(self).render_listeners@.push(token),
    {
        self.render_listeners.push(token);
        Ok(())
    }

    /// Removes a render notification by the exact context token it was
    /// registered with; an unknown token is a registration conflict.  The
    /// earliest matching registration goes.
    pub fn remove_render_notify(&mut self, token: u64) -> (r: Result<(), Error>)
        requires
            old(self).wf(),
        ensures
            final(self).wf(),
            final(self).initialized == old(self).initialized,
            final(self).properties@ == old(self).properties@,
            final(self).property_listeners@ == old(self).property_listeners@,
            !old(self).render_listeners@.contains(token) ==> {
                &&& r == Err::<(), Error>(Error::RegistrationConflict)
                &&& final(self).render_listeners@ == old(self).render_listeners@
            },
            old(self).render_listeners@.contains(token) ==> {
                &&& r is Ok
                &&& (old(self).render_listeners@.index_of_first(token) matches Some(i)
                    && final(self).render_listeners@ == old(self).render_listeners@.remove(i))
            },
    {
        match self.find_render_listener(token) {
            Some(i) => {
                self.render_listeners.remove(i);
                Ok(())
            },
            None => Err(Error::RegistrationConflict),
        }
    }

    /// Finds the earliest render-notification registration carrying this
    /// context token.
    fn find_render_listener(&self, token: u64) -> (r: Option<usize>)
        ensures
            r matches Some(i) ==> {
                &&& i < self.render_listeners@.len()
                &&& self.render_listeners@.index_of_first(token) == Some(i as int)
                &&& self.render_listeners@.contains(token)
            },
            r is None ==> !self.render_listeners@.contains(token),
    {
        let ghost s = self.render_listeners@;
        let mut i: usize = 0;
        while i < self.render_listeners.len()
            invariant
                i <= s.len(),
                self.render_listeners@ == s,
                forall|j: int| 0 <= j < i ==> s[j] != token,
            decreases s.len() - i,
        {
            if self.render_listeners[i] == token {
                proof {
                    assert(s[i as int] == token);
                    s.index_of_first_ensures(token);
                }
                return Some(i);
            }
            i = i + 1;
        }
        proof {
            s.index_of_first_ensures(token);
        }
        None
    }

    /// Runs one render cycle against the unit.  The engine demands an
    /// initialized unit and otherwise leaves the caller's flag word as the
    /// callbacks and the unit produced it — here, unchanged.
    pub fn render(
        &self,
        action: &mut AudioUnitRenderActionFlags,
        host_time: u64,
        output_bus_number: u32,
        number_frames: u32,
    ) -> (r: Result<(), Error>)
        requires
            self.wf(),
        ensures
            final(action)@ == old(action)@,
            self.initialized ==> r is Ok,
            !self.initialized ==> r == Err::<(), Error>(
                Error::Engine(kAudioUnitErr_Uninitialized),
            ),
    {
        let _ = host_time;
        let _ = output_bus_number;
        let _ = number_frames;
        if self.initialized {
            Ok(())
        } else {
            Err(Error::Engine(kAudioUnitErr_Uninitialized))
        }
    }

    /// Runs one offline processing cycle; the same lifecycle demand as
    /// [`AudioUnit::render`].
    pub fn process(
        &self,
        action: &mut AudioUnitRenderActionFlags,
        host_time: u64,
        number_frames: u32,
    ) -> (r: Result<(), Error>)
        requires
            self.wf(),
        ensures
            final(action)@ == old(action)@,
            self.initialized ==> r is Ok,
            !self.initialized ==> r == Err::<(), Error>(
                Error::Engine(kAudioUnitErr_Uninitialized),
            ),
    {
        let _ = host_time;
        let _ = number_frames;
        if self.initialized {
            Ok(())
        } else {
            Err(Error::Engine(kAudioUnitErr_Uninitialized))
        }
    }

    /// Clears accumulated processing state for a scope and element.  The
    /// model unit keeps none, so the engine simply accepts the call.
    pub fn reset(&self, scope: AudioUnitScope, element: u32) -> (r: Result<(), Error>)
        requires
            self.wf(),
        ensures
            r is Ok,
    {
        let _ = scope;
        let _ = element;
        Ok(())
    }
}

/// Registering a listener token that the unit does not yet hold and at once
/// removing it by the same token takes the token list back to exactly what
/// it was: the registration is found first and its removal leaves no trace.
pub proof fn lemma_listener_roundtrip<T>(s: Seq<T>, token: T)
    requires
        !s.contains(token),
    ensures
        s.push(token).index_of_first(token) == Some(s.len() as int),
        s.push(token).remove(s.len() as int) == s,
{
    let t = s.push(token);
    assert(t[s.len() as int] == token);
    assert(t.contains(token));
    t.index_of_first_ensures(token);
    match t.index_of_first(token) {
        Some(i) => {
            if i < s.len() {
                assert(s[i] == token);
                assert(s.contains(token));
            }
        },
        None => {},
    }
    assert(t.remove(s.len() as int) =~= s);
}

} // verus!
