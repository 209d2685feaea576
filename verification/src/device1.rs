//! The advertisement data that a device object publishes: service data keyed
//! by service UUID and manufacturer data keyed by company identifier.

use crate::string_map::StringMap;
use std::collections::HashMap;
use vstd::prelude::*;
use vstd::std_specs::convert::TryFromSpecImpl;
use zvariant::OwnedValue;

verus! {

broadcast use vstd::std_specs::hash::group_hash_axioms;

/// A value of any type that the bus can carry, as `zvariant` holds it.
#[verifier::external_type_specification]
#[verifier::external_body]
pub struct ExOwnedValue(zvariant::OwnedValue);

/// The error of a conversion in `zvariant`.
#[verifier::external_type_specification]
#[verifier::external_body]
pub struct ExValueError(zvariant::Error);

/// Whether `zvariant` converts `value` to a `HashMap<String, Vec<u8>>`. It
/// does so for a dictionary whose keys are strings and whose values are
/// arrays of bytes, where a key, a value or a byte may be wrapped in a
/// variant.
pub uninterp spec fn is_string_keyed_bytes(value: OwnedValue) -> bool;

/// The map to which `zvariant` converts `value` where
/// `is_string_keyed_bytes` holds of it: the bytes of each value by its key.
pub uninterp spec fn string_keyed_bytes(value: OwnedValue) -> Map<Seq<char>, Seq<u8>>;

/// Whether `zvariant` converts `value` to a `HashMap<u16, Vec<u8>>`. It does
/// so for a dictionary whose keys are unsigned 16-bit numbers and whose
/// values are arrays of bytes, where a key, a value or a byte may be wrapped
/// in a variant.
pub uninterp spec fn is_u16_keyed_bytes(value: OwnedValue) -> bool;

/// The map to which `zvariant` converts `value` where `is_u16_keyed_bytes`
/// holds of it: the bytes of each value by its key.
pub uninterp spec fn u16_keyed_bytes(value: OwnedValue) -> Map<u16, Seq<u8>>;

/// Why a value could not be read as device data.
#[derive(Clone, Copy, Debug, PartialEq, Eq, Structural)]
pub enum ValueError {
    /// The value is no dictionary with the keys and byte arrays asked for.
    IncorrectType,
}

/// The map that a list of entries builds up, later entries replacing earlier
/// ones with the same key.
pub open spec fn bytes_by_uuid(entries: Seq<(String, Vec<u8>)>) -> Map<Seq<char>, Seq<u8>>
    decreases entries.len(),
{
    if entries.len() == 0 {
        Map::empty()
    } else {
        bytes_by_uuid(entries.drop_last()).insert(entries.last().0@, entries.last().1@)
    }
}

/// The map that a list of entries builds up, later entries replacing earlier
/// ones with the same key.
pub open spec fn bytes_by_company(entries: Seq<(u16, Vec<u8>)>) -> Map<u16, Seq<u8>>
    decreases entries.len(),
{
    if entries.len() == 0 {
        Map::empty()
    } else {
        bytes_by_company(entries.drop_last()).insert(entries.last().0, entries.last().1@)
    }
}

/// Converts `value` with `zvariant`'s `TryFrom<OwnedValue>` for
/// `HashMap<String, Vec<u8>>` and hands out the entries of the map. The
/// conversion succeeds where `is_string_keyed_bytes` holds of `value` and
/// nowhere else. The entries are then those of the map that
/// `string_keyed_bytes` names, one for each key, in no particular order.
#[verifier::external_body]
fn string_keyed_entries(value: OwnedValue) -> (r: Result<Vec<(String, Vec<u8>)>, zvariant::Error>)
    ensures
        r is Ok <==> is_string_keyed_bytes(value),
        r matches Ok(entries) ==> bytes_by_uuid(entries@) == string_keyed_bytes(value),
{
    let map: HashMap<String, Vec<u8>> = value.try_into()?;
    Ok(map.into_iter().collect())
}

/// Converts `value` with `zvariant`'s `TryFrom<OwnedValue>` for
/// `HashMap<u16, Vec<u8>>` and hands out the entries of the map. The
/// conversion succeeds where `is_u16_keyed_bytes` holds of `value` and
/// nowhere else. The entries are then those of the map that
/// `u16_keyed_bytes` names, one for each key, in no particular order.
#[verifier::external_body]
fn u16_keyed_entries(value: OwnedValue) -> (r: Result<Vec<(u16, Vec<u8>)>, zvariant::Error>)
    ensures
        r is Ok <==> is_u16_keyed_bytes(value),
        r matches Ok(entries) ==> bytes_by_company(entries@) == u16_keyed_bytes(value),
{
    let map: HashMap<u16, Vec<u8>> = value.try_into()?;
    Ok(map.into_iter().collect())
}

/// Service data of a device: one byte array per service UUID.
#[derive(Debug)]
pub struct ServiceData {
    data: StringMap<Vec<u8>>,
}

/// Manufacturer data of a device: one byte array per company identifier.
#[derive(Debug)]
pub struct ManufacturerData {
    data: HashMap<u16, Vec<u8>>,
}

impl View for ServiceData {
    type V = Map<Seq<char>, Seq<u8>>;

    closed spec fn view(&self) -> Map<Seq<char>, Seq<u8>> {
        self.data@.map_values(|bytes: Vec<u8>| bytes@)
    }
}

impl ServiceData {
    /// Service data without entries.
    pub fn new() -> (d: Self)
        ensures
            d@ == Map::<Seq<char>, Seq<u8>>::empty(),
    {
        let d = ServiceData { data: StringMap::new() };
        assert(d@ =~= Map::<Seq<char>, Seq<u8>>::empty());
        d
    }

    /// Service data with the given entries. Of two entries with the same
    /// UUID the later one stays.
    pub fn from_entries(entries: Vec<(String, Vec<u8>)>) -> (d: Self)
        ensures
            d@ == bytes_by_uuid(entries@),
    {
        let mut d = ServiceData::new();
        let ghost all = entries@;
        for entry in it: entries
            invariant
                it.seq() == all,
                d@ == bytes_by_uuid(all.take(it.index() as int)),
        {
            assert(all.take(it.index() + 1).drop_last() == all.take(it.index() as int));
            let (key, value) = entry;
            d.insert(key, value);
        }
        assert(all.take(all.len() as int) == all);
        d
    }

    /// Stores `value` under the UUID `key`, in place of what was stored under it, if anything.
    pub fn insert(&mut self, key: String, value: Vec<u8>)
        ensures
            final(self)@ == old(self)@.insert(key@, value@),
    {
        self.data.insert(key, value);
        assert(self@ =~= old(self)@.insert(key@, value@));
    }

    /// The bytes stored under the UUID `key`, if there are any.
    pub fn get(&self, key: &str) -> (r: Option<&Vec<u8>>)
        ensures
            match r {
                Some(bytes) => self@.contains_key(key@) && bytes@ == self@[key@],
                None => !self@.contains_key(key@),
            },
    {
        self.data.get(key)
    }
}

impl TryFrom<OwnedValue> for ServiceData {
    type Error = ValueError;

    /// Reads `value` as service data. This succeeds if and only if `value`
    /// converts to a map from strings to byte arrays.
    fn try_from(value: OwnedValue) -> (r: Result<Self, ValueError>)
        ensures
            r is Ok <==> is_string_keyed_bytes(value),
            r matches Ok(data) ==> data@ == string_keyed_bytes(value),
    {
        match string_keyed_entries(value) {
            Ok(entries) => Ok(ServiceData::from_entries(entries)),
            Err(_) => Err(ValueError::IncorrectType),
        }
    }
}

/// The conversion is described by the clauses of `try_from`. Two values with
/// the same entries need not be the same value, so that no single result can
/// be named for a value.
impl TryFromSpecImpl<OwnedValue> for ServiceData {
    open spec fn obeys_try_from_spec() -> bool {
        false
    }

    open spec fn try_from_spec(value: OwnedValue) -> Result<Self, ValueError> {
        arbitrary()
    }
}

impl TryFrom<OwnedValue> for ManufacturerData {
    type Error = ValueError;

    /// Reads `value` as manufacturer data. This succeeds if and only if
    /// `value` converts to a map from 16-bit numbers to byte arrays.
    fn try_from(value: OwnedValue) -> (r: Result<Self, ValueError>)
        ensures
            r is Ok <==> is_u16_keyed_bytes(value),
            r matches Ok(data) ==> data@ == u16_keyed_bytes(value),
    {
        match u16_keyed_entries(value) {
            Ok(entries) => Ok(ManufacturerData::from_entries(entries)),
            Err(_) => Err(ValueError::IncorrectType),
        }
    }
}

/// The conversion is described by the clauses of `try_from`. Two values with
/// the same entries need not be the same value, so that no single result can
/// be named for a value.
impl TryFromSpecImpl<OwnedValue> for ManufacturerData {
    open spec fn obeys_try_from_spec() -> bool {
        false
    }

    open spec fn try_from_spec(value: OwnedValue) -> Result<Self, ValueError> {
        arbitrary()
    }
}

impl View for ManufacturerData {
    type V = Map<u16, Seq<u8>>;

    closed spec fn view(&self) -> Map<u16, Seq<u8>> {
        self.data@.map_values(|bytes: Vec<u8>| bytes@)
    }
}

impl ManufacturerData {
    /// Manufacturer data without entries.
    pub fn new() -> (d: Self)
        ensures
            d@ == Map::<u16, Seq<u8>>::empty(),
    {
        let d = ManufacturerData { data: HashMap::new() };
        assert(d@ =~= Map::<u16, Seq<u8>>::empty());
        d
    }

    /// Manufacturer data with the given entries. Of two entries with the same
    /// company identifier the later one stays.
    pub fn from_entries(entries: Vec<(u16, Vec<u8>)>) -> (d: Self)
        ensures
            d@ == bytes_by_company(entries@),
    {
        let mut d = ManufacturerData::new();
        let ghost all = entries@;
        for entry in it: entries
            invariant
                it.seq() == all,
                d@ == bytes_by_company(all.take(it.index() as int)),
        {
            assert(all.take(it.index() + 1).drop_last() == all.take(it.index() as int));
            let (key, value) = entry;
            d.insert(key, value);
        }
        assert(all.take(all.len() as int) == all);
        d
    }

    /// Stores `value` under the company identifier `key`, in place of what was
    /// stored under it, if anything.
    pub fn insert(&mut self, key: u16, value: Vec<u8>)
        ensures
            final(self)@ == old(self)@.insert(key, value@),
    {
        self.data.insert(key, value);
        assert(self@ =~= old(self)@.insert(key, value@));
    }

    /// The bytes stored under the company identifier `key`, if there are any.
    pub fn get(&self, key: u16) -> (r: Option<&Vec<u8>>)
        ensures
            match r {
                Some(bytes) => self@.contains_key(key) && bytes@ == self@[key],
                None => !self@.contains_key(key),
            },
    {
        self.data.get(&key)
    }
}

} // verus!
