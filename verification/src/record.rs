//! The records of an inventory, and how a record is made of what the platform
//! returned.
//!
//! A failure that concerns one property, one controller identifier or one
//! topology value never reaches further than the field it concerns: the field
//! is left empty or holds a placeholder, and every other field is filled as
//! if nothing had failed.

use vstd::prelude::*;
use crate::wide::{logical_text, u16_to_string, utf16_lossy_text};

verus! {

/// The key of a property: a namespace and a number within it.
#[derive(Clone, Copy, Debug, PartialEq, Eq, Hash, Structural)]
pub struct PropertyKey {
    /// The namespace, a GUID as one number.
    pub fmtid: u128,
    /// The property's number within the namespace.
    pub pid: u32,
}

/// The key under which an endpoint on a USB audio controller holds its
/// topology identifier.
pub fn usb_topology_key() -> (key: PropertyKey)
    ensures
        key == (PropertyKey { fmtid: 0xB3F8FA53_0004_438E_9003_51A46E139BFC, pid: 39 }),
{
    PropertyKey { fmtid: 0xB3F8FA53_0004_438E_9003_51A46E139BFC, pid: 39 }
}

/// What the platform returned for one slot of a property store.
#[derive(Clone, Debug, PartialEq, Eq)]
pub struct PropertyReading {
    /// The key in the slot.
    pub key: PropertyKey,
    /// The buffer into which the platform rendered the key, terminated
    /// unless the rendering filled it.
    pub key_text: Vec<u16>,
    /// The value as text; `None` where the platform could not render it.
    pub value: Option<String>,
    /// The friendly name of the key, where it has one.
    pub name: Option<String>,
    /// The description of the key, where one is registered.
    pub description: Option<String>,
}

/// A `PropertyReading` as plain values.
pub struct ReadingView {
    pub key: PropertyKey,
    pub key_text: Seq<u16>,
    pub value: Option<Seq<char>>,
    pub name: Option<Seq<char>>,
    pub description: Option<Seq<char>>,
}

/// The text in `text`, if any, as a sequence of characters.
pub open spec fn optional_text(text: Option<String>) -> Option<Seq<char>> {
    match text {
        Some(t) => Some(t@),
        None => None,
    }
}

/// The text in `text`, or the empty text.
pub open spec fn text_or_empty(text: Option<Seq<char>>) -> Seq<char> {
    match text {
        Some(t) => t,
        None => Seq::empty(),
    }
}

impl View for PropertyReading {
    type V = ReadingView;

    open spec fn view(&self) -> ReadingView {
        ReadingView {
            key: self.key,
            key_text: self.key_text@,
            value: optional_text(self.value),
            name: optional_text(self.name),
            description: optional_text(self.description),
        }
    }
}

/// One property of a device, ready to be shown.
#[derive(Clone, Debug, PartialEq, Eq)]
pub struct DeviceProperty {
    /// The key of the property.
    pub key: PropertyKey,
    /// The friendly name of the key; empty where it has none.
    pub name: String,
    /// The value as text; empty where it could not be rendered.
    pub value: String,
    /// The canonical text of the key.
    pub guid: String,
    /// The description of the key; empty where none is registered.
    pub description: String,
}

/// A `DeviceProperty` as plain values.
pub struct PropertyView {
    pub key: PropertyKey,
    pub name: Seq<char>,
    pub value: Seq<char>,
    pub guid: Seq<char>,
    pub description: Seq<char>,
}

impl View for DeviceProperty {
    type V = PropertyView;

    open spec fn view(&self) -> PropertyView {
        PropertyView {
            key: self.key,
            name: self.name@,
            value: self.value@,
            guid: self.guid@,
            description: self.description@,
        }
    }
}

/// The property that a reading resolves to, given the canonical text of its
/// key: each text that the platform did not return is empty.
pub open spec fn resolved_with(reading: ReadingView, guid: Seq<char>) -> PropertyView {
    PropertyView {
        key: reading.key,
        name: text_or_empty(reading.name),
        value: text_or_empty(reading.value),
        guid,
        description: text_or_empty(reading.description),
    }
}

/// The property that a reading resolves to: the canonical text is decoded
/// from the buffer up to its terminator, and each text that the platform did
/// not return is empty.
pub open spec fn resolved(reading: ReadingView) -> PropertyView {
    resolved_with(reading, utf16_lossy_text(logical_text(reading.key_text)))
}

/// The properties that the readings of one store resolve to, in the order of
/// the slots.
pub open spec fn resolved_all(readings: Seq<ReadingView>) -> Seq<PropertyView> {
    readings.map_values(|reading: ReadingView| resolved(reading))
}

/// The readings in `readings` as plain values.
pub open spec fn reading_views(readings: Seq<PropertyReading>) -> Seq<ReadingView> {
    readings.map_values(|reading: PropertyReading| reading@)
}

/// The properties in `properties` as plain values.
pub open spec fn property_views(properties: Seq<DeviceProperty>) -> Seq<PropertyView> {
    properties.map_values(|property: DeviceProperty| property@)
}

/// A copy of the text in `text`, or the empty text.
pub fn owned_or_empty(text: &Option<String>) -> (owned: String)
    ensures
        owned@ == text_or_empty(optional_text(*text)),
{
    match text {
        Some(t) => t.clone(),
        None => String::new(),
    }
}

/// Resolves one reading to a property whose canonical text is `guid`. No
/// failure is possible: what the platform did not return is left empty.
pub fn property_with_text(reading: &PropertyReading, guid: String) -> (property: DeviceProperty)
    ensures
        property@ == resolved_with(reading@, guid@),
{
    DeviceProperty {
        key: reading.key,
        name: owned_or_empty(&reading.name),
        value: owned_or_empty(&reading.value),
        guid,
        description: owned_or_empty(&reading.description),
    }
}

/// Resolves one reading to a property, with the canonical text that its
/// buffer holds.
pub fn collect_property(reading: &PropertyReading) -> (property: DeviceProperty)
    ensures
        property@ == resolved(reading@),
{
    property_with_text(reading, u16_to_string(reading.key_text.as_slice()))
}

/// Resolves the readings of one property store, slot by slot. A store
/// without slots gives no properties.
pub fn collect_device_properties(readings: &[PropertyReading]) -> (properties: Vec<DeviceProperty>)
    ensures
        property_views(properties@) == resolved_all(reading_views(readings@)),
        properties@.len() == readings@.len(),
{
    let mut properties: Vec<DeviceProperty> = Vec::new();
    let n: usize = readings.len();
    let mut slot: usize = 0;
    while slot < n
        invariant
            n == readings@.len(),
            slot <= n,
            properties@.len() == slot,
            forall|i: int| 0 <= i < slot ==> (#[trigger] properties@[i])@ == resolved(readings@[i]@),
        decreases n - slot,
    {
        properties.push(collect_property(&readings[slot]));
        slot += 1;
    }
    assert(property_views(properties@) =~= resolved_all(reading_views(readings@)));
    properties
}

/// The key under which a device holds its instance identifier.
pub fn instance_id_key() -> (key: PropertyKey)
    ensures
        key == (PropertyKey { fmtid: 0x78C34FC8_104A_4ACA_9EA4_524D52996E57, pid: 256 }),
{
    PropertyKey { fmtid: 0x78C34FC8_104A_4ACA_9EA4_524D52996E57, pid: 256 }
}

/// What stands in a record in place of a controller identifier that could
/// not be resolved: the word `Error`, a space and the reason of the failure.
pub open spec fn placeholder(reason: Seq<char>) -> Seq<char> {
    "Error "@ + reason
}

/// The controller field of a record: the identifier that the lookup found,
/// or the placeholder that names why it found none.
pub open spec fn controller_text(outcome: Result<Seq<char>, Seq<char>>) -> Seq<char> {
    match outcome {
        Ok(identifier) => identifier,
        Err(reason) => placeholder(reason),
    }
}

/// The outcome of a lookup as plain values.
pub open spec fn outcome_view(outcome: Result<String, String>) -> Result<Seq<char>, Seq<char>> {
    match outcome {
        Ok(identifier) => Ok(identifier@),
        Err(reason) => Err(reason@),
    }
}

/// The placeholder for a controller identifier that could not be resolved
/// for the reason `reason`.
pub fn controller_placeholder(reason: &str) -> (field: String)
    ensures
        field@ == placeholder(reason@),
{
    String::from_str("Error ").concat(reason)
}

/// The controller field for the outcome of a lookup. A failed lookup is no
/// failure of the record: it gives the placeholder.
pub fn controller_field(outcome: &Result<String, String>) -> (field: String)
    ensures
        field@ == controller_text(outcome_view(*outcome)),
{
    match outcome {
        Ok(identifier) => identifier.clone(),
        Err(reason) => controller_placeholder(reason.as_str()),
    }
}

/// One audio endpoint with all that the inventory found out about it.
#[derive(Clone, Debug, PartialEq, Eq)]
pub struct AudioDevice {
    /// The identifier of the endpoint.
    pub id: String,
    /// The identifier of the controller behind the endpoint, or a
    /// placeholder where it could not be resolved.
    pub audio_controller_id: String,
    /// The topology identifier of the endpoint, where it has one.
    pub audio_topology_id: Option<String>,
    /// The properties of the endpoint, in the order of its property store.
    pub properties: Vec<DeviceProperty>,
}

/// An `AudioDevice` as plain values.
pub struct DeviceView {
    pub id: Seq<char>,
    pub audio_controller_id: Seq<char>,
    pub audio_topology_id: Option<Seq<char>>,
    pub properties: Seq<PropertyView>,
}

impl View for AudioDevice {
    type V = DeviceView;

    open spec fn view(&self) -> DeviceView {
        DeviceView {
            id: self.id@,
            audio_controller_id: self.audio_controller_id@,
            audio_topology_id: optional_text(self.audio_topology_id),
            properties: property_views(self.properties@),
        }
    }
}

/// The devices in `devices` as plain values.
pub open spec fn device_views(devices: Seq<AudioDevice>) -> Seq<DeviceView> {
    devices.map_values(|device: AudioDevice| device@)
}

/// A placeholder begins with the same six characters whatever the reason,
/// and ends with the reason.
pub proof fn lemma_placeholder_holds_reason(reason: Seq<char>)
    ensures
        placeholder(reason).len() == 6 + reason.len(),
        placeholder(reason).subrange(0, 6) == seq!['E', 'r', 'r', 'o', 'r', ' '],
        placeholder(reason).subrange(6, placeholder(reason).len() as int) == reason,
{
    reveal_strlit("Error ");
    assert("Error "@ =~= seq!['E', 'r', 'r', 'o', 'r', ' ']);
    assert(placeholder(reason).subrange(0, 6) =~= seq!['E', 'r', 'r', 'o', 'r', ' ']);
    assert(placeholder(reason).subrange(6, placeholder(reason).len() as int) =~= reason);
}

/// A reading without a value resolves to a property with an empty value
/// whose other fields are those of the same reading with a value.
pub proof fn lemma_unreadable_value(reading: ReadingView, value: Seq<char>)
    requires
        reading.value is None,
    ensures
        resolved(reading).value == Seq::<char>::empty(),
        resolved(reading) == (PropertyView {
            value: Seq::empty(),
            ..resolved(ReadingView { value: Some(value), ..reading })
        }),
{
}

/// Every slot of a store resolves to the property at the same place,
/// whatever the platform returned for the other slots.
pub proof fn lemma_slots_independent(readings: Seq<ReadingView>, slot: int)
    requires
        0 <= slot < readings.len(),
    ensures
        resolved_all(readings).len() == readings.len(),
        resolved_all(readings)[slot] == resolved(readings[slot]),
{
}

/// Buffers that hold the same text before their terminators resolve to the
/// same canonical text, whatever stands behind the terminators.
pub proof fn lemma_canonical_text_of_buffer(first: ReadingView, second: ReadingView)
    requires
        logical_text(first.key_text) == logical_text(second.key_text),
    ensures
        resolved(first).guid == resolved(second).guid,
{
}

} // verus!
