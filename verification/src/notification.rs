//! Bus notifications as the advertisement filter sees them.
//!
//! A notification is held as plain values: the header fields that the filter
//! tests and, where the body has the shape of a property change, the changed
//! properties by name.

use crate::device1::{
    is_string_keyed_bytes, is_u16_keyed_bytes, string_keyed_bytes, u16_keyed_bytes,
    ManufacturerData, ServiceData,
};
use crate::string_map::StringMap;
use crate::text::same_text;
use vstd::prelude::*;
use zvariant::OwnedValue;

verus! {

/// Interface that describes a remote device.
pub const DEVICE_1: &'static str = "org.bluez.Device1";

/// Interface that carries property-change signals.
pub const PROPERTIES: &'static str = "org.freedesktop.DBus.Properties";

/// Member name of a property-change signal.
pub const PROPERTIES_CHANGED: &'static str = "PropertiesChanged";

/// Name of the property that holds a device's service data.
pub const SERVICE_DATA: &'static str = "ServiceData";

/// Name of the property that holds a device's manufacturer data.
pub const MANUFACTURER_DATA: &'static str = "ManufacturerData";

/// Service UUID under which the thermometers publish their payload.
pub const THERMOMETER_UUID: &'static str = "00000d00-0000-1000-8000-00805f9b34fb";

/// The kind of a bus message.
#[derive(Clone, Copy, Debug, PartialEq, Eq, Structural)]
pub enum MessageKind {
    MethodCall,
    MethodReturn,
    Error,
    Signal,
}

/// The value of a changed property, as far as the filter reads it.
#[derive(Debug)]
pub enum PropertyValue {
    /// A dictionary from strings to byte arrays.
    StringKeyedBytes(ServiceData),
    /// A dictionary from 16-bit numbers to byte arrays.
    U16KeyedBytes(ManufacturerData),
    /// A value of any other shape.
    Other,
}

/// The body of a property-change signal.
#[derive(Debug)]
pub struct PropertiesChanged {
    /// The interface whose properties changed.
    pub interface: String,
    /// The new values, by property name.
    pub changed_properties: StringMap<PropertyValue>,
    /// The names of the properties whose new value is not given.
    pub invalidated_properties: Vec<String>,
}

/// A message received from the bus.
#[derive(Debug)]
pub struct Notification {
    pub kind: MessageKind,
    /// The interface named in the header, if any.
    pub interface: Option<String>,
    /// The member named in the header, if any.
    pub member: Option<String>,
    /// The path of the object that sent the message, if the header names one.
    pub path: Option<String>,
    /// The body, if it has the shape of a property change.
    pub body: Option<PropertiesChanged>,
}

/// Whether `text` is present and reads `wanted`.
pub open spec fn names(text: Option<String>, wanted: Seq<char>) -> bool {
    text matches Some(t) && t@ == wanted
}

/// The values that a list of changed properties gives each name, later
/// entries replacing earlier ones with the same name.
pub open spec fn values_by_name(changed: Seq<(String, OwnedValue)>) -> Map<Seq<char>, OwnedValue>
    decreases changed.len(),
{
    if changed.len() == 0 {
        Map::empty()
    } else {
        values_by_name(changed.drop_last()).insert(changed.last().0@, changed.last().1)
    }
}

/// The thermometer payload among changed properties: the bytes stored under
/// the thermometer's UUID in the value named `ServiceData`, if there is such
/// a value and it is a dictionary from strings to byte arrays that holds the
/// UUID.
pub open spec fn payload_among(values: Map<Seq<char>, OwnedValue>) -> Option<Seq<u8>> {
    if values.contains_key(SERVICE_DATA@) && is_string_keyed_bytes(values[SERVICE_DATA@])
        && string_keyed_bytes(values[SERVICE_DATA@]).contains_key(THERMOMETER_UUID@) {
        Some(string_keyed_bytes(values[SERVICE_DATA@])[THERMOMETER_UUID@])
    } else {
        None
    }
}

impl PropertyValue {
    /// Whether `self` is what is read of the value `value` of the property
    /// `name`: service data where the property is `ServiceData` and the value
    /// a dictionary from strings to byte arrays, manufacturer data where the
    /// property is `ManufacturerData` and the value a dictionary from 16-bit
    /// numbers to byte arrays, and nothing in any other case.
    pub open spec fn interprets(&self, name: Seq<char>, value: OwnedValue) -> bool {
        match self {
            PropertyValue::StringKeyedBytes(data) => {
                &&& name == SERVICE_DATA@
                &&& is_string_keyed_bytes(value)
                &&& data@ == string_keyed_bytes(value)
            },
            PropertyValue::U16KeyedBytes(data) => {
                &&& name == MANUFACTURER_DATA@
                &&& is_u16_keyed_bytes(value)
                &&& data@ == u16_keyed_bytes(value)
            },
            PropertyValue::Other => {
                &&& !(name == SERVICE_DATA@ && is_string_keyed_bytes(value))
                &&& !(name == MANUFACTURER_DATA@ && is_u16_keyed_bytes(value))
            },
        }
    }

    /// Reads the value of the property `name`.
    pub fn interpret(name: &str, value: OwnedValue) -> (r: PropertyValue)
        ensures
            r.interprets(name@, value),
    {
        proof {
            reveal_strlit("ServiceData");
            reveal_strlit("ManufacturerData");
            assert(SERVICE_DATA@.len() != MANUFACTURER_DATA@.len());
        }
        if same_text(name, SERVICE_DATA) {
            match ServiceData::try_from(value) {
                Ok(data) => PropertyValue::StringKeyedBytes(data),
                Err(_) => PropertyValue::Other,
            }
        } else if same_text(name, MANUFACTURER_DATA) {
            match ManufacturerData::try_from(value) {
                Ok(data) => PropertyValue::U16KeyedBytes(data),
                Err(_) => PropertyValue::Other,
            }
        } else {
            PropertyValue::Other
        }
    }
}

impl PropertiesChanged {
    /// The body of a property-change signal with the given parts. Each
    /// changed property is read by its name; of two values for the same name
    /// the later one stays.
    pub fn from_body(
        interface: String,
        changed: Vec<(String, OwnedValue)>,
        invalidated_properties: Vec<String>,
    ) -> (body: Self)
        ensures
            body.interface == interface,
            body.invalidated_properties == invalidated_properties,
            body.changed_properties@.dom() == values_by_name(changed@).dom(),
            forall|name: Seq<char>| #[trigger]
                body.changed_properties@.contains_key(name)
                    ==> body.changed_properties@[name].interprets(
                    name,
                    values_by_name(changed@)[name],
                ),
            body.thermometer_payload() == payload_among(values_by_name(changed@)),
    {
        let mut changed_properties: StringMap<PropertyValue> = StringMap::new();
        let ghost all = changed@;
        for entry in it: changed
            invariant
                it.seq() == all,
                changed_properties@.dom() == values_by_name(all.take(it.index() as int)).dom(),
                forall|name: Seq<char>| #[trigger]
                    changed_properties@.contains_key(name) ==> changed_properties@[name].interprets(
                        name,
                        values_by_name(all.take(it.index() as int))[name],
                    ),
        {
            assert(all.take(it.index() + 1).drop_last() == all.take(it.index() as int));
            let (name, value) = entry;
            let read = PropertyValue::interpret(name.as_str(), value);
            changed_properties.insert(name, read);
        }
        assert(all.take(all.len() as int) == all);
        let body = PropertiesChanged { interface, changed_properties, invalidated_properties };
        proof {
            reveal_strlit("ServiceData");
            reveal_strlit("ManufacturerData");
            assert(SERVICE_DATA@.len() != MANUFACTURER_DATA@.len());
            let values = values_by_name(all);
            assert(body.changed_properties@.contains_key(SERVICE_DATA@) == values.contains_key(
                SERVICE_DATA@,
            )) by {
                assert(body.changed_properties@.dom().contains(SERVICE_DATA@)
                    == values.dom().contains(SERVICE_DATA@));
            }
        }
        body
    }

    /// The service data among the changed properties: the value named
    /// `ServiceData`, if there is one and it maps strings to byte arrays.
    pub open spec fn service_data(&self) -> Option<Map<Seq<char>, Seq<u8>>> {
        if self.changed_properties@.contains_key(SERVICE_DATA@) {
            match self.changed_properties@[SERVICE_DATA@] {
                PropertyValue::StringKeyedBytes(data) => Some(data@),
                _ => None,
            }
        } else {
            None
        }
    }

    /// The thermometer payload in the service data, if there is one.
    pub open spec fn thermometer_payload(&self) -> Option<Seq<u8>> {
        match self.service_data() {
            Some(data) => if data.contains_key(THERMOMETER_UUID@) {
                Some(data[THERMOMETER_UUID@])
            } else {
                None
            },
            None => None,
        }
    }

    /// Looks up the thermometer payload in the service data.
    pub fn find_thermometer_payload(&self) -> (r: Option<&Vec<u8>>)
        ensures
            match r {
                Some(bytes) => self.thermometer_payload() == Some(bytes@),
                None => self.thermometer_payload() is None,
            },
    {
        match self.changed_properties.get(SERVICE_DATA) {
            Some(PropertyValue::StringKeyedBytes(data)) => data.get(THERMOMETER_UUID),
            _ => None,
        }
    }
}

impl Notification {
    /// Whether the message is a signal.
    pub open spec fn signal(&self) -> bool {
        self.kind == MessageKind::Signal
    }

    /// Whether the header names the property-change interface.
    pub open spec fn dbus_properties(&self) -> bool {
        names(self.interface, PROPERTIES@)
    }

    /// Whether the header names the property-change member.
    pub open spec fn dbus_properties_changed(&self) -> bool {
        names(self.member, PROPERTIES_CHANGED@)
    }

    /// Whether the body reports a change on the device interface.
    pub open spec fn about_device(&self) -> bool {
        self.body matches Some(body) && body.interface@ == DEVICE_1@
    }

    /// Whether the message is a property change of a device object: a signal
    /// of the property-change interface and member, sent by an object with a
    /// path, whose body names the device interface.
    pub open spec fn applicable(&self) -> bool {
        &&& self.signal()
        &&& self.dbus_properties()
        &&& self.dbus_properties_changed()
        &&& self.path is Some
        &&& self.about_device()
    }

    /// The thermometer payload that the message carries, if it is applicable
    /// and has one.
    pub open spec fn payload(&self) -> Option<Seq<u8>> {
        if self.applicable() {
            self.body->0.thermometer_payload()
        } else {
            None
        }
    }

    /// Tells whether the message is a signal.
    pub fn is_signal(&self) -> (r: bool)
        ensures
            r == self.signal(),
    {
        match self.kind {
            MessageKind::Signal => true,
            _ => false,
        }
    }

    /// Tells whether the header names the property-change interface.
    pub fn is_dbus_properties(&self) -> (r: bool)
        ensures
            r == self.dbus_properties(),
    {
        match &self.interface {
            Some(interface) => same_text(interface.as_str(), PROPERTIES),
            None => false,
        }
    }

    /// Tells whether the header names the property-change member.
    pub fn is_dbus_properties_changed(&self) -> (r: bool)
        ensures
            r == self.dbus_properties_changed(),
    {
        match &self.member {
            Some(member) => same_text(member.as_str(), PROPERTIES_CHANGED),
            None => false,
        }
    }

    /// Tells whether the body reports a change on the device interface.
    pub fn is_about_device(&self) -> (r: bool)
        ensures
            r == self.about_device(),
    {
        match &self.body {
            Some(body) => same_text(body.interface.as_str(), DEVICE_1),
            None => false,
        }
    }

    /// Tells whether the message is a property change of a device object.
    pub fn is_applicable(&self) -> (r: bool)
        ensures
            r == self.applicable(),
    {
        self.is_signal() && self.is_dbus_properties() && self.is_dbus_properties_changed()
            && self.path.is_some() && self.is_about_device()
    }
}

} // verus!
