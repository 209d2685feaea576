//! The advertisement filter: which notifications carry a thermometer payload.

use crate::notification::{Notification, THERMOMETER_UUID};
use vstd::prelude::*;
use vstd::std_specs::convert::FromSpecImpl;

verus! {

/// The payload that a thermometer advertises.
#[derive(Clone, Debug, PartialEq, Eq)]
pub struct ThermometerData {
    pub data: Vec<u8>,
}

/// What the filter lets through.
#[derive(Clone, Debug, PartialEq, Eq)]
pub enum Event {
    /// The device at the given object path advertised the given payload.
    Updated(String, ThermometerData),
}

/// What the filter makes of one notification.
#[derive(Clone, Debug, PartialEq, Eq)]
pub enum Admission {
    /// Not a property change of a device object.
    NotApplicable,
    /// A property change of a device object without a thermometer payload.
    NoSensorPayload,
    /// A property change of a device object with a thermometer payload.
    Admitted(Event),
}

impl From<Vec<u8>> for ThermometerData {
    fn from(data: Vec<u8>) -> (r: Self) {
        Self { data }
    }
}

impl FromSpecImpl<Vec<u8>> for ThermometerData {
    open spec fn obeys_from_spec() -> bool {
        true
    }

    open spec fn from_spec(data: Vec<u8>) -> Self {
        ThermometerData { data }
    }
}

impl View for Event {
    type V = (Seq<char>, Seq<u8>);

    /// The object path and the payload.
    open spec fn view(&self) -> (Seq<char>, Seq<u8>) {
        match self {
            Event::Updated(path, payload) => (path@, payload.data@),
        }
    }
}

/// The event that a notification gives rise to, if the filter admits it.
pub open spec fn event_of(message: Notification) -> Option<(Seq<char>, Seq<u8>)> {
    match message.payload() {
        Some(bytes) => Some((message.path->0@, bytes)),
        None => None,
    }
}

/// Decides what one notification means for the receive loop.
///
/// A notification that is no property change of a device object is passed
/// over. One that is, ends the wait: with an event if the changed properties
/// hold service data with the thermometer's UUID, and without one otherwise.
pub fn poll(message: &Notification) -> (r: Admission)
    ensures
        r is NotApplicable <==> !message.applicable(),
        r is NoSensorPayload <==> message.applicable() && message.payload() is None,
        r matches Admission::Admitted(event) ==> event_of(*message) == Some(event@),
{
    if !message.is_applicable() {
        return Admission::NotApplicable;
    }
    let payload = match message.body.as_ref().unwrap().find_thermometer_payload() {
        Some(bytes) => bytes.clone(),
        None => {
            return Admission::NoSensorPayload;
        },
    };
    let path = message.path.as_ref().unwrap().clone();
    Admission::Admitted(Event::Updated(path, ThermometerData::from(payload)))
}

/// A property change of a device whose service data lack the thermometer's
/// UUID gives no event.
pub proof fn lemma_without_uuid_dropped(message: Notification)
    requires
        message.about_device(),
        message.body->0.service_data() matches Some(data) && !data.contains_key(THERMOMETER_UUID@),
    ensures
        event_of(message) is None,
{
}

/// A property change of a device whose service data hold the thermometer's
/// UUID gives one event, with the sender's path and the bytes stored under
/// that UUID.
pub proof fn lemma_with_uuid_admitted(message: Notification)
    requires
        message.applicable(),
        message.body->0.service_data() matches Some(data) && data.contains_key(THERMOMETER_UUID@),
    ensures
        event_of(message) == Some(
            (message.path->0@, message.body->0.service_data()->0[THERMOMETER_UUID@]),
        ),
{
}

/// A message that is no signal, or not of the property-change interface, or
/// not of the property-change member, gives no event.
pub proof fn lemma_irrelevant_dropped(message: Notification)
    requires
        !message.signal() || !message.dbus_properties() || !message.dbus_properties_changed(),
    ensures
        event_of(message) is None,
{
}

impl Event {
    /// The event that a notification gives rise to, if any.
    ///
    /// A notification passes if and only if it is a signal, of the
    /// property-change interface, with the property-change member, sent by an
    /// object with a path, about the device interface, and its changed
    /// properties hold service data with the thermometer's UUID. The event
    /// holds the sender's path and the bytes stored under that UUID.
    pub fn from_message(message: &Notification) -> (r: Option<Self>)
        ensures
            match r {
                Some(event) => event_of(*message) == Some(event@),
                None => event_of(*message) is None,
            },
    {
        match poll(message) {
            Admission::Admitted(event) => Some(event),
            _ => None,
        }
    }
}

} // verus!
