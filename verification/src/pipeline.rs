//! From notifications to readings: the filter, the device address and the
//! payload decoder, one after the other.

use crate::event::{event_of, Event};
use crate::identity::{address_of, mac_address_from_dbus_path, IdentityError};
use crate::models::{decodable, reading_of, DecodeError, Reading, SwitchbotThermometer};
use crate::notification::Notification;
use vstd::prelude::*;

verus! {

/// Why an admitted event gave no reading.
#[derive(Clone, Copy, Debug, PartialEq, Eq, Structural)]
pub enum PipelineError {
    /// The object path names no device address.
    Path(IdentityError),
    /// The payload could not be decoded.
    Payload(DecodeError),
}

/// The reading that an event stands for: the address that its path names and
/// the measurements of its payload. The path is looked at first.
pub open spec fn reading_from(event: (Seq<char>, Seq<u8>)) -> Result<Reading, PipelineError> {
    match address_of(event.0) {
        Err(e) => Err(PipelineError::Path(e)),
        Ok(address) => if decodable(event.1) {
            Ok(reading_of(address, event.1))
        } else {
            Err(PipelineError::Payload(DecodeError::Truncated))
        },
    }
}

/// What the pipeline makes of a notification: no reading where the filter
/// passes it over, else the reading of its event or the reason why it has
/// none.
pub open spec fn processed(message: Notification) -> Result<Option<Reading>, PipelineError> {
    match event_of(message) {
        None => Ok(None),
        Some(event) => match reading_from(event) {
            Ok(reading) => Ok(Some(reading)),
            Err(e) => Err(e),
        },
    }
}

/// The reading that a notification yields, if it yields one.
pub open spec fn yields(message: Notification) -> Option<Reading> {
    match processed(message) {
        Ok(Some(reading)) => Some(reading),
        _ => None,
    }
}

/// The readings that a run of notifications yields, in the order of the
/// notifications.
pub open spec fn readings_of(messages: Seq<Notification>) -> Seq<Reading>
    decreases messages.len(),
{
    if messages.len() == 0 {
        Seq::empty()
    } else {
        let before = readings_of(messages.drop_last());
        match yields(messages.last()) {
            Some(reading) => before.push(reading),
            None => before,
        }
    }
}

impl PipelineError {
    /// A line of text for a log.
    pub fn message(&self) -> (text: String)
        ensures
            self matches PipelineError::Path(e) ==> text@ == e.message_text(),
            self matches PipelineError::Payload(e) ==> text@ == e.message_text(),
    {
        match self {
            PipelineError::Path(e) => e.message(),
            PipelineError::Payload(e) => e.message(),
        }
    }
}

/// Turns an event into the reading that it stands for.
pub fn reading_from_event(event: Event) -> (r: Result<SwitchbotThermometer, PipelineError>)
    ensures
        match r {
            Ok(reading) => reading_from(event@) == Ok::<Reading, PipelineError>(reading@)
                && reading.well_formed(),
            Err(e) => reading_from(event@) == Err::<Reading, PipelineError>(e),
        },
{
    let Event::Updated(path, payload) = event;
    let address = match mac_address_from_dbus_path(path.as_str()) {
        Ok(address) => address,
        Err(e) => {
            return Err(PipelineError::Path(e));
        },
    };
    match SwitchbotThermometer::try_from((address, payload.data.as_slice())) {
        Ok(reading) => Ok(reading),
        Err(e) => Err(PipelineError::Payload(e)),
    }
}

/// Runs one notification through the pipeline.
///
/// A notification that the filter passes over gives `Ok(None)`. An admitted
/// one gives its reading, or the reason why its path or payload was refused;
/// the caller notes the reason and goes on with the next notification.
pub fn process(message: &Notification) -> (r: Result<Option<SwitchbotThermometer>, PipelineError>)
    ensures
        match r {
            Ok(Some(reading)) => processed(*message) == Ok::<Option<Reading>, PipelineError>(
                Some(reading@),
            ) && reading.well_formed(),
            Ok(None) => processed(*message) == Ok::<Option<Reading>, PipelineError>(None),
            Err(e) => processed(*message) == Err::<Option<Reading>, PipelineError>(e),
        },
{
    match Event::from_message(message) {
        None => Ok(None),
        Some(event) => match reading_from_event(event) {
            Ok(reading) => Ok(Some(reading)),
            Err(e) => Err(e),
        },
    }
}

/// A message that is no signal, or not of the property-change interface, or
/// not of the property-change member, never gives a reading: `process`
/// answers it with `Ok(None)`, so that nothing is reported for it.
pub proof fn lemma_irrelevant_gives_no_reading(
    message: &Notification,
    result: Result<Option<SwitchbotThermometer>, PipelineError>,
)
    requires
        !message.signal() || !message.dbus_properties() || !message.dbus_properties_changed(),
        call_ensures(process, (message,), result),
    ensures
        yields(*message) is None,
        result matches Ok(None),
{
}

/// The readings keep the order of their notifications: those of two runs of
/// notifications put together are those of the first followed by those of
/// the second.
pub proof fn lemma_readings_in_order(first: Seq<Notification>, second: Seq<Notification>)
    ensures
        readings_of(first + second) == readings_of(first) + readings_of(second),
    decreases second.len(),
{
    if second.len() == 0 {
        assert(first + second == first);
    } else {
        lemma_readings_in_order(first, second.drop_last());
        assert((first + second).drop_last() == first + second.drop_last());
    }
}

/// Notifications of which none yields a reading give no readings.
pub proof fn lemma_nothing_from_nothing(messages: Seq<Notification>)
    requires
        forall|i: int| 0 <= i < messages.len() ==> yields(#[trigger] messages[i]) is None,
    ensures
        readings_of(messages) == Seq::<Reading>::empty(),
    decreases messages.len(),
{
    if messages.len() > 0 {
        lemma_nothing_from_nothing(messages.drop_last());
    }
}

/// What `next_reading` finds first is the first of all readings: where the
/// notification before index `next` yields a reading and none before it
/// does, the notifications up to `next` give that reading and no other.
pub proof fn lemma_next_is_first(messages: Seq<Notification>, next: int)
    requires
        0 < next <= messages.len(),
        yields(messages[next - 1]) is Some,
        forall|i: int| 0 <= i < next - 1 ==> yields(#[trigger] messages[i]) is None,
    ensures
        readings_of(messages.take(next)) == seq![yields(messages[next - 1])->0],
{
    let upto = messages.take(next);
    assert(upto.drop_last() == messages.take(next - 1));
    lemma_nothing_from_nothing(messages.take(next - 1));
    assert(upto.last() == messages[next - 1]);
}

/// No notification gives more than one reading.
pub proof fn lemma_at_most_one_reading_each(messages: Seq<Notification>)
    ensures
        readings_of(messages).len() <= messages.len(),
    decreases messages.len(),
{
    if messages.len() > 0 {
        lemma_at_most_one_reading_each(messages.drop_last());
    }
}

/// The next reading in `messages` at or after index `start`, with the index
/// that follows the notification it came from.
///
/// Notifications that yield no reading are passed over, whether the filter
/// dropped them or their path or payload was refused. `None` means that none
/// of the notifications from `start` on yields a reading.
pub fn next_reading(messages: &[Notification], start: usize) -> (r: Option<
    (SwitchbotThermometer, usize),
>)
    ensures
        match r {
            Some((reading, next)) => {
                &&& start < next <= messages@.len()
                &&& yields(messages@[next - 1]) == Some(reading@)
                &&& forall|i: int| start <= i < next - 1 ==> yields(#[trigger] messages@[i]) is None
            },
            None => forall|i: int|
                start <= i < messages@.len() ==> yields(#[trigger] messages@[i]) is None,
        },
{
    let mut i: usize = start;
    while i < messages.len()
        invariant
            start <= i,
            forall|j: int| start <= j < i && j < messages@.len() ==> yields(
                #[trigger] messages@[j],
            ) is None,
        decreases messages.len() - i,
    {
        match process(&messages[i]) {
            Ok(Some(reading)) => {
                return Some((reading, i + 1));
            },
            _ => {},
        }
        i = i + 1;
    }
    None
}

/// All readings that `messages` yield, in the order of the notifications.
pub fn readings(messages: &[Notification]) -> (r: Vec<SwitchbotThermometer>)
    ensures
        r@.map_values(|reading: SwitchbotThermometer| reading@) == readings_of(messages@),
{
    let mut out: Vec<SwitchbotThermometer> = Vec::new();
    let mut i: usize = 0;
    while i < messages.len()
        invariant
            i <= messages.len(),
            out@.map_values(|reading: SwitchbotThermometer| reading@) == readings_of(
                messages@.take(i as int),
            ),
        decreases messages.len() - i,
    {
        assert(messages@.take(i + 1).drop_last() == messages@.take(i as int));
        let ghost before = out@;
        match process(&messages[i]) {
            Ok(Some(reading)) => {
                out.push(reading);
                assert(out@.map_values(|reading: SwitchbotThermometer| reading@)
                    == before.map_values(|reading: SwitchbotThermometer| reading@).push(reading@));
            },
            _ => {},
        }
        i = i + 1;
    }
    assert(messages@.take(messages@.len() as int) == messages@);
    out
}

} // verus!
