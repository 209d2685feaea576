//! The thermometer reading and the decoder of its advertisement payload.
//!
//! Temperatures are fixed-point integers: the sensor reports tenths of a
//! degree Celsius, and the Fahrenheit equivalent of a tenth of a degree
//! Celsius is a whole number of hundredths of a degree Fahrenheit.

use crate::text::{
    decimal, decimal_chars, hundredths_chars, hundredths_text, string_of, tenths_chars, tenths_text,
};
use vstd::prelude::*;
use vstd::std_specs::convert::{FromSpecImpl, TryFromSpecImpl};
use vstd::string::StringExecFns;

verus! {

/// Number of payload bytes that the decoder reads.
pub const PAYLOAD_LEN: usize = 6;

/// A temperature in tenths of a degree Celsius.
#[derive(Clone, Copy, Debug, PartialEq, Eq, Structural)]
pub struct Celsius {
    pub tenths: i32,
}

/// A temperature in hundredths of a degree Fahrenheit.
#[derive(Clone, Copy, Debug, PartialEq, Eq, Structural)]
pub struct Fahrenheit {
    pub hundredths: i64,
}

/// A temperature in the unit that the device is set to display.
#[derive(Clone, Copy, Debug, PartialEq, Eq, Structural)]
pub enum PreferredTemperature {
    C(Celsius),
    F(Fahrenheit),
}

/// Why a payload could not be decoded.
#[derive(Clone, Copy, Debug, PartialEq, Eq, Structural)]
pub enum DecodeError {
    /// The payload ends before the last byte that the decoder reads.
    Truncated,
}

/// One reading of one thermometer.
#[derive(Clone, Debug, PartialEq, Eq)]
pub struct SwitchbotThermometer {
    pub address: String,
    pub temperature: Celsius,
    pub fahrenheit: bool,
    pub humidity: u8,
    pub battery: u8,
}

/// Which of the three gauges of a reading could not be sent.
#[derive(Clone, Copy, Debug, PartialEq, Eq, Structural)]
pub struct ReportError {
    pub temperature: bool,
    pub humidity: bool,
    pub battery: bool,
}

/// What reporting a reading comes to.
pub type ReportResult = Result<(), ReportError>;

/// Something that takes readings and passes them on.
pub trait Reporter {
    /// Passes one reading on.
    fn report(&self, device: &SwitchbotThermometer) -> ReportResult;
}

/// What a reading says, as mathematical values.
pub struct Reading {
    pub address: Seq<char>,
    pub tenths: int,
    pub fahrenheit: bool,
    pub humidity: int,
    pub battery: int,
}

/// The measurements of a payload without the device they belong to.
pub struct Measurement {
    pub tenths: int,
    pub fahrenheit: bool,
    pub humidity: int,
    pub battery: int,
}

/// The low seven bits of a byte.
pub open spec fn low_seven(b: u8) -> int {
    b as int % 128
}

/// The top bit of a byte.
pub open spec fn top_bit(b: u8) -> bool {
    b >= 128
}

/// Whether the payload is long enough to be decoded.
pub open spec fn decodable(bytes: Seq<u8>) -> bool {
    bytes.len() >= PAYLOAD_LEN
}

/// Battery charge in percent: the low seven bits of byte 2.
pub open spec fn battery_of(bytes: Seq<u8>) -> int {
    low_seven(bytes[2])
}

/// Relative humidity in percent: the low seven bits of byte 5.
pub open spec fn humidity_of(bytes: Seq<u8>) -> int {
    low_seven(bytes[5])
}

/// The display-unit flag: the top bit of byte 5.
pub open spec fn fahrenheit_of(bytes: Seq<u8>) -> bool {
    top_bit(bytes[5])
}

/// Temperature in tenths of a degree Celsius. The low seven bits of byte 4
/// count whole degrees and byte 3 adds tenths; the top bit of byte 4 is set
/// for a temperature above zero and clear for one below.
pub open spec fn tenths_of(bytes: Seq<u8>) -> int {
    let magnitude = low_seven(bytes[4]) * 10 + bytes[3] as int;
    if top_bit(bytes[4]) {
        magnitude
    } else {
        -magnitude
    }
}

/// The measurements that a payload of at least six bytes carries.
pub open spec fn measurement_of(bytes: Seq<u8>) -> Measurement {
    Measurement {
        tenths: tenths_of(bytes),
        fahrenheit: fahrenheit_of(bytes),
        humidity: humidity_of(bytes),
        battery: battery_of(bytes),
    }
}

/// What decoding a payload gives: its measurements, or the reason why it
/// has none.
pub open spec fn decoded(bytes: Seq<u8>) -> Result<Measurement, DecodeError> {
    if decodable(bytes) {
        Ok(measurement_of(bytes))
    } else {
        Err(DecodeError::Truncated)
    }
}

/// The measurements that the decoder's four results stand for.
pub open spec fn measured(m: (Celsius, bool, u8, u8)) -> Measurement {
    Measurement {
        tenths: m.0.tenths as int,
        fahrenheit: m.1,
        humidity: m.2 as int,
        battery: m.3 as int,
    }
}

/// The reading that a device address and a decodable payload make.
pub open spec fn reading_of(address: Seq<char>, bytes: Seq<u8>) -> Reading {
    Reading {
        address,
        tenths: tenths_of(bytes),
        fahrenheit: fahrenheit_of(bytes),
        humidity: humidity_of(bytes),
        battery: battery_of(bytes),
    }
}

/// Hundredths of a degree Fahrenheit for tenths of a degree Celsius:
/// `F = C * 9 / 5 + 32`, scaled.
pub open spec fn fahrenheit_hundredths(tenths: int) -> int {
    tenths * 18 + 3200
}

/// A Celsius temperature as text: `5.1°C` for 51 tenths.
pub open spec fn celsius_text(tenths: int) -> Seq<char> {
    tenths_text(tenths) + seq!['\u{b0}', 'C']
}

/// A Fahrenheit temperature as text: `41.18°F` for 4118 hundredths.
pub open spec fn fahrenheit_text(hundredths: int) -> Seq<char> {
    hundredths_text(hundredths) + seq!['\u{b0}', 'F']
}

impl Reading {
    /// The temperature in the unit that the device displays.
    pub open spec fn preferred(self) -> PreferredTemperature {
        if self.fahrenheit {
            PreferredTemperature::F(
                Fahrenheit { hundredths: fahrenheit_hundredths(self.tenths) as i64 },
            )
        } else {
            PreferredTemperature::C(Celsius { tenths: self.tenths as i32 })
        }
    }

    /// The reading as one line of text: the address, the temperature in the
    /// unit that the device displays, the humidity and the battery charge.
    pub open spec fn text(self) -> Seq<char> {
        self.address + ": T="@ + self.preferred().text() + ", H="@ + decimal(self.humidity as nat)
            + "%, B="@ + decimal(self.battery as nat) + "%"@
    }
}

impl View for SwitchbotThermometer {
    type V = Reading;

    open spec fn view(&self) -> Reading {
        Reading {
            address: self.address@,
            tenths: self.temperature.tenths as int,
            fahrenheit: self.fahrenheit,
            humidity: self.humidity as int,
            battery: self.battery as int,
        }
    }
}

impl Reading {
    /// Whether the values lie in the ranges that the payload format allows.
    pub open spec fn in_range(self) -> bool {
        &&& -1525 <= self.tenths <= 1525
        &&& 0 <= self.humidity <= 127
        &&& 0 <= self.battery <= 127
    }
}

impl DecodeError {
    /// The text that describes the error.
    pub open spec fn message_text(&self) -> Seq<char> {
        "payload shorter than 6 bytes"@
    }

    /// A line of text for a log.
    pub fn message(&self) -> (text: String)
        ensures
            text@ == self.message_text(),
    {
        "payload shorter than 6 bytes".to_owned()
    }
}

impl From<Celsius> for Fahrenheit {
    /// Converts from Celsius. The conversion is exact.
    fn from(c: Celsius) -> (f: Fahrenheit) {
        Fahrenheit { hundredths: (c.tenths as i64) * 18 + 3200 }
    }
}

impl FromSpecImpl<Celsius> for Fahrenheit {
    open spec fn obeys_from_spec() -> bool {
        true
    }

    open spec fn from_spec(c: Celsius) -> Fahrenheit {
        Fahrenheit { hundredths: fahrenheit_hundredths(c.tenths as int) as i64 }
    }
}

impl Celsius {
    /// The temperature as text: the degrees in decimal, then `°C`.
    pub fn to_text(&self) -> (text: String)
        ensures
            text@ == celsius_text(self.tenths as int),
    {
        let mut chars = tenths_chars(self.tenths);
        chars.push('\u{b0}');
        chars.push('C');
        string_of(&chars)
    }
}

impl Fahrenheit {
    /// The temperature as text: the degrees in decimal, then `°F`.
    pub fn to_text(&self) -> (text: String)
        ensures
            text@ == fahrenheit_text(self.hundredths as int),
    {
        let mut chars = hundredths_chars(self.hundredths);
        chars.push('\u{b0}');
        chars.push('F');
        string_of(&chars)
    }
}

impl PreferredTemperature {
    /// What the temperature reads as text, in its own unit.
    pub open spec fn text(&self) -> Seq<char> {
        match self {
            PreferredTemperature::C(c) => celsius_text(c.tenths as int),
            PreferredTemperature::F(f) => fahrenheit_text(f.hundredths as int),
        }
    }

    /// The temperature as text, in its own unit.
    pub fn to_text(&self) -> (text: String)
        ensures
            text@ == self.text(),
    {
        match self {
            PreferredTemperature::C(value) => value.to_text(),
            PreferredTemperature::F(value) => value.to_text(),
        }
    }
}

/// Splits a byte into its low seven bits and its top bit.
fn split_byte(b: u8) -> (r: (u8, bool))
    ensures
        r.0 == low_seven(b),
        r.1 == top_bit(b),
{
    let low = b & 0b0111_1111;
    let top = (b >> 7) & 0x1 == 1;
    assert(b & 0b0111_1111 == b % 128) by (bit_vector);
    assert(((b >> 7) & 0x1 == 1) == (b >= 128)) by (bit_vector);
    (low, top)
}

impl SwitchbotThermometer {
    /// Whether the reading's values lie in the ranges that a payload can give.
    pub open spec fn well_formed(&self) -> bool {
        self@.in_range()
    }

    /// The temperature in the unit that the device displays.
    pub fn temperature(&self) -> (t: PreferredTemperature)
        ensures
            t == self@.preferred(),
    {
        if self.fahrenheit {
            PreferredTemperature::F(self.f())
        } else {
            PreferredTemperature::C(self.c())
        }
    }

    /// The temperature in Celsius.
    pub fn c(&self) -> (c: Celsius)
        ensures
            c == self.temperature,
    {
        self.temperature
    }

    /// The temperature in Fahrenheit.
    pub fn f(&self) -> (f: Fahrenheit)
        ensures
            f.hundredths == fahrenheit_hundredths(self@.tenths),
    {
        Fahrenheit::from(self.temperature)
    }

    /// The reading as one line of text, such as
    /// `F0:73:23:10:C7:3E: T=5.1°C, H=40%, B=50%`.
    pub fn to_text(&self) -> (text: String)
        ensures
            text@ == self@.text(),
    {
        let mut text = self.address.clone();
        text.append(": T=");
        text.append(self.temperature().to_text().as_str());
        text.append(", H=");
        text.append(string_of(&decimal_chars(self.humidity as u64)).as_str());
        text.append("%, B=");
        text.append(string_of(&decimal_chars(self.battery as u64)).as_str());
        text.append("%");
        text
    }

    /// Reads the temperature from bytes 3 and 4 of a payload.
    pub fn decode_temperature(bytes: &[u8]) -> (r: Result<Celsius, DecodeError>)
        ensures
            bytes@.len() >= 5 ==> r is Ok && r->Ok_0.tenths == tenths_of(bytes@),
            bytes@.len() < 5 ==> r == Err::<Celsius, DecodeError>(DecodeError::Truncated),
    {
        if bytes.len() < 5 {
            return Err(DecodeError::Truncated);
        }
        let b3 = bytes[3];
        let (high, positive) = split_byte(bytes[4]);
        let magnitude: i32 = (high as i32) * 10 + (b3 as i32);
        let tenths: i32 = if positive {
            magnitude
        } else {
            -magnitude
        };
        Ok(Celsius { tenths })
    }

    /// Reads the display-unit flag from byte 5 of a payload.
    pub fn decode_temperature_unit(bytes: &[u8]) -> (fahrenheit: bool)
        requires
            decodable(bytes@),
        ensures
            fahrenheit == fahrenheit_of(bytes@),
    {
        split_byte(bytes[5]).1
    }

    /// Reads the relative humidity from byte 5 of a payload.
    pub fn decode_humidity(bytes: &[u8]) -> (humidity: u8)
        requires
            decodable(bytes@),
        ensures
            humidity == humidity_of(bytes@),
    {
        split_byte(bytes[5]).0
    }

    /// Reads the battery charge from byte 2 of a payload.
    pub fn decode_battery(bytes: &[u8]) -> (battery: u8)
        requires
            bytes@.len() > 2,
        ensures
            battery == battery_of(bytes@),
    {
        split_byte(bytes[2]).0
    }
}

/// Decodes a payload into temperature, display-unit flag, relative humidity
/// and battery charge. A payload of fewer than six bytes is refused; bytes
/// after the sixth are ignored.
pub fn decode(bytes: &[u8]) -> (r: Result<(Celsius, bool, u8, u8), DecodeError>)
    ensures
        r is Ok <==> decodable(bytes@),
        r matches Ok(m) ==> measured(m) == measurement_of(bytes@),
        r matches Err(e) ==> e == DecodeError::Truncated,
{
    if bytes.len() < PAYLOAD_LEN {
        return Err(DecodeError::Truncated);
    }
    let temperature = match SwitchbotThermometer::decode_temperature(bytes) {
        Ok(t) => t,
        Err(e) => {
            return Err(e);
        },
    };
    let fahrenheit = SwitchbotThermometer::decode_temperature_unit(bytes);
    let humidity = SwitchbotThermometer::decode_humidity(bytes);
    let battery = SwitchbotThermometer::decode_battery(bytes);
    Ok((temperature, fahrenheit, humidity, battery))
}

/// Decoding has one answer: whatever two runs of `decode` return for
/// payloads of six bytes or more that hold the same bytes is the same.
pub proof fn lemma_decode_is_deterministic(
    first: &[u8],
    second: &[u8],
    first_result: Result<(Celsius, bool, u8, u8), DecodeError>,
    second_result: Result<(Celsius, bool, u8, u8), DecodeError>,
)
    requires
        decodable(first@),
        first@ == second@,
        call_ensures(decode, (first,), first_result),
        call_ensures(decode, (second,), second_result),
    ensures
        decoded(first@) == decoded(second@),
        first_result is Ok,
        first_result == second_result,
{
}

/// The measurements of a payload are those of its first six bytes.
pub proof fn lemma_decode_reads_six_bytes(bytes: Seq<u8>)
    requires
        decodable(bytes),
    ensures
        decoded(bytes) == decoded(bytes.take(PAYLOAD_LEN as int)),
{
}

/// A decodable payload gives measurements within the ranges of its fields:
/// seven bits each for humidity and battery, and a temperature of at most
/// 152.5 degrees either side of zero.
pub proof fn lemma_measurements_in_range(address: Seq<char>, bytes: Seq<u8>)
    requires
        decodable(bytes),
    ensures
        reading_of(address, bytes).in_range(),
{
}

impl<'a> TryFrom<(String, &'a [u8])> for SwitchbotThermometer {
    type Error = DecodeError;

    /// Builds the reading of the device `data.0` from the payload `data.1`.
    fn try_from(data: (String, &'a [u8])) -> (r: Result<Self, DecodeError>)
        ensures
            decodable(data.1@) ==> r is Ok && r->Ok_0@ == reading_of(data.0@, data.1@)
                && r->Ok_0.well_formed(),
            !decodable(data.1@) ==> r == Err::<Self, DecodeError>(DecodeError::Truncated),
    {
        let (address, bytes) = data;
        match decode(bytes) {
            Ok((temperature, fahrenheit, humidity, battery)) => Ok(
                SwitchbotThermometer { address, temperature, fahrenheit, humidity, battery },
            ),
            Err(e) => Err(e),
        }
    }
}

impl<'a> TryFromSpecImpl<(String, &'a [u8])> for SwitchbotThermometer {
    open spec fn obeys_try_from_spec() -> bool {
        true
    }

    open spec fn try_from_spec(data: (String, &'a [u8])) -> Result<Self, DecodeError> {
        if decodable(data.1@) {
            Ok(
                SwitchbotThermometer {
                    address: data.0,
                    temperature: Celsius { tenths: tenths_of(data.1@) as i32 },
                    fahrenheit: fahrenheit_of(data.1@),
                    humidity: humidity_of(data.1@) as u8,
                    battery: battery_of(data.1@) as u8,
                },
            )
        } else {
            Err(DecodeError::Truncated)
        }
    }
}

} // verus!
