//! The gauges that report a reading to a statsd collector.
//!
//! Each reading gives three gauges, for temperature, humidity and battery.
//! This module names them and writes the line of text that goes on the wire
//! for each; sending the lines is left to the caller.

use crate::identity::is_canonical_address;
use crate::models::{Celsius, Reading, ReportError, ReportResult, SwitchbotThermometer};
use crate::text::{
    chars_of, decimal, is_ascii_upper, is_hex_digit, lower, lower_chars, string_of, without,
    without_char,
};
use vstd::prelude::*;
use vstd::string::StringExecFns;

verus! {

/// The prefix under which the gauges are filed unless the caller picks another.
pub const DEFAULT_PREFIX: &'static str = "switchbot";

/// `s` without the occurrences of `c` at its end.
pub open spec fn trim_trailing(s: Seq<char>, c: char) -> Seq<char>
    decreases s.len(),
{
    if s.len() > 0 && s.last() == c {
        trim_trailing(s.drop_last(), c)
    } else {
        s
    }
}

/// The text that a gauge's name starts with: nothing for an empty prefix,
/// else the prefix with one `.` at its end in place of any that it had.
pub open spec fn prefix_text(prefix: Seq<char>) -> Seq<char> {
    if prefix.len() == 0 {
        prefix
    } else {
        trim_trailing(prefix, '.').push('.')
    }
}

/// The line that reports the gauge `key` with the value `value`, its name
/// starting with `prefix`: the name, `:`, the value in decimal, and `|g`.
pub open spec fn gauge_text(prefix: Seq<char>, key: Seq<char>, value: nat) -> Seq<char> {
    prefix + key + seq![':'] + decimal(value) + seq!['|', 'g']
}

/// The device address as it appears in gauge names: without `:` and in
/// lower case.
pub open spec fn metric_id(address: Seq<char>) -> Seq<char> {
    lower(without(address, ':'))
}

/// The value of the temperature gauge: hundredths of a degree Celsius. The
/// gauge is unsigned; a temperature below zero is reported as zero.
pub open spec fn temperature_value(tenths: int) -> nat {
    if tenths > 0 {
        (tenths * 10) as nat
    } else {
        0
    }
}

/// The three lines that report a reading, for temperature, humidity and
/// battery in this order.
pub open spec fn report_text(prefix: Seq<char>, reading: Reading) -> Seq<Seq<char>> {
    let id = metric_id(reading.address);
    seq![
        gauge_text(prefix_text(prefix), "temperature."@ + id, temperature_value(reading.tenths)),
        gauge_text(prefix_text(prefix), "humidity."@ + id, reading.humidity as nat),
        gauge_text(prefix_text(prefix), "battery."@ + id, reading.battery as nat),
    ]
}

/// The views of the lines held in `lines`.
pub open spec fn line_views(lines: Seq<String>) -> Seq<Seq<char>> {
    Seq::new(lines.len(), |i: int| lines[i]@)
}

/// Writes the statsd line of a gauge with `cadence::Gauge::new` and reads it
/// back with `Metric::as_metric_str`. The line is `prefix` and `key` as they
/// are given, a colon, `value` in decimal, and `|g`.
#[verifier::external_body]
fn gauge_line(prefix: &str, key: &str, value: u64) -> (line: String)
    ensures
        line@ == gauge_text(prefix@, key@, value as nat),
{
    cadence::Metric::as_metric_str(&cadence::Gauge::new(prefix, key, value)).to_owned()
}

/// The text that the names of all gauges filed under `prefix` start with.
pub fn formatted_prefix(prefix: &str) -> (r: String)
    ensures
        r@ == prefix_text(prefix@),
{
    let chars = chars_of(prefix);
    if chars.len() == 0 {
        return String::new();
    }
    let mut end: usize = chars.len();
    assert(chars@.take(end as int) == chars@);
    while end > 0 && chars[end - 1] == '.'
        invariant
            end <= chars.len(),
            trim_trailing(chars@, '.') == trim_trailing(chars@.take(end as int), '.'),
        decreases end,
    {
        assert(chars@.take(end as int).drop_last() == chars@.take(end - 1));
        end = end - 1;
    }
    let mut kept: Vec<char> = Vec::new();
    let mut i: usize = 0;
    while i < end
        invariant
            i <= end <= chars.len(),
            kept@ == chars@.take(i as int),
        decreases end - i,
    {
        kept.push(chars[i]);
        assert(chars@.take(i + 1) == chars@.take(i as int).push(chars@[i as int]));
        i = i + 1;
    }
    kept.push('.');
    string_of(&kept)
}

/// The device address as it appears in gauge names.
pub fn metric_device_id(address: &str) -> (id: String)
    ensures
        id@ == metric_id(address@),
{
    let chars = chars_of(address);
    let bare = without_char(&chars, ':');
    let small = lower_chars(&bare);
    string_of(&small)
}

/// The value of the temperature gauge for a temperature.
pub fn temperature_gauge(temperature: Celsius) -> (value: u64)
    ensures
        value == temperature_value(temperature.tenths as int),
{
    if temperature.tenths > 0 {
        (temperature.tenths as u64) * 10
    } else {
        0
    }
}

/// The line that reports the temperature of the device `device_id`.
pub fn output_temperature(prefix: &str, device_id: &str, value: u64) -> (line: String)
    ensures
        line@ == gauge_text(prefix@, "temperature."@ + device_id@, value as nat),
{
    let mut key = "temperature.".to_owned();
    key.append(device_id);
    gauge_line(prefix, key.as_str(), value)
}

/// The line that reports the humidity at the device `device_id`.
pub fn output_humidity(prefix: &str, device_id: &str, value: u64) -> (line: String)
    ensures
        line@ == gauge_text(prefix@, "humidity."@ + device_id@, value as nat),
{
    let mut key = "humidity.".to_owned();
    key.append(device_id);
    gauge_line(prefix, key.as_str(), value)
}

/// The line that reports the battery charge of the device `device_id`.
pub fn output_battery(prefix: &str, device_id: &str, value: u64) -> (line: String)
    ensures
        line@ == gauge_text(prefix@, "battery."@ + device_id@, value as nat),
{
    let mut key = "battery.".to_owned();
    key.append(device_id);
    gauge_line(prefix, key.as_str(), value)
}

/// The lines to send for one reading: its temperature, humidity and battery
/// gauges, in this order, filed under `prefix`.
///
/// The caller sends each line whether or not the one before it could be
/// sent, and hands the three outcomes to `report_result`.
pub fn report(prefix: &str, device: &SwitchbotThermometer) -> (lines: Vec<String>)
    ensures
        line_views(lines@) == report_text(prefix@, device@),
{
    let start = formatted_prefix(prefix);
    let id = metric_device_id(device.address.as_str());
    let mut lines: Vec<String> = Vec::new();
    lines.push(output_temperature(start.as_str(), id.as_str(), temperature_gauge(device.c())));
    lines.push(output_humidity(start.as_str(), id.as_str(), device.humidity as u64));
    lines.push(output_battery(start.as_str(), id.as_str(), device.battery as u64));
    assert(line_views(lines@) =~= report_text(prefix@, device@));
    lines
}

/// Reporting has no memory: whatever two runs of `report` return for the
/// same prefix and the same reading is the same three lines.
pub proof fn lemma_report_is_repeatable(
    prefix: &str,
    device: &SwitchbotThermometer,
    first: Vec<String>,
    second: Vec<String>,
)
    requires
        call_ensures(report, (prefix, device), first),
        call_ensures(report, (prefix, device), second),
    ensures
        first@.len() == 3,
        line_views(first@) == report_text(prefix@, device@),
        line_views(first@) == line_views(second@),
{
    assert(line_views(first@).len() == 3);
}

/// The device address of a reading appears in gauge names as twelve
/// hexadecimal digits, none of them an upper-case letter.
pub proof fn lemma_metric_id_of_address(address: Seq<char>)
    requires
        is_canonical_address(address),
    ensures
        metric_id(address).len() == 12,
        forall|i: int|
            0 <= i < 12 ==> is_hex_digit(#[trigger] metric_id(address)[i]) && !is_ascii_upper(
                metric_id(address)[i],
            ),
{
    lemma_without_canonical(address, 17);
    assert(address.take(17) == address);
    assert forall|i: int| 0 <= i < 12 implies is_hex_digit(#[trigger] metric_id(address)[i])
        && !is_ascii_upper(metric_id(address)[i]) by {
        let j = i + i / 2;
        assert(j % 3 != 2);
        assert(is_hex_digit(address[j]));
    }
}

/// The first `n` characters of a canonical address without their separators
/// are its first hexadecimal digits: every third character is left out.
proof fn lemma_without_canonical(address: Seq<char>, n: int)
    requires
        is_canonical_address(address),
        0 <= n <= 17,
    ensures
        without(address.take(n), ':') == Seq::new((n - n / 3) as nat, |i: int| address[i + i / 2]),
    decreases n,
{
    let kept = Seq::new((n - n / 3) as nat, |i: int| address[i + i / 2]);
    if n == 0 {
        assert(without(address.take(0), ':') =~= kept);
    } else {
        lemma_without_canonical(address, n - 1);
        assert(address.take(n).drop_last() == address.take(n - 1));
        assert(address.take(n).last() == address[n - 1]);
        if (n - 1) % 3 == 2 {
            assert(address[n - 1] == ':');
        } else {
            assert(is_hex_digit(address[n - 1]));
            assert(address[n - 1] != ':');
        }
        assert(without(address.take(n), ':') =~= kept);
    }
}

/// What a report comes to, given which of its three gauges were sent: success
/// if all were, else an error that names those that were not.
pub fn report_result(temperature_sent: bool, humidity_sent: bool, battery_sent: bool) -> (r:
    ReportResult)
    ensures
        r is Ok <==> temperature_sent && humidity_sent && battery_sent,
        r matches Err(e) ==> e == (ReportError {
            temperature: !temperature_sent,
            humidity: !humidity_sent,
            battery: !battery_sent,
        }),
{
    if temperature_sent && humidity_sent && battery_sent {
        Ok(())
    } else {
        Err(
            ReportError {
                temperature: !temperature_sent,
                humidity: !humidity_sent,
                battery: !battery_sent,
            },
        )
    }
}

} // verus!
