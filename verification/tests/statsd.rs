use bluezadvertising::models::{
    Celsius, ReportError, ReportResult, Reporter, SwitchbotThermometer,
};
use bluezadvertising::statsd_output::{
    formatted_prefix, metric_device_id, output_battery, output_humidity, output_temperature,
    report, report_result, temperature_gauge, DEFAULT_PREFIX,
};
use std::cell::RefCell;

fn reading(address: &str, tenths: i32, humidity: u8, battery: u8) -> SwitchbotThermometer {
    SwitchbotThermometer {
        address: address.to_string(),
        temperature: Celsius { tenths },
        fahrenheit: false,
        humidity,
        battery,
    }
}

#[test]
fn default_prefix() {
    assert_eq!(DEFAULT_PREFIX, "switchbot");
}

#[test]
fn prefix_gets_one_dot() {
    assert_eq!(formatted_prefix("switchbot"), "switchbot.");
    assert_eq!(formatted_prefix("switchbot."), "switchbot.");
    assert_eq!(formatted_prefix("switchbot..."), "switchbot.");
    assert_eq!(formatted_prefix("home.switchbot"), "home.switchbot.");
    assert_eq!(formatted_prefix(".a"), ".a.");
}

#[test]
fn empty_prefix_stays_empty() {
    assert_eq!(formatted_prefix(""), "");
}

#[test]
fn prefix_of_dots_only() {
    assert_eq!(formatted_prefix("."), ".");
    assert_eq!(formatted_prefix("..."), ".");
}

#[test]
fn device_id_drops_colons_and_case() {
    assert_eq!(metric_device_id("F0:73:23:10:C7:3E"), "f0732310c73e");
    assert_eq!(metric_device_id("AA:BB:CC:DD:EE:FF"), "aabbccddeeff");
    assert_eq!(metric_device_id("aabbccddeeff"), "aabbccddeeff");
    assert_eq!(metric_device_id(""), "");
    assert_eq!(metric_device_id(":::"), "");
    assert_eq!(metric_device_id("A:b:Z:@:["), "abz@[");
}

#[test]
fn device_id_leaves_other_letters_alone() {
    assert_eq!(metric_device_id("\u{c9}:\u{e9}"), "\u{c9}\u{e9}");
}

#[test]
fn temperature_gauge_is_in_hundredths() {
    assert_eq!(temperature_gauge(Celsius { tenths: 51 }), 510);
    assert_eq!(temperature_gauge(Celsius { tenths: 1 }), 10);
    assert_eq!(temperature_gauge(Celsius { tenths: 1525 }), 15250);
    assert_eq!(temperature_gauge(Celsius { tenths: i32::MAX }), i32::MAX as u64 * 10);
}

#[test]
fn temperature_gauge_stops_at_zero() {
    assert_eq!(temperature_gauge(Celsius { tenths: 0 }), 0);
    assert_eq!(temperature_gauge(Celsius { tenths: -1 }), 0);
    assert_eq!(temperature_gauge(Celsius { tenths: -131 }), 0);
    assert_eq!(temperature_gauge(Celsius { tenths: i32::MIN }), 0);
}

#[test]
fn gauge_lines() {
    assert_eq!(
        output_temperature("switchbot.", "f0732310c73e", 510),
        "switchbot.temperature.f0732310c73e:510|g"
    );
    assert_eq!(
        output_humidity("switchbot.", "f0732310c73e", 40),
        "switchbot.humidity.f0732310c73e:40|g"
    );
    assert_eq!(
        output_battery("switchbot.", "f0732310c73e", 50),
        "switchbot.battery.f0732310c73e:50|g"
    );
}

#[test]
fn gauge_line_takes_prefix_and_id_as_given() {
    assert_eq!(output_temperature("", "", 0), "temperature.:0|g");
    assert_eq!(output_humidity("x", "y", 7), "xhumidity.y:7|g");
    assert_eq!(output_battery("a.b.", "c.d", 100), "a.b.battery.c.d:100|g");
}

#[test]
fn gauge_value_is_written_in_decimal() {
    assert_eq!(output_temperature("p.", "d", 9), "p.temperature.d:9|g");
    assert_eq!(output_temperature("p.", "d", 10), "p.temperature.d:10|g");
    assert_eq!(output_temperature("p.", "d", 1000), "p.temperature.d:1000|g");
    assert_eq!(
        output_temperature("p.", "d", u64::MAX),
        "p.temperature.d:18446744073709551615|g"
    );
}

#[test]
fn report_gives_three_lines_in_order() {
    let lines = report("switchbot", &reading("AA:BB:CC:DD:EE:FF", 51, 40, 50));
    assert_eq!(
        lines,
        vec![
            "switchbot.temperature.aabbccddeeff:510|g",
            "switchbot.humidity.aabbccddeeff:40|g",
            "switchbot.battery.aabbccddeeff:50|g",
        ]
    );
}

#[test]
fn report_below_zero() {
    let lines = report("switchbot", &reading("AA:BB:CC:DD:EE:FF", -131, 127, 0));
    assert_eq!(
        lines,
        vec![
            "switchbot.temperature.aabbccddeeff:0|g",
            "switchbot.humidity.aabbccddeeff:127|g",
            "switchbot.battery.aabbccddeeff:0|g",
        ]
    );
}

#[test]
fn report_without_prefix() {
    let lines = report("", &reading("F0:73:23:10:C7:3E", 225, 1, 2));
    assert_eq!(
        lines,
        vec![
            "temperature.f0732310c73e:2250|g",
            "humidity.f0732310c73e:1|g",
            "battery.f0732310c73e:2|g",
        ]
    );
}

#[test]
fn reporting_twice_gives_the_same_lines_twice() {
    let device = reading("AA:BB:CC:DD:EE:FF", 51, 40, 50);
    let first = report(DEFAULT_PREFIX, &device);
    let second = report(DEFAULT_PREFIX, &device);
    assert_eq!(first.len(), 3);
    assert_eq!(first, second);
}

#[test]
fn report_result_is_ok_when_all_were_sent() {
    assert_eq!(report_result(true, true, true), Ok(()));
}

#[test]
fn report_result_names_what_failed() {
    assert_eq!(
        report_result(false, true, true),
        Err(ReportError { temperature: true, humidity: false, battery: false })
    );
    assert_eq!(
        report_result(true, false, true),
        Err(ReportError { temperature: false, humidity: true, battery: false })
    );
    assert_eq!(
        report_result(true, true, false),
        Err(ReportError { temperature: false, humidity: false, battery: true })
    );
    assert_eq!(
        report_result(false, false, false),
        Err(ReportError { temperature: true, humidity: true, battery: true })
    );
}

struct Recorder {
    sent: RefCell<Vec<String>>,
    refuse: Option<usize>,
}

impl Reporter for Recorder {
    fn report(&self, device: &SwitchbotThermometer) -> ReportResult {
        let mut outcome = Vec::new();
        for (i, line) in report(DEFAULT_PREFIX, device).into_iter().enumerate() {
            if self.refuse == Some(i) {
                outcome.push(false);
            } else {
                self.sent.borrow_mut().push(line);
                outcome.push(true);
            }
        }
        report_result(outcome[0], outcome[1], outcome[2])
    }
}

#[test]
fn a_failed_gauge_does_not_hold_back_the_others() {
    let recorder = Recorder { sent: RefCell::new(Vec::new()), refuse: Some(0) };
    let result = recorder.report(&reading("AA:BB:CC:DD:EE:FF", 51, 40, 50));
    assert_eq!(result, Err(ReportError { temperature: true, humidity: false, battery: false }));
    assert_eq!(
        *recorder.sent.borrow(),
        vec!["switchbot.humidity.aabbccddeeff:40|g", "switchbot.battery.aabbccddeeff:50|g"]
    );
}
