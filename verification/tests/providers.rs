use libbar::bar::Bar;
use libbar::error::ErrorKind;
use libbar::message::ModuleOutput;
use libbar::module::Module;
use libbar::modules::battery::{
    parse_number, trim_text, BatteryInfo, BatteryStatus, BatteryValue, BATTERY_PATH,
};
use libbar::modules::load::{find_space, load_fields, CRIT_COLOR, LOAD_FILE, OK_COLOR};
use libbar::modules::{Battery, Clock, Load};

#[test]
fn clock_is_named_and_never_fails() {
    let mut clock = Clock::new();
    assert_eq!(clock.name(), "clock");
    let b = clock.output().unwrap();
    assert_eq!(b.name, "clock");
    assert!(!b.urgent);
    assert_eq!(b.color, None);
    assert!(!b.full_text.is_empty());
}

#[test]
fn clock_text_has_weekday_day_month_and_time() {
    let b = Clock::new().output().unwrap();
    let parts: Vec<&str> = b.full_text.split(' ').collect();
    assert_eq!(parts.len(), 4);
    assert!(["Mon", "Tue", "Wed", "Thu", "Fri", "Sat", "Sun"].contains(&parts[0]));
    let day: u32 = parts[1].parse().unwrap();
    assert!((1..=31).contains(&day));
    assert_eq!(parts[1], day.to_string());
    assert_eq!(parts[2].len(), 3);
    let time: Vec<&str> = parts[3].split(':').collect();
    assert_eq!(time.len(), 3);
    assert!(time.iter().all(|t| t.len() == 2 && t.parse::<u32>().is_ok()));
}

#[test]
fn clock_block_of_a_given_text() {
    assert_eq!(Clock::block("Mon 1 Jan 12:00:00".to_string()), ModuleOutput::new("clock").with_full_text("Mon 1 Jan 12:00:00".to_string()));
}

#[test]
fn boxed_clock_registers() {
    let mut bar = Bar::new();
    bar.register(Clock::new().boxed());
    let report = bar.run(1);
    assert_eq!(report.failure, None);
    assert_eq!(report.lines.len(), 4);
    assert!(report.lines[2].starts_with("[{\"full_text\":\""));
    assert!(report.lines[2].ends_with("\",\"name\":\"clock\",\"urgent\":false}]"));
}

#[test]
fn load_fields_are_the_first_two() {
    assert_eq!(LOAD_FILE, "/proc/loadavg");
    assert_eq!(
        load_fields("0.52 0.43 0.40 1/613 12345\n").unwrap(),
        ("0.52".to_string(), "0.43".to_string())
    );
    assert_eq!(load_fields("1.5 2.5").unwrap(), ("1.5".to_string(), "2.5".to_string()));
}

#[test]
fn load_fields_split_at_every_single_space() {
    assert_eq!(load_fields("a ").unwrap(), ("a".to_string(), "".to_string()));
    assert_eq!(load_fields(" b").unwrap(), ("".to_string(), "b".to_string()));
    assert_eq!(load_fields("a  b").unwrap(), ("a".to_string(), "".to_string()));
    assert_eq!(load_fields("\u{e9}\u{e9} x\u{1F600} y").unwrap(), ("\u{e9}\u{e9}".to_string(), "x\u{1F600}".to_string()));
}

#[test]
fn load_without_a_second_field_is_malformed() {
    for raw in ["", "0.52", "0.52\t0.43\n"] {
        let e = load_fields(raw).unwrap_err();
        assert_eq!(e.kind, ErrorKind::MalformedData);
        assert_eq!(e.message, "Invalid data for load average");
    }
}

#[test]
fn find_space_finds_the_first_from_a_place() {
    assert_eq!(find_space("a b c", 0), 1);
    assert_eq!(find_space("a b c", 1), 1);
    assert_eq!(find_space("a b c", 2), 3);
    assert_eq!(find_space("a b c", 4), 5);
    assert_eq!(find_space("a b c", 5), 5);
    assert_eq!(find_space("", 0), 0);
    assert_eq!(find_space("a b", 7), 3);
}

#[test]
fn load_report_takes_the_colour_of_the_urgency() {
    let load = Load::new();
    assert_eq!(load.ok_color(), OK_COLOR);
    assert_eq!(load.critical_color(), CRIT_COLOR);
    assert_eq!(
        load.report(false, "0.52 0.43".to_string()),
        ModuleOutput::new("load").with_full_text("0.52 0.43".to_string()).with_color("#FFFFFF".to_string())
    );
    assert_eq!(
        load.report(true, "9.10 8.80".to_string()),
        ModuleOutput::new("load")
            .with_full_text("9.10 8.80".to_string())
            .with_urgent(true)
            .with_color("#FF0000".to_string())
    );
}

#[test]
fn load_colours_can_be_changed() {
    let load = Load::new().with_ok_color("#00FF00".to_string()).with_critical_color("#FFFF00".to_string());
    let boxed = load.boxed();
    assert_eq!(boxed.report(false, String::new()).color, Some("#00FF00".to_string()));
    assert_eq!(boxed.report(true, String::new()).color, Some("#FFFF00".to_string()));
}

#[test]
fn trim_removes_white_space_at_both_ends_only() {
    assert_eq!(trim_text("  a b \n"), "a b");
    assert_eq!(trim_text("a"), "a");
    assert_eq!(trim_text(""), "");
    assert_eq!(trim_text(" \t\r\n"), "");
    assert_eq!(trim_text("\u{a0}x\u{3000}"), "x");
    assert_eq!(trim_text("\u{200b}x\u{200b}"), "\u{200b}x\u{200b}");
}

#[test]
fn trim_agrees_with_the_standard_library_on_every_character() {
    for code in 0u32..0x3100 {
        if let Some(c) = char::from_u32(code) {
            let text = format!("{}{}x{}y{}", c, c, c, c);
            assert_eq!(trim_text(&text), text.trim());
            let only = format!("{}", c);
            assert_eq!(trim_text(&only), only.trim());
        }
    }
    for c in ['\u{feff}', '\u{e000}', '\u{1F600}', '\u{10FFFF}'] {
        let text = format!("{} x {}", c, c);
        assert_eq!(trim_text(&text), text.trim());
    }
}

#[test]
fn parse_number_reads_signed_decimals() {
    assert_eq!(parse_number("0"), Some(0));
    assert_eq!(parse_number("-0"), Some(0));
    assert_eq!(parse_number("+12"), Some(12));
    assert_eq!(parse_number("-12"), Some(-12));
    assert_eq!(parse_number("0000000000012"), Some(12));
    assert_eq!(parse_number("2147483647"), Some(i32::MAX));
    assert_eq!(parse_number("2147483648"), None);
    assert_eq!(parse_number("-2147483648"), Some(i32::MIN));
    assert_eq!(parse_number("-2147483649"), None);
    assert_eq!(parse_number("99999999999999999999999999"), None);
    for text in ["", "+", "-", "--1", "1-", " 1", "1 ", "1_0", "0x10", "1.0", "\u{661}"] {
        assert_eq!(parse_number(text), None);
        assert_eq!(parse_number(text), text.parse::<i32>().ok());
    }
}

#[test]
fn battery_value_is_a_number_where_the_text_is_one() {
    assert_eq!(BatteryValue::from_raw("4200000\n"), BatteryValue::Int(4200000));
    assert_eq!(BatteryValue::from_raw("  -17 "), BatteryValue::Int(-17));
    assert_eq!(BatteryValue::from_raw("+5"), BatteryValue::Int(5));
    assert_eq!(BatteryValue::from_raw("007"), BatteryValue::Int(7));
    assert_eq!(BatteryValue::from_raw("-2147483648"), BatteryValue::Int(i32::MIN));
    assert_eq!(BatteryValue::from_raw("2147483647"), BatteryValue::Int(i32::MAX));
}

#[test]
fn battery_value_is_a_text_otherwise() {
    assert_eq!(BatteryValue::from_raw("Charging\n"), BatteryValue::String("Charging".to_string()));
    assert_eq!(BatteryValue::from_raw("2147483648"), BatteryValue::String("2147483648".to_string()));
    assert_eq!(BatteryValue::from_raw("-2147483649"), BatteryValue::String("-2147483649".to_string()));
    assert_eq!(BatteryValue::from_raw("1 2"), BatteryValue::String("1 2".to_string()));
    assert_eq!(BatteryValue::from_raw("1.5"), BatteryValue::String("1.5".to_string()));
    assert_eq!(BatteryValue::from_raw("-"), BatteryValue::String("-".to_string()));
    assert_eq!(BatteryValue::from_raw(" \n"), BatteryValue::String("".to_string()));
}

#[test]
fn expect_int_and_expect_string() {
    assert_eq!(BatteryValue::Int(12).expect_int().unwrap(), 12);
    assert_eq!(BatteryValue::String("Full".to_string()).expect_string().unwrap(), "Full");
    let e = BatteryValue::String("Full".to_string()).expect_int().unwrap_err();
    assert_eq!(e.kind, ErrorKind::MalformedData);
    assert_eq!(e.message, "Invalid battery int data: Full");
    let e = BatteryValue::Int(-12).expect_string().unwrap_err();
    assert_eq!(e.kind, ErrorKind::MalformedData);
    assert_eq!(e.message, "Invalid battery string data: -12");
}

#[test]
fn battery_status_words() {
    assert_eq!(BatteryStatus::try_from("Full".to_string()).unwrap(), BatteryStatus::Full);
    assert_eq!(BatteryStatus::try_from("Charging".to_string()).unwrap(), BatteryStatus::Charging);
    assert_eq!(BatteryStatus::try_from("Discharging".to_string()).unwrap(), BatteryStatus::Discharging);
    assert_eq!(BatteryStatus::Full.label(), "Full");
    assert_eq!(BatteryStatus::Charging.label(), "Charging");
    assert_eq!(BatteryStatus::Discharging.label(), "Discharging");
    for word in ["full", "Unknown", "", "Not charging", "Full "] {
        let e = BatteryStatus::try_from(word.to_string()).unwrap_err();
        assert_eq!(e.kind, ErrorKind::MalformedData);
        assert_eq!(e.message, format!("Invalid battery status: {}", word));
    }
}

#[test]
fn battery_status_from_readings() {
    assert_eq!(BatteryStatus::from_readings(true, true).unwrap(), BatteryStatus::Charging);
    for (draws, below) in [(true, false), (false, true), (false, false)] {
        let e = BatteryStatus::from_readings(draws, below).unwrap_err();
        assert_eq!(e.kind, ErrorKind::MalformedData);
        assert_eq!(e.message, "Unknown battery charge state");
    }
}

#[test]
fn battery_reads_the_first_battery() {
    assert_eq!(BATTERY_PATH, "/sys/class/power_supply/BAT0");
    let battery = Battery::new().boxed();
    assert_eq!(battery.info().path(), "/sys/class/power_supply/BAT0");
    assert_eq!(BatteryInfo::new("/tmp/bat").path(), "/tmp/bat");
}

#[test]
fn battery_report_text() {
    assert_eq!(
        Battery::report("97.5", BatteryStatus::Charging),
        ModuleOutput::new("battery").with_full_text("\u{c2}\u{b1} 97.5% (Charging)".to_string())
    );
    assert_eq!(Battery::report("100.0", BatteryStatus::Full).full_text, "\u{c2}\u{b1} 100.0% (Full)");
}
