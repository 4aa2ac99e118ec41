use touch_numpad::discovery::{read_event_number, scan_lines, ScanError, Scanner, Touchpad};
use touch_numpad::session::{Attempts, Retry, SessionError, TRY_SLEEP_MS, TRY_TIMES};
use touch_numpad::text::{cut, find, has, length_before, matches_at, slice, strip, to_chars};

fn lines(text: &[&str]) -> Vec<String> {
    text.iter().map(|l| l.to_string()).collect()
}

fn listing() -> Vec<String> {
    lines(&[
        "I: Bus=0019 Vendor=0000 Product=0005 Version=0000",
        "N: Name=\"Lid Switch\"",
        "P: Phys=PNP0C0D/button/input0",
        "S: Sysfs=/devices/LNXSYSTM:00/LNXSYBUS:00/PNP0C0D:00/input/input0",
        "U: Uniq=",
        "H: Handlers=event0 ",
        "B: PROP=0",
        "",
        "I: Bus=0018 Vendor=04f3 Product=3090 Version=0100",
        "N: Name=\"ELAN1200:00 04F3:3090 Mouse\"",
        "P: Phys=i2c-ELAN1200:00",
        "S: Sysfs=/devices/pci0000:00/0000:00:15.1/i2c_designware.1/i2c-7/i2c-ELAN1200:00/0018:04F3:3090.0001/input/input11",
        "U: Uniq=",
        "H: Handlers=mouse0 event8 ",
        "",
        "I: Bus=0018 Vendor=04f3 Product=3090 Version=0100",
        "N: Name=\"ELAN1200:00 04F3:3090 Touchpad\"",
        "P: Phys=i2c-ELAN1200:00",
        "S: Sysfs=/devices/pci0000:00/0000:00:15.1/i2c_designware.1/i2c-2/i2c-ELAN1200:00/0018:04F3:3090.0001/input/input12",
        "U: Uniq=",
        "H: Handlers=mouse1 event9 ",
        "B: PROP=5",
        "",
        "I: Bus=0011 Vendor=0001 Product=0001 Version=ab83",
        "N: Name=\"Power Button\"",
        "S: Sysfs=/devices/platform/i8042/serio0/input/input3",
        "H: Handlers=sysrq kbd event3 leds ",
    ])
}

#[test]
fn finds_the_touchpad_in_a_device_list() {
    let device = scan_lines(&listing()).unwrap().unwrap();
    assert_eq!(device.event, "9");
    assert_eq!(device.bus, "2");
}

#[test]
fn finds_a_touchpad_of_the_other_maker() {
    let device = scan_lines(&lines(&[
        "N: Name=\"ASUE1406:00 04F3:3101 Touchpad\"",
        "S: Sysfs=/devices/platform/AMDI0010:03/i2c-13/i2c-ASUE1406:00/input/input21",
        "H: Handlers=event14 mouse3",
    ]))
    .unwrap()
    .unwrap();
    assert_eq!(device.event, "14");
    assert_eq!(device.bus, "13");
}

#[test]
fn other_makers_and_other_devices_are_passed_over() {
    let found = scan_lines(&lines(&[
        "N: Name=\"SYNA1234:00 Touchpad\"",
        "S: Sysfs=/devices/i2c-4/x",
        "H: Handlers=event5 ",
        "N: Name=\"ELAN1200:00 04F3:3090 Mouse\"",
        "S: Sysfs=/devices/i2c-7/x",
        "H: Handlers=event8 ",
    ]))
    .unwrap();
    assert!(found.is_none());
}

#[test]
fn empty_list_holds_no_touchpad() {
    assert!(scan_lines(&Vec::new()).unwrap().is_none());
}

#[test]
fn entry_without_a_system_path_is_not_enough() {
    let found = scan_lines(&lines(&[
        "N: Name=\"ELAN1200:00 04F3:3090 Touchpad\"",
        "H: Handlers=mouse1 event9 ",
    ]))
    .unwrap();
    assert!(found.is_none());
}

#[test]
fn entry_without_handlers_is_not_enough() {
    let found = scan_lines(&lines(&[
        "N: Name=\"ELAN1200:00 04F3:3090 Touchpad\"",
        "S: Sysfs=/devices/i2c-2/x",
    ]))
    .unwrap();
    assert!(found.is_none());
}

#[test]
fn system_path_without_a_bus_is_kept_as_it_stands() {
    let device = scan_lines(&lines(&[
        "N: Name=\"ELAN1200:00 04F3:3090 Touchpad\"",
        "S: Sysfs=/devices/platform/serio1",
        "H: Handlers=event9 ",
    ]))
    .unwrap()
    .unwrap();
    assert_eq!(device.bus, "S: Sysfs=/devices/platform/serio1");
    assert_eq!(device.event, "9");
}

#[test]
fn the_last_bus_of_the_path_counts() {
    let device = scan_lines(&lines(&[
        "N: Name=\"ELAN Touchpad\"",
        "S: Sysfs=/devices/i2c-1/i2c-22/input",
        "H: Handlers=event0",
    ]))
    .unwrap()
    .unwrap();
    assert_eq!(device.bus, "22");
    assert_eq!(device.event, "0");
}

#[test]
fn handlers_without_an_event_stream_stop_the_scan() {
    let r = scan_lines(&lines(&[
        "N: Name=\"ELAN1200:00 04F3:3090 Touchpad\"",
        "S: Sysfs=/devices/i2c-2/x",
        "H: Handlers=mouse1 ",
    ]));
    assert_eq!(r.err(), Some(ScanError::NoEvent));
}

#[test]
fn lines_behind_the_handlers_change_nothing() {
    let device = scan_lines(&lines(&[
        "N: Name=\"ELAN1200:00 04F3:3090 Touchpad\"",
        "S: Sysfs=/devices/i2c-2/x",
        "H: Handlers=event9 ",
        "S: Sysfs=/devices/i2c-5/x",
        "H: Handlers=event4 ",
        "N: Name=\"ASUE1406:00 04F3:3101 Touchpad\"",
    ]))
    .unwrap()
    .unwrap();
    assert_eq!(device.event, "9");
    assert_eq!(device.bus, "2");
}

#[test]
fn a_name_line_can_close_the_search_itself() {
    let mut s = Scanner::new();
    s.feed("N: Name=\"ELAN Touchpad\" S: /i2c-3/ H: event12 x").unwrap();
    let device = s.finish().unwrap();
    assert_eq!(device.event, "12");
    assert_eq!(device.bus, "3");
}

#[test]
fn scanner_moves_from_no_to_yes_to_found() {
    let mut s = Scanner::new();
    assert!(matches!(s.touchpad, Touchpad::No));
    s.feed("N: Name=\"Lid Switch\"").unwrap();
    assert!(matches!(s.touchpad, Touchpad::No));
    assert!(!s.in_entry("S: Sysfs=/devices/i2c-2/x"));
    assert!(s.in_entry("N: Name=\"ELAN1200:00 04F3:3090 Touchpad\""));
    s.feed("N: Name=\"ELAN1200:00 04F3:3090 Touchpad\"").unwrap();
    assert!(matches!(s.touchpad, Touchpad::Yes));
    assert!(s.in_entry("anything"));
    assert!(s.device_id.is_none());
    assert!(s.finish().is_none());
    s.feed("S: Sysfs=/devices/i2c-2/x").unwrap();
    assert_eq!(s.device_id.as_deref(), Some("2"));
    assert!(s.finish().is_none());
    s.feed("H: Handlers=mouse1 event9 ").unwrap();
    assert!(matches!(&s.touchpad, Touchpad::Found(n) if n == "9"));
    assert!(!s.in_entry("N: Name=\"ELAN1200:00 04F3:3090 Touchpad\""));
    assert!(s.finish().is_some());
}

#[test]
fn refused_pattern_stops_the_scan() {
    let mut s = Scanner::new();
    s.feed("N: Name=\"ELAN1200:00 04F3:3090 Touchpad\"").unwrap();
    assert_eq!(s.feed_with("S: Sysfs=/devices/i2c-2/x", None), Err(ScanError::Pattern));
    assert!(matches!(s.touchpad, Touchpad::Yes));
    assert!(s.device_id.is_none());
}

#[test]
fn replacement_is_read_only_on_a_system_path_of_the_entry() {
    let mut s = Scanner::new();
    assert_eq!(s.feed_with("S: Sysfs=/devices/i2c-2/x", None), Ok(()));
    assert_eq!(s.feed_with("N: Name=\"ELAN Touchpad\"", None), Ok(()));
    assert_eq!(s.feed_with("U: Uniq=", Some("junk".to_string())), Ok(()));
    assert!(s.device_id.is_none());
}

#[test]
fn line_feeds_are_taken_out_of_the_bus_number() {
    let mut s = Scanner::new();
    s.feed("N: Name=\"ELAN Touchpad\"").unwrap();
    s.feed_with("S: Sysfs=x", Some("1\n2\n".to_string())).unwrap();
    assert_eq!(s.device_id.as_deref(), Some("12"));
}

#[test]
fn event_number_stands_behind_the_first_event() {
    assert_eq!(read_event_number("H: Handlers=mouse1 event9 ").as_deref(), Some("9"));
    assert_eq!(read_event_number("H: Handlers=event12").as_deref(), Some("12"));
    assert_eq!(read_event_number("H: Handlers=event3 event4").as_deref(), Some("3"));
    assert_eq!(read_event_number("event5event6").as_deref(), Some("5"));
    assert_eq!(read_event_number("event").as_deref(), Some(""));
    assert_eq!(read_event_number("event 7").as_deref(), Some(""));
    assert_eq!(read_event_number("H: Handlers=kbd").as_deref(), None);
    assert_eq!(read_event_number("").as_deref(), None);
}

#[test]
fn searching_a_text() {
    let hay = to_chars("abcabc");
    assert_eq!(find(&hay, &to_chars("bc"), 0), Some(1));
    assert_eq!(find(&hay, &to_chars("bc"), 2), Some(4));
    assert_eq!(find(&hay, &to_chars("bc"), 5), None);
    assert_eq!(find(&hay, &to_chars("abcabcd"), 0), None);
    assert_eq!(find(&hay, &to_chars(""), 6), Some(6));
    assert_eq!(find(&hay, &to_chars(""), 7), None);
    assert!(has(&hay, &to_chars("cab")));
    assert!(!has(&hay, &to_chars("cba")));
    assert!(matches_at(&hay, &to_chars("abc"), 3));
    assert!(!matches_at(&hay, &to_chars("abc"), 4));
    assert!(!matches_at(&hay, &to_chars("abc"), usize::MAX));
}

#[test]
fn cutting_a_text() {
    assert_eq!(to_chars("héllo"), vec!['h', 'é', 'l', 'l', 'o']);
    assert_eq!(slice("héllo", 1, 3), "él");
    assert_eq!(slice("héllo", 5, 5), "");
    assert_eq!(cut(&to_chars("héllo"), 1, 4), vec!['é', 'l', 'l']);
    assert_eq!(length_before(&to_chars("key=value"), &to_chars("=")), 3);
    assert_eq!(length_before(&to_chars("keyvalue"), &to_chars("=")), 8);
    assert_eq!(strip("a\nb\n\nc", '\n'), "abc");
    assert_eq!(strip("abc", '\n'), "abc");
    assert_eq!(strip("", '\n'), "");
}

#[test]
fn fifth_miss_gives_up() {
    let mut a = Attempts::new();
    assert_eq!(a.left, TRY_TIMES);
    assert_eq!(TRY_TIMES, 5);
    assert_eq!(TRY_SLEEP_MS, 100);
    for left in [4, 3, 2, 1] {
        assert_eq!(a.missed(), Retry::After(100));
        assert_eq!(a.left, left);
    }
    assert_eq!(a.missed(), Retry::GiveUp(SessionError::Discovery));
    assert_eq!(a.left, 0);
    assert_eq!(a.missed(), Retry::GiveUp(SessionError::Discovery));
    assert_eq!(a.left, 0);
}
