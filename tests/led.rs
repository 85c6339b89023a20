use bb::led::{bytes_equal, FileWrite, Led, Number, Trigger};

const BASE: &str = "/sys/class/leds/beaglebone:green:usr";

fn write(path: &str, contents: &str) -> FileWrite {
    FileWrite { path: path.as_bytes().to_vec(), contents: contents.as_bytes().to_vec() }
}

fn root_of(number: Number) -> String {
    String::from_utf8(Led::new(number).root().to_vec()).unwrap()
}

#[test]
fn new_resolves_each_led_directory() {
    assert_eq!(root_of(Number::Zero), format!("{}0", BASE));
    assert_eq!(root_of(Number::One), format!("{}1", BASE));
    assert_eq!(root_of(Number::Two), format!("{}2", BASE));
    assert_eq!(root_of(Number::Three), format!("{}3", BASE));
}

#[test]
fn root_ends_in_one_digit_only() {
    for (number, digit) in [
        (Number::Zero, b'0'),
        (Number::One, b'1'),
        (Number::Two, b'2'),
        (Number::Three, b'3'),
    ] {
        let led = Led::new(number);
        let root = led.root();
        assert_eq!(root[root.len() - 1], digit);
        assert!(!root[root.len() - 2].is_ascii_digit());
        assert_eq!(root.len(), BASE.len() + 1);
    }
}

#[test]
fn suffix_is_not_declaration_order() {
    assert_eq!(Number::Two.suffix(), b'2');
    assert_eq!(Number::Three.suffix(), b'3');
}

#[test]
fn trigger_path_is_in_led_directory() {
    let led = Led::new(Number::One);
    assert_eq!(led.trigger_path(), format!("{}1/trigger", BASE).into_bytes());
}

#[test]
fn set_writes_mode_name() {
    let led = Led::new(Number::Zero);
    let path = format!("{}0/trigger", BASE);
    assert_eq!(led.set(Trigger::Heartbeat), vec![write(&path, "heartbeat")]);
    assert_eq!(led.set(Trigger::Manual), vec![write(&path, "none")]);
    assert_eq!(led.set(Trigger::Timer), vec![write(&path, "timer")]);
}

#[test]
fn blink_writes_trigger_then_delays() {
    let led = Led::new(Number::Zero);
    assert_eq!(
        led.blink(1000, 500),
        vec![
            write(&format!("{}0/trigger", BASE), "timer"),
            write(&format!("{}0/delay_on", BASE), "1000"),
            write(&format!("{}0/delay_off", BASE), "500"),
        ]
    );
}

#[test]
fn set_brightness_forces_manual_trigger_first() {
    let led = Led::new(Number::Three);
    assert_eq!(
        led.set_brightness(255),
        vec![
            write(&format!("{}3/trigger", BASE), "none"),
            write(&format!("{}3/brightness", BASE), "255"),
        ]
    );
}

#[test]
fn set_high_writes_none_then_one() {
    let led = Led::new(Number::Two);
    assert_eq!(
        led.set_high(),
        vec![
            write(&format!("{}2/trigger", BASE), "none"),
            write(&format!("{}2/brightness", BASE), "1"),
        ]
    );
}

#[test]
fn set_low_writes_none_then_zero() {
    let led = Led::new(Number::Two);
    assert_eq!(
        led.set_low(),
        vec![
            write(&format!("{}2/trigger", BASE), "none"),
            write(&format!("{}2/brightness", BASE), "0"),
        ]
    );
}

#[test]
fn mode_names_round_trip() {
    for t in [Trigger::Heartbeat, Trigger::Manual, Trigger::Timer] {
        assert_eq!(Trigger::from_bytes(t.to_bytes()), Some(t));
    }
    assert_eq!(Trigger::to_bytes(&Trigger::Manual), b"none");
    assert_eq!(Trigger::from_bytes(b"bogus"), None);
    assert_eq!(Trigger::from_bytes(b"Timer"), None);
    assert_eq!(Trigger::from_bytes(b""), None);
}

#[test]
fn bytes_equal_compares_contents() {
    assert!(bytes_equal(b"timer", b"timer"));
    assert!(!bytes_equal(b"timer", b"timed"));
    assert!(!bytes_equal(b"time", b"timer"));
    assert!(bytes_equal(b"", b""));
}
