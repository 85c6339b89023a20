use bb::decimal::decimal_bytes;
use bb::led::{Led, Number};
use bb::run::WriteRun;

fn file_name(path: &[u8]) -> String {
    let s = String::from_utf8(path.to_vec()).unwrap();
    s.rsplit('/').next().unwrap().to_string()
}

/// Drives a run, failing the write with the given position, and returns the
/// names of the files whose write was attempted.
fn drive(run: &mut WriteRun, fail_at: Option<usize>) -> Vec<String> {
    let mut attempted = Vec::new();
    loop {
        let name = match run.next() {
            Some(w) => file_name(&w.path),
            None => break,
        };
        let ok = fail_at != Some(attempted.len());
        attempted.push(name);
        run.record(ok);
    }
    attempted
}

#[test]
fn blink_attempts_three_writes_in_order() {
    let mut run = WriteRun::new(Led::new(Number::Zero).blink(500, 500));
    assert_eq!(drive(&mut run, None), vec!["trigger", "delay_on", "delay_off"]);
    assert!(run.succeeded());
}

#[test]
fn blink_stops_when_trigger_write_fails() {
    let mut run = WriteRun::new(Led::new(Number::Zero).blink(500, 500));
    assert_eq!(drive(&mut run, Some(0)), vec!["trigger"]);
    assert!(!run.succeeded());
}

#[test]
fn blink_stops_when_delay_on_write_fails() {
    let mut run = WriteRun::new(Led::new(Number::One).blink(100, 900));
    assert_eq!(drive(&mut run, Some(1)), vec!["trigger", "delay_on"]);
    assert!(!run.succeeded());
}

#[test]
fn set_high_stops_when_trigger_write_fails() {
    let mut run = WriteRun::new(Led::new(Number::Two).set_high());
    assert_eq!(drive(&mut run, Some(0)), vec!["trigger"]);
    assert!(!run.succeeded());
}

#[test]
fn set_low_attempts_trigger_then_brightness() {
    let mut run = WriteRun::new(Led::new(Number::Two).set_low());
    assert_eq!(drive(&mut run, None), vec!["trigger", "brightness"]);
    assert!(run.succeeded());
}

#[test]
fn empty_plan_succeeds_at_once() {
    let run = WriteRun::new(Vec::new());
    assert!(run.next().is_none());
    assert!(run.succeeded());
}

#[test]
fn decimal_has_no_terminator() {
    assert_eq!(decimal_bytes(500), b"500".to_vec());
    assert_eq!(decimal_bytes(500).len(), 3);
}

#[test]
fn decimal_edge_values() {
    assert_eq!(decimal_bytes(0), b"0".to_vec());
    assert_eq!(decimal_bytes(9), b"9".to_vec());
    assert_eq!(decimal_bytes(10), b"10".to_vec());
    assert_eq!(decimal_bytes(u32::MAX), b"4294967295".to_vec());
}
