use udp_to_redis::clock::unix_seconds;
use udp_to_redis::common::{
    JsonData, MPU6050DataInner, ParseError, ProcessError, Real, Timestamp, UWBDataInner,
};
use udp_to_redis::text::{decimal_text, message, signed_decimal_text};

fn num(text: &str) -> Real {
    Real { text: text.to_string() }
}

fn ranging(timestamp: Option<u64>) -> UWBDataInner {
    UWBDataInner {
        source: "s1".to_string(),
        destination: Some("d1".to_string()),
        range: num("12.5"),
        timestamp,
    }
}

fn inertial(timestamp: Option<u64>) -> MPU6050DataInner {
    MPU6050DataInner {
        source: "n1".to_string(),
        frequency: 50,
        acc_x: num("0.1"),
        acc_y: num("0.2"),
        acc_z: num("0.3"),
        rot_x: num("0.4"),
        rot_y: num("0.5"),
        rot_z: num("0.6"),
        timestamp,
    }
}

fn now() -> u64 {
    std::time::SystemTime::now()
        .duration_since(std::time::UNIX_EPOCH)
        .unwrap()
        .as_secs()
}

#[test]
fn set_timestamp_replaces_the_timestamp_alone() {
    let mut u = ranging(Some(3));
    u.set_timestamp(44);
    assert_eq!(u, ranging(Some(44)));
    let mut m = inertial(None);
    m.set_timestamp(u64::MAX);
    assert_eq!(m, inertial(Some(u64::MAX)));
}

#[test]
fn set_timestamp_from_a_clock_without_a_reading_changes_nothing() {
    let mut u = ranging(Some(3));
    u.set_timestamp_from(None);
    assert_eq!(u, ranging(Some(3)));
    u.set_timestamp_from(Some(4));
    assert_eq!(u, ranging(Some(4)));
    let mut m = inertial(None);
    m.set_timestamp_from(None);
    assert_eq!(m, inertial(None));
}

#[test]
fn set_timestamp_default_takes_the_current_time() {
    let before = now();
    let mut u = ranging(Some(3));
    u.set_timestamp_default();
    let mut m = inertial(None);
    m.set_timestamp_default();
    let after = now();
    let stamp = u.timestamp.unwrap();
    assert!(before <= stamp && stamp <= after);
    assert_eq!(u, ranging(Some(stamp)));
    let stamp = m.timestamp.unwrap();
    assert!(before <= stamp && stamp <= after);
    assert_eq!(m, inertial(Some(stamp)));
}

#[test]
fn stamp_works_on_either_record() {
    let mut data = JsonData::UWBData(ranging(None));
    data.stamp(Some(8));
    assert_eq!(data, JsonData::UWBData(ranging(Some(8))));
    data.stamp(None);
    assert_eq!(data, JsonData::UWBData(ranging(Some(8))));
    let mut data = JsonData::MPU6050Data(inertial(Some(1)));
    data.stamp(Some(2));
    assert_eq!(data, JsonData::MPU6050Data(inertial(Some(2))));
}

#[test]
fn clock_reads_seconds_since_the_epoch() {
    let before = now();
    let read = unix_seconds().unwrap();
    let after = now();
    assert!(before <= read && read <= after);
}

#[test]
fn errors_say_what_failed() {
    assert_eq!(ParseError.message(), "Failed to Parse String");
    assert_eq!(ProcessError.message(), "Failed to Start Process");
}

#[test]
fn decimal_of_unsigned_integers() {
    assert_eq!(decimal_text(0), "0");
    assert_eq!(decimal_text(7), "7");
    assert_eq!(decimal_text(10), "10");
    assert_eq!(decimal_text(1234567890), "1234567890");
    assert_eq!(decimal_text(u64::MAX), "18446744073709551615");
}

#[test]
fn decimal_of_signed_integers() {
    assert_eq!(signed_decimal_text(0), "0");
    assert_eq!(signed_decimal_text(-1), "-1");
    assert_eq!(signed_decimal_text(305), "305");
    assert_eq!(signed_decimal_text(i32::MAX), "2147483647");
    assert_eq!(signed_decimal_text(i32::MIN), "-2147483648");
}

#[test]
fn message_of_a_text() {
    assert_eq!(message(""), "");
    assert_eq!(message(" \n\t "), "");
    assert_eq!(message("\0\0\0"), "");
    assert_eq!(message("a"), "a");
    assert_eq!(message("  a b  \0"), "a b");
    assert_eq!(message("\0 a"), "\0 a");
    assert_eq!(message("a\0 \0"), "a\0");
    assert_eq!(message("a \0\n"), "a \0");
}
