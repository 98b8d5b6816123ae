use tailscale_notifier::classify::{classify, Classification};
use tailscale_notifier::device::Device;
use tailscale_notifier::message::{select_message, status_line};
use tailscale_notifier::timestamp::{days_until, Instant};

const DAY: i64 = 86_400;
const NOW: i64 = 1_700_000_000;

fn now() -> Instant {
    Instant::new(NOW, 0)
}

fn dev(name: &str, secs: i64, nanos: u32) -> Device {
    Device::new(name.to_string(), Instant::new(secs, nanos))
}

fn names(v: &[Device]) -> Vec<String> {
    v.iter().map(|d| d.hostname.clone()).collect()
}

fn message_for(devices: &Vec<Device>) -> String {
    let c: Classification = classify(devices, now());
    select_message(&c, now())
}

#[test]
fn days_round_toward_zero() {
    assert_eq!(days_until(Instant::new(NOW, 0), now()), 0);
    assert_eq!(days_until(Instant::new(NOW - 1, 999_999_999), now()), 0);
    assert_eq!(days_until(Instant::new(NOW - DAY + 1, 0), now()), 0);
    assert_eq!(days_until(Instant::new(NOW - DAY, 0), now()), -1);
    assert_eq!(days_until(Instant::new(NOW + DAY - 1, 999_999_999), now()), 0);
    assert_eq!(days_until(Instant::new(NOW + DAY, 0), now()), 1);
    assert_eq!(days_until(Instant::new(NOW - 3 * DAY, 0), now()), -3);
    assert_eq!(days_until(Instant::new(NOW + 15 * DAY, 0), now()), 15);
}

#[test]
fn days_at_the_far_ends_of_time() {
    assert_eq!(days_until(Instant::new(i64::MAX, 999_999_999), Instant::new(i64::MIN, 0)), 213_503_982_334_601);
    assert_eq!(days_until(Instant::new(i64::MIN, 0), Instant::new(i64::MAX, 999_999_999)), -213_503_982_334_601);
}

#[test]
fn distant_devices_are_in_no_bucket() {
    let devices = vec![dev("far", NOW + 15 * DAY, 0), dev("farther", NOW + 400 * DAY, 0)];
    let c = classify(&devices, now());
    assert!(c.expiring.is_empty());
    assert!(c.expired.is_empty());
}

#[test]
fn soon_devices_are_expiring_only() {
    let devices = vec![
        dev("today", NOW, 0),
        dev("tomorrow", NOW + DAY, 0),
        dev("edge", NOW + 15 * DAY - 1, 0),
    ];
    let c = classify(&devices, now());
    assert_eq!(names(&c.expiring), vec!["today", "tomorrow", "edge"]);
    assert!(c.expired.is_empty());
}

#[test]
fn past_devices_are_expired_only() {
    let devices = vec![dev("old", NOW - DAY, 0), dev("older", NOW - 30 * DAY, 0)];
    let c = classify(&devices, now());
    assert_eq!(names(&c.expired), vec!["old", "older"]);
    assert!(c.expiring.is_empty());
}

#[test]
fn lapsed_less_than_a_day_ago_counts_as_today() {
    let devices = vec![dev("just", NOW - 60, 0)];
    let c = classify(&devices, now());
    assert_eq!(names(&c.expiring), vec!["just"]);
    assert!(c.expired.is_empty());
    assert_eq!(select_message(&c, now()), "just is expiring today!");
}

#[test]
fn buckets_keep_input_order() {
    let devices = vec![
        dev("e1", NOW + 3 * DAY, 0),
        dev("x1", NOW - 2 * DAY, 0),
        dev("far", NOW + 90 * DAY, 0),
        dev("e2", NOW + 1 * DAY, 0),
        dev("x2", NOW - 9 * DAY, 0),
        dev("e3", NOW + 14 * DAY, 0),
    ];
    let c = classify(&devices, now());
    assert_eq!(names(&c.expiring), vec!["e1", "e2", "e3"]);
    assert_eq!(names(&c.expired), vec!["x1", "x2"]);
}

#[test]
fn classifying_twice_gives_the_same_buckets() {
    let devices = vec![dev("a", NOW + 2 * DAY, 0), dev("b", NOW - 2 * DAY, 0), dev("c", NOW + 20 * DAY, 0)];
    let first = classify(&devices, now());
    let second = classify(&devices, now());
    assert_eq!(names(&first.expiring), names(&second.expiring));
    assert_eq!(names(&first.expired), names(&second.expired));
    assert_eq!(select_message(&first, now()), select_message(&second, now()));
}

#[test]
fn one_expired_device_is_named() {
    let devices = vec![dev("web", NOW - 3 * DAY, 0)];
    let c = classify(&devices, now());
    assert_eq!(names(&c.expired), vec!["web"]);
    assert_eq!(select_message(&c, now()), "web has expired!");
}

#[test]
fn two_expiring_devices_are_counted() {
    let devices = vec![dev("a", NOW + 2 * DAY, 0), dev("b", NOW + 10 * DAY + 5, 0)];
    assert_eq!(message_for(&devices), "2 devices are expiring soon!");
}

#[test]
fn device_expiring_now_is_expiring_today() {
    let devices = vec![dev("edge", NOW, 0)];
    assert_eq!(message_for(&devices), "edge is expiring today!");
}

#[test]
fn one_expiring_device_gives_its_days() {
    let devices = vec![dev("db", NOW + 5 * DAY + 7, 0), dev("far", NOW + 50 * DAY, 0)];
    assert_eq!(message_for(&devices), "db is expiring in 5 days!");
}

#[test]
fn several_expired_devices_are_counted() {
    let devices = vec![dev("a", NOW - 2 * DAY, 0), dev("b", NOW - 20 * DAY, 0), dev("c", NOW - 5 * DAY, 0)];
    assert_eq!(message_for(&devices), "3 devices are expired!");
}

#[test]
fn expired_devices_take_precedence() {
    let one = vec![dev("gone", NOW - 2 * DAY, 0), dev("soon", NOW + 2 * DAY, 0)];
    assert_eq!(message_for(&one), "gone has expired!");
    let two = vec![
        dev("soon1", NOW + 2 * DAY, 0),
        dev("gone1", NOW - 2 * DAY, 0),
        dev("gone2", NOW - 4 * DAY, 0),
        dev("soon2", NOW + 3 * DAY, 0),
        dev("soon3", NOW + 4 * DAY, 0),
    ];
    assert_eq!(message_for(&two), "2 devices are expired!");
}

#[test]
fn nothing_to_report_counts_zero() {
    assert_eq!(message_for(&Vec::new()), "0 devices are expiring soon!");
    let devices = vec![dev("far", NOW + 100 * DAY, 0)];
    assert_eq!(message_for(&devices), "0 devices are expiring soon!");
}

#[test]
fn many_expiring_devices_are_counted() {
    let devices: Vec<Device> = (0..12).map(|i| dev("n", NOW + i * DAY, 0)).collect();
    assert_eq!(message_for(&devices), "12 devices are expiring soon!");
}

#[test]
fn duplicate_hostnames_are_separate_devices() {
    let devices = vec![dev("twin", NOW - 2 * DAY, 0), dev("twin", NOW - 2 * DAY, 0)];
    assert_eq!(message_for(&devices), "2 devices are expired!");
}

#[test]
fn status_lines_describe_each_bucket() {
    assert_eq!(status_line(&dev("a", NOW + 4 * DAY, 0), now()).as_deref(), Some("a expires in 4 days"));
    assert_eq!(status_line(&dev("b", NOW - 12 * DAY, 0), now()).as_deref(), Some("b expired 12 days ago"));
    assert_eq!(status_line(&dev("c", NOW + 10, 0), now()).as_deref(), Some("c expires today"));
    assert_eq!(status_line(&dev("d", NOW + 15 * DAY, 0), now()), None);
}

#[test]
fn hand_built_buckets_are_worded_as_given() {
    let c = Classification { expiring: vec![dev("late", NOW - 3 * DAY, 0)], expired: Vec::new() };
    assert_eq!(select_message(&c, now()), "late is expiring in -3 days!");
    let c = Classification { expiring: vec![dev("wide", NOW + 1234 * DAY, 0)], expired: Vec::new() };
    assert_eq!(select_message(&c, now()), "wide is expiring in 1234 days!");
}
