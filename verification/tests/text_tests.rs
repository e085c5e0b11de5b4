use ping_monitor::clock::{stamped_line, timestamp};
use ping_monitor::monitor::{Entry, Liveness};
use ping_monitor::text::{decimal_text, log_line, render};

#[test]
fn decimal_of_small_and_large_numbers() {
    assert_eq!(decimal_text(0), "0");
    assert_eq!(decimal_text(7), "7");
    assert_eq!(decimal_text(9), "9");
    assert_eq!(decimal_text(10), "10");
    assert_eq!(decimal_text(101), "101");
    assert_eq!(decimal_text(1234567890), "1234567890");
    assert_eq!(decimal_text(u64::MAX), "18446744073709551615");
}

#[test]
fn decimal_agrees_with_std() {
    let mut n: u64 = 1;
    for _ in 0..64 {
        assert_eq!(decimal_text(n), n.to_string());
        assert_eq!(decimal_text(n - 1), (n - 1).to_string());
        n = n.wrapping_mul(2);
        if n == 0 {
            break;
        }
    }
}

#[test]
fn started_names_the_address() {
    assert_eq!(
        render(Entry::Started, "192.168.1.20"),
        "Starting ping monitor to 192.168.1.20 as offline status"
    );
    assert_eq!(render(Entry::Started, ""), "Starting ping monitor to  as offline status");
}

#[test]
fn exited_names_state_and_seconds() {
    assert_eq!(
        render(Entry::Exited { state: Liveness::Offline, elapsed_secs: 0 }, "::1"),
        "Exited offline status, elapsed 0 seconds"
    );
    assert_eq!(
        render(Entry::Exited { state: Liveness::Online, elapsed_secs: 86400 }, "::1"),
        "Exited online status, elapsed 86400 seconds"
    );
}

#[test]
fn entered_names_state() {
    assert_eq!(render(Entry::Entered { state: Liveness::Online }, "h"), "Entering online status");
    assert_eq!(render(Entry::Entered { state: Liveness::Offline }, "h"), "Entering offline status");
}

#[test]
fn terminated_text() {
    assert_eq!(render(Entry::Terminated, "10.0.0.1"), "Ping monitor terminated");
}

#[test]
fn line_puts_timestamp_in_brackets() {
    assert_eq!(
        log_line("2024-03-09 07:05:01.042", "Entering online status"),
        "[2024-03-09 07:05:01.042] Entering online status"
    );
    assert_eq!(log_line("", ""), "[] ");
}

#[test]
fn timestamp_has_date_time_and_milliseconds() {
    let stamp = timestamp();
    let shape: String =
        stamp.chars().map(|c| if c.is_ascii_digit() { '9' } else { c }).collect();
    assert_eq!(shape, "9999-99-99 99:99:99.999");
    let month: u32 = stamp[5..7].parse().unwrap();
    let day: u32 = stamp[8..10].parse().unwrap();
    let hour: u32 = stamp[11..13].parse().unwrap();
    let minute: u32 = stamp[14..16].parse().unwrap();
    assert!((1..=12).contains(&month));
    assert!((1..=31).contains(&day));
    assert!(hour < 24);
    assert!(minute < 60);
}

#[test]
fn stamped_line_is_made_from_its_timestamp() {
    let (stamp, line) = stamped_line("Ping monitor terminated");
    assert_eq!(stamp.len(), 23);
    assert_eq!(line, format!("[{}] Ping monitor terminated", stamp));
}
