use ram_monitor::monitor::sys_observer::{
    ram_usage_text, top_process_text, Info, Monitor, ProcessEntry, MB, UNITS_PER_PERCENT,
};
use ram_monitor::text::decimal_text;

fn entry(name: &str, memory: u64) -> ProcessEntry {
    ProcessEntry { name: name.to_string(), memory }
}

#[test]
fn ram_usage_returns_the_reading() {
    let m = Monitor::new(3 * MB, 8 * MB, Vec::new());
    assert_eq!(m.ram_usage(), (3 * MB, 8 * MB));
}

#[test]
fn update_overwrites_the_snapshot() {
    let mut m = Monitor::new(1, 2, vec![entry("old", 7)]);
    m.update(5, 10, vec![entry("new", 9)]);
    assert_eq!(m.ram_usage(), (5, 10));
    assert_eq!(m.top_process(), Some(("new".to_string(), 9)));
    m.update(0, 0, Vec::new());
    assert_eq!(m.ram_usage(), (0, 0));
    assert_eq!(m.top_process(), None);
}

#[test]
fn usage_is_in_thousandths_of_a_percent() {
    assert_eq!(UNITS_PER_PERCENT, 1000);
    assert_eq!(Monitor::new(1, 4, Vec::new()).ram_consumed(), 25_000);
    assert_eq!(Monitor::new(8, 8, Vec::new()).ram_consumed(), 100_000);
    assert_eq!(Monitor::new(0, 8, Vec::new()).ram_consumed(), 0);
}

#[test]
fn usage_rounds_down() {
    assert_eq!(Monitor::new(1, 3, Vec::new()).ram_consumed(), 33_333);
    assert_eq!(Monitor::new(2, 3, Vec::new()).ram_consumed(), 66_666);
    assert_eq!(Monitor::new(1, 1_000_000, Vec::new()).ram_consumed(), 0);
}

#[test]
fn usage_with_zero_total_is_zero() {
    assert_eq!(Monitor::new(0, 0, Vec::new()).ram_consumed(), 0);
    assert_eq!(Monitor::new(12345, 0, Vec::new()).ram_consumed(), 0);
    assert_eq!(Monitor::new(u64::MAX, 0, Vec::new()).ram_consumed(), 0);
}

#[test]
fn usage_does_not_overflow() {
    let m = Monitor::new(u64::MAX, 1, Vec::new());
    assert_eq!(m.ram_consumed(), (u64::MAX as u128) * 100_000);
    let full = Monitor::new(u64::MAX, u64::MAX, Vec::new());
    assert_eq!(full.ram_consumed(), 100_000);
}

#[test]
fn usage_never_decreases_with_used() {
    let total = 7;
    let mut last = 0;
    for used in 0..=20u64 {
        let now = Monitor::new(used, total, Vec::new()).ram_consumed();
        assert!(now >= last);
        last = now;
    }
    assert_eq!(last, 285_714);
}

#[test]
fn top_process_of_empty_table_is_none() {
    assert_eq!(Monitor::new(1, 2, Vec::new()).top_process(), None);
}

#[test]
fn top_process_of_one_entry_is_that_entry() {
    let m = Monitor::new(1, 2, vec![entry("init", 4096)]);
    assert_eq!(m.top_process(), Some(("init".to_string(), 4096)));
}

#[test]
fn top_process_of_two_is_the_greater() {
    let m = Monitor::new(1, 2, vec![entry("small", 10), entry("big", 20)]);
    assert_eq!(m.top_process(), Some(("big".to_string(), 20)));
    let m = Monitor::new(1, 2, vec![entry("big", 20), entry("small", 10)]);
    assert_eq!(m.top_process(), Some(("big".to_string(), 20)));
}

#[test]
fn top_process_among_many() {
    let m = Monitor::new(
        1,
        2,
        vec![entry("a", 5), entry("b", 50), entry("c", 49), entry("d", 0)],
    );
    assert_eq!(m.top_process(), Some(("b".to_string(), 50)));
}

#[test]
fn top_process_among_equals_is_one_of_them() {
    let m = Monitor::new(1, 2, vec![entry("x", 5), entry("y", 5), entry("z", 1)]);
    let (name, memory) = m.top_process().unwrap();
    assert_eq!(memory, 5);
    assert!(name == "x" || name == "y");
}

#[test]
fn decimal_text_of_some_numbers() {
    assert_eq!(decimal_text(0), "0");
    assert_eq!(decimal_text(7), "7");
    assert_eq!(decimal_text(10), "10");
    assert_eq!(decimal_text(1234567890), "1234567890");
    assert_eq!(decimal_text(u64::MAX), "18446744073709551615");
}

#[test]
fn ram_usage_line_is_in_megabytes() {
    assert_eq!(
        ram_usage_text(3 * MB, 8 * MB),
        "used_memory: 3 MB, total_memory: 8 MB"
    );
    assert_eq!(
        ram_usage_text(MB - 1, 2 * MB + 5),
        "used_memory: 0 MB, total_memory: 2 MB"
    );
}

#[test]
fn top_process_line_names_the_process() {
    assert_eq!(
        top_process_text(Some(("firefox".to_string(), 512 * MB + 17))),
        "process: Process: firefox, Memory usage: 512 MB"
    );
    assert_eq!(top_process_text(None), "process: No process found");
}

#[test]
fn display_info_reports_the_snapshot() {
    let m = Monitor::new(
        1024 * MB,
        4096 * MB,
        vec![entry("db", 300 * MB), entry("shell", 2 * MB)],
    );
    assert_eq!(
        m.display_info(Info::RamUsage),
        "used_memory: 1024 MB, total_memory: 4096 MB"
    );
    assert_eq!(
        m.display_info(Info::TopProcess),
        "process: Process: db, Memory usage: 300 MB"
    );
    let empty = Monitor::new(0, 0, Vec::new());
    assert_eq!(empty.display_info(Info::TopProcess), "process: No process found");
    assert_eq!(
        empty.display_info(Info::RamUsage),
        "used_memory: 0 MB, total_memory: 0 MB"
    );
}
