use polymarket_hft_bot::logs::{LogBuffer, LogEntry, LogLevel, LOG_CAPACITY};

fn entry(n: usize) -> LogEntry {
    LogEntry {
        timestamp: format!("00:00:{:02}", n % 60),
        level: LogLevel::Info,
        message: format!("entry {}", n),
    }
}

#[test]
fn new_log_is_empty() {
    let log = LogBuffer::new();
    assert_eq!(log.len(), 0);
    assert!(log.is_empty());
    assert!(log.get(0).is_none());
}

#[test]
fn log_keeps_newest_hundred_of_hundred_and_fifty() {
    let mut log = LogBuffer::new();
    for n in 1..=150 {
        log.push(entry(n));
    }
    assert_eq!(log.len(), 100);
    assert_eq!(log.get(0).unwrap().message, "entry 51");
    assert_eq!(log.get(99).unwrap().message, "entry 150");
    for (i, e) in log.entries().iter().enumerate() {
        assert_eq!(e.message, format!("entry {}", i + 51));
    }
}

#[test]
fn log_grows_by_one_until_full() {
    let mut log = LogBuffer::new();
    for n in 1..=LOG_CAPACITY {
        log.push(entry(n));
        assert_eq!(log.len(), n);
    }
    log.push(entry(LOG_CAPACITY + 1));
    assert_eq!(log.len(), LOG_CAPACITY);
    assert_eq!(log.get(0).unwrap().message, "entry 2");
}

#[test]
fn record_stamps_with_time_of_day() {
    let mut log = LogBuffer::new();
    log.record(LogLevel::Warning, "careful");
    assert_eq!(log.len(), 1);
    let e = log.get(0).unwrap();
    assert_eq!(e.level, LogLevel::Warning);
    assert_eq!(e.message, "careful");
    let stamp: Vec<char> = e.timestamp.chars().collect();
    assert_eq!(stamp.len(), 8);
    assert_eq!(stamp[2], ':');
    assert_eq!(stamp[5], ':');
    for i in [0, 1, 3, 4, 6, 7] {
        assert!(stamp[i].is_ascii_digit());
    }
}

#[test]
fn record_all_appends_in_order() {
    let mut log = LogBuffer::new();
    log.record_all(LogLevel::Error, &["a", "b", "c"]);
    let messages: Vec<&str> = log.entries().iter().map(|e| e.message.as_str()).collect();
    assert_eq!(messages, vec!["a", "b", "c"]);
    assert!(log.entries().iter().all(|e| e.level == LogLevel::Error));
}

#[test]
fn cloned_entry_holds_the_same() {
    let e = entry(7);
    let c = e.clone();
    assert_eq!(c.timestamp, e.timestamp);
    assert_eq!(c.level, e.level);
    assert_eq!(c.message, e.message);
}
