use session_core::history::{CircularLogBuffer, Log};

fn entry(sent: u64) -> Log {
    Log { when_opened: 1, when_closed: 2, no_of_bytes_sent: sent, no_of_bytes_received: 0 }
}

#[test]
fn empty_buffer_reports_nothing() {
    let buffer = CircularLogBuffer::new(4);
    assert_eq!(buffer.get_logs().len(), 0);
}

#[test]
fn reports_only_entries_written_so_far() {
    let mut buffer = CircularLogBuffer::new(4);
    buffer.add_log(entry(10));
    let logs = buffer.get_logs();
    assert_eq!(logs.len(), 1);
    assert_eq!(logs[0].no_of_bytes_sent, 10);
}

#[test]
fn keeps_append_order_at_exact_capacity() {
    let mut buffer = CircularLogBuffer::new(3);
    buffer.add_log(entry(1));
    buffer.add_log(entry(2));
    buffer.add_log(entry(3));
    let logs = buffer.get_logs();
    assert_eq!(logs.len(), 3);
    assert_eq!(logs[0].no_of_bytes_sent, 1);
    assert_eq!(logs[1].no_of_bytes_sent, 2);
    assert_eq!(logs[2].no_of_bytes_sent, 3);
}

#[test]
fn overwrites_oldest_when_full() {
    let mut buffer = CircularLogBuffer::new(2);
    buffer.add_log(entry(10));
    buffer.add_log(entry(20));
    buffer.add_log(entry(30));
    let logs = buffer.get_logs();
    assert_eq!(logs.len(), 2);
    assert_eq!(logs[0].no_of_bytes_sent, 20);
    assert_eq!(logs[1].no_of_bytes_sent, 30);
}

#[test]
fn holds_last_entries_after_many_wraps() {
    let mut buffer = CircularLogBuffer::new(2);
    for sent in 1..=7u64 {
        buffer.add_log(entry(sent));
    }
    let logs = buffer.get_logs();
    assert_eq!(logs.len(), 2);
    assert_eq!(logs[0].no_of_bytes_sent, 6);
    assert_eq!(logs[1].no_of_bytes_sent, 7);
}

#[test]
fn entry_fields_are_kept_as_appended() {
    let mut buffer = CircularLogBuffer::new(2);
    buffer.add_log(Log {
        when_opened: 12345,
        when_closed: 23456,
        no_of_bytes_sent: 77,
        no_of_bytes_received: 88,
    });
    let logs = buffer.get_logs();
    assert_eq!(logs[0].when_opened, 12345);
    assert_eq!(logs[0].when_closed, 23456);
    assert_eq!(logs[0].no_of_bytes_sent, 77);
    assert_eq!(logs[0].no_of_bytes_received, 88);
}
