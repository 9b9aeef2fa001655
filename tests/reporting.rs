use r2_d2::progress::{bar, human_readable_size, repeat_char, ProgressState, ProgressType};

#[test]
fn readable_sizes() {
    assert_eq!(human_readable_size(0), "0.0 B");
    assert_eq!(human_readable_size(1023), "1023.0 B");
    assert_eq!(human_readable_size(1024), "1.0 KB");
    assert_eq!(human_readable_size(1536), "1.5 KB");
    assert_eq!(human_readable_size(12_897_485), "12.3 MB");
    assert_eq!(human_readable_size(5 * 1024 * 1024 + 7), "5.0 MB");
    assert_eq!(human_readable_size(3 << 40), "3.0 TB");
    assert_eq!(human_readable_size(u64::MAX), "16383.9 PB");
}

#[test]
fn bars() {
    assert_eq!(bar(0), format!("[>{}] 0%", " ".repeat(24)));
    assert_eq!(bar(100), format!("[{}] 100%", "=".repeat(25)));
    assert_eq!(bar(50), format!("[{}>{}] 50%", "=".repeat(12), " ".repeat(12)));
    assert_eq!(bar(200), format!("[{}] 200%", "=".repeat(50)));
    assert_eq!(bar(99), format!("[{}>] 99%", "=".repeat(24)));
    assert_eq!(repeat_char('x', 3), "xxx");
}

#[test]
fn increments_never_decrease() {
    let mut s = ProgressState::new("up");
    s.total(100);
    let mut last = 0;
    for amount in [0u64, 5, 0, 30, 65, 10] {
        let now = s.inc(amount);
        assert!(now >= last);
        last = now;
    }
    assert_eq!(s.current(), 110);
    s.inc(u64::MAX);
    assert_eq!(s.current(), u64::MAX);
}

#[test]
fn finish_reaches_total() {
    let mut s = ProgressState::new("file");
    s.total(40);
    s.inc(10);
    let line = s.finish();
    assert_eq!(s.current(), 40);
    assert_eq!(s.total_value(), 40);
    assert_eq!(line, "\r file  \u{2713}");
}

#[test]
fn percentages() {
    let mut s = ProgressState::new("");
    assert_eq!(s.percentage(), 0);
    s.total(3);
    s.inc(1);
    assert_eq!(s.percentage(), 33);
    s.inc(2);
    assert_eq!(s.percentage(), 100);
    s.inc(3);
    assert_eq!(s.percentage(), 200);
    let mut t = ProgressState::new("");
    t.total(1);
    t.inc(u64::MAX);
    assert_eq!(t.percentage(), u64::MAX);
}

#[test]
fn labels_and_padding() {
    let mut s = ProgressState::new("backup");
    assert_eq!(s.prefix(), "backup ");
    s.title("snap".to_string());
    assert_eq!(s.prefix(), "backup snap ");
    assert_eq!(s.padding(), "");
    let printed = s.print_with_prefix("x");
    assert_eq!(printed, "\rbackup snap  x");
    assert_eq!(s.padding(), " ".repeat(15));
    assert_eq!(s.title_line(), format!("\r backup snap {}", " ".repeat(15)));
    assert_eq!(ProgressState::new("").prefix(), "");
}

#[test]
fn counter_line() {
    let mut s = ProgressState::new("files");
    s.total(4);
    let line = ProgressType::Counter.inc(&mut s, 1).unwrap();
    assert_eq!(line, format!("\r[{}>{}] 25%: files ", "=".repeat(6), " ".repeat(18)));
}

#[test]
fn bytes_line() {
    let mut s = ProgressState::new("video.mp4");
    s.title("Uploading".to_string());
    s.total(2048);
    let line = ProgressType::Bytes.inc(&mut s, 2048).unwrap();
    assert_eq!(line, format!("\r[{}] 100% (2.0 KB/2.0 KB): video.mp4 Uploading ", "=".repeat(25)));
}

#[test]
fn spinner_cycles() {
    let mut s = ProgressState::new("scan");
    let first = ProgressType::Spinner.inc(&mut s, 1).unwrap();
    assert_eq!(first, "\r \u{28fe}  scan ");
    assert_eq!(s.padding().len(), 12);
    let second = ProgressType::Spinner.inc(&mut s, 1).unwrap();
    assert_eq!(second, "\r \u{28fd}  scan ");
    for _ in 0..6 {
        ProgressType::Spinner.inc(&mut s, 1);
    }
    assert_eq!(ProgressType::Spinner.inc(&mut s, 1).unwrap(), first);
}

#[test]
fn hidden_shows_nothing() {
    let mut s = ProgressState::new("x");
    assert!(ProgressType::Hidden.inc(&mut s, 5).is_none());
    assert_eq!(s.current(), 0);
    assert!(ProgressType::Hidden.is_hidden());
    assert!(!ProgressType::Bytes.is_hidden());
}

#[test]
fn counter_past_total() {
    let mut s = ProgressState::new("n");
    s.total(1);
    let line = ProgressType::Counter.inc(&mut s, 2).unwrap();
    assert_eq!(line, format!("\r[{}] 200%: n ", "=".repeat(50)));
}
