use anyserver::logs::{format_log_line, rotated_path, rotation_steps, should_rotate, RotationStep};
use anyserver::time::DateTimeUtc;
use anyserver::types::ws::{LogLine, LogStream};

fn sample_line(msg: &str, stream: LogStream) -> LogLine {
    LogLine {
        seq: 0,
        timestamp: DateTimeUtc { secs: 1_735_689_600, nanos: 5_000_000 },
        line: msg.to_string(),
        stream,
    }
}

#[test]
fn test_format_log_line_stdout() {
    let line = sample_line("Hello world", LogStream::Stdout);
    let formatted = format_log_line(&line).unwrap();
    assert!(formatted.contains("[OUT]"));
    assert!(formatted.contains("Hello world"));
    assert!(formatted.ends_with('\n'));
}

#[test]
fn test_format_log_line_stderr() {
    let line = sample_line("error!", LogStream::Stderr);
    let formatted = format_log_line(&line).unwrap();
    assert!(formatted.contains("[ERR]"));
}

#[test]
fn format_log_line_exact() {
    let line = sample_line("ready", LogStream::Stdout);
    assert_eq!(format_log_line(&line).unwrap(), "[2025-01-01 00:00:00.005] [OUT] ready\n");
}

#[test]
fn test_rotated_path() {
    let base = "/tmp/logs/console.log";
    assert_eq!(rotated_path(base, 0), "/tmp/logs/console.log");
    assert_eq!(rotated_path(base, 1), "/tmp/logs/console.log.1");
    assert_eq!(rotated_path(base, 2), "/tmp/logs/console.log.2");
}

#[test]
fn rotation_needs_a_limit() {
    assert!(should_rotate(100, 100));
    assert!(!should_rotate(99, 100));
    assert!(!should_rotate(1_000_000, 0));
}

#[test]
fn rotation_shifts_files() {
    let steps = rotation_steps("/d/console.log");
    assert_eq!(steps.len(), 3);
    match &steps[0] {
        RotationStep::RemoveIfExists(p) => assert_eq!(p, "/d/console.log.2"),
        other => panic!("unexpected {:?}", other),
    }
    match &steps[1] {
        RotationStep::RenameIfExists(a, b) => {
            assert_eq!(a, "/d/console.log.1");
            assert_eq!(b, "/d/console.log.2");
        }
        other => panic!("unexpected {:?}", other),
    }
    match &steps[2] {
        RotationStep::RenameIfExists(a, b) => {
            assert_eq!(a, "/d/console.log");
            assert_eq!(b, "/d/console.log.1");
        }
        other => panic!("unexpected {:?}", other),
    }
}

#[test]
fn batch_reaching_the_limit_rotates_to_an_empty_file() {
    assert_eq!(anyserver::logs::after_batch(900, 100, 1000), (0, true));
    assert_eq!(anyserver::logs::after_batch(900, 99, 1000), (999, false));
    assert_eq!(anyserver::logs::after_batch(5_000, 10, 0), (5_010, false));
}

#[test]
fn batches_are_formatted_in_order() {
    let lines = vec![sample_line("first", LogStream::Stdout), sample_line("second", LogStream::Stderr)];
    let texts = anyserver::logs::format_batch(&lines);
    assert_eq!(texts.len(), 2);
    assert!(texts[0].ends_with("[OUT] first\n"), "{}", texts[0]);
    assert!(texts[1].ends_with("[ERR] second\n"), "{}", texts[1]);
    assert!(!anyserver::logs::batch_full(199));
    assert!(anyserver::logs::batch_full(200));
}

fn write_order(order: anyserver::logs::WriterOrder) -> Vec<String> {
    match order {
        anyserver::logs::WriterOrder::Write(texts) => texts,
        other => panic!("expected a write, got {:?}", other),
    }
}

#[test]
fn writer_writes_batches_rotates_at_the_limit_and_flushes_on_close() {
    let mut w = anyserver::logs::LogWriter::open(Some(10), 100);
    assert!(matches!(w.on_event(anyserver::logs::WriterEvent::Line(sample_line("a", LogStream::Stdout))), anyserver::logs::WriterOrder::Nothing));
    assert!(matches!(w.on_event(anyserver::logs::WriterEvent::Line(sample_line("b", LogStream::Stderr))), anyserver::logs::WriterOrder::Nothing));
    let texts = write_order(w.on_event(anyserver::logs::WriterEvent::TimeUp));
    assert_eq!(texts.len(), 2);
    assert!(texts[0].ends_with("[OUT] a\n") && texts[1].ends_with("[ERR] b\n"));
    assert!(matches!(w.on_event(anyserver::logs::WriterEvent::Written(95)), anyserver::logs::WriterOrder::Rotate));
    assert_eq!(w.size, 0);
    assert!(matches!(w.on_event(anyserver::logs::WriterEvent::Reopened(true)), anyserver::logs::WriterOrder::Nothing));
    assert!(matches!(w.on_event(anyserver::logs::WriterEvent::Line(sample_line("c", LogStream::Stdout))), anyserver::logs::WriterOrder::Nothing));
    let last = write_order(w.on_event(anyserver::logs::WriterEvent::ChannelClosed));
    assert!(last[0].ends_with("[OUT] c\n"));
    assert!(matches!(w.on_event(anyserver::logs::WriterEvent::Written(20)), anyserver::logs::WriterOrder::Stop));
    assert_eq!(w.phase, anyserver::logs::WriterPhase::Done);
}

#[test]
fn writer_fills_a_batch_and_never_rotates_without_a_limit() {
    let mut w = anyserver::logs::LogWriter::open(Some(0), 0);
    for i in 0..199 {
        let order = w.on_event(anyserver::logs::WriterEvent::Line(sample_line(&format!("l{}", i), LogStream::Stdout)));
        assert!(matches!(order, anyserver::logs::WriterOrder::Nothing));
    }
    let texts = write_order(w.on_event(anyserver::logs::WriterEvent::Line(sample_line("l199", LogStream::Stdout))));
    assert_eq!(texts.len(), 200);
    assert!(matches!(w.on_event(anyserver::logs::WriterEvent::Written(1 << 40)), anyserver::logs::WriterOrder::Nothing));
}

#[test]
fn unwritable_log_drops_every_line() {
    let mut w = anyserver::logs::LogWriter::open(None, 100);
    assert!(matches!(w.on_event(anyserver::logs::WriterEvent::Line(sample_line("x", LogStream::Stdout))), anyserver::logs::WriterOrder::Nothing));
    assert!(w.pending.is_empty());
    assert!(matches!(w.on_event(anyserver::logs::WriterEvent::ChannelClosed), anyserver::logs::WriterOrder::Stop));
}
