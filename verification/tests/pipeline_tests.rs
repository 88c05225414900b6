use rg15::line::LineAssembler;
use rg15::model::TelemetryModel;
use rg15::telemetry::{decode_line, Data};

#[test]
fn assembler_completes_line() {
    let mut a = LineAssembler::new(4096);
    let mut lines: Vec<Vec<u8>> = Vec::new();
    for &b in b"Acc 1.2,EventAcc 0.3\n".iter() {
        if let Some(line) = a.push(b) {
            lines.push(line);
        }
    }
    assert_eq!(lines.len(), 1);
    assert_eq!(lines[0], b"Acc 1.2,EventAcc 0.3".to_vec());
    assert_eq!(a.buffered_len(), 0);
}

#[test]
fn assembler_splits_consecutive_lines() {
    let mut a = LineAssembler::new(4096);
    let mut lines: Vec<Vec<u8>> = Vec::new();
    for &b in b"one\ntwo\n".iter() {
        if let Some(line) = a.push(b) {
            lines.push(line);
        }
    }
    assert_eq!(lines, vec![b"one".to_vec(), b"two".to_vec()]);
}

#[test]
fn assembler_overflow_truncates() {
    let mut a = LineAssembler::new(8);
    for _ in 0..100 {
        assert!(a.push(b'x').is_none());
        assert!(a.buffered_len() <= 8);
    }
    let line = a.push(b'\n').expect("terminator completes the line");
    assert_eq!(line, vec![b'x'; 8]);
    assert_eq!(a.buffered_len(), 0);
    assert!(a.push(b'y').is_none());
    assert_eq!(a.buffered_len(), 1);
}

#[test]
fn decoder_updates_all_fields() {
    let mut d = Data::default();
    decode_line(&mut d, b"Acc 12.5, EventAcc 0.0, TotalAcc 900.1, RInt 0.4");
    assert_eq!(d.acc, b"12.5".to_vec());
    assert_eq!(d.event_acc, b"0.0".to_vec());
    assert_eq!(d.total_acc, b"900.1".to_vec());
    assert_eq!(d.r_int, b"0.4".to_vec());
    assert_eq!(d.raw, b"Acc 12.5, EventAcc 0.0, TotalAcc 900.1, RInt 0.4\n".to_vec());
}

#[test]
fn decoder_skips_unknown_and_malformed() {
    let mut d = Data::default();
    decode_line(&mut d, b"Foo bar, Acc 1.0, baz");
    assert_eq!(d.acc, b"1.0".to_vec());
    assert_eq!(d.event_acc, b"event_acc".to_vec());
    assert_eq!(d.total_acc, b"total_acc".to_vec());
    assert_eq!(d.r_int, b"r_int".to_vec());
    assert_eq!(d.raw, b"Foo bar, Acc 1.0, baz\n".to_vec());
}

#[test]
fn decoder_discards_invalid_encoding() {
    let mut d = Data::default();
    decode_line(&mut d, &[0xff, 0xfe, b'A']);
    assert_eq!(d.raw, b"".to_vec());
    assert_eq!(d.acc, b"acc".to_vec());
    assert_eq!(d.event_acc, b"event_acc".to_vec());
    assert_eq!(d.total_acc, b"total_acc".to_vec());
    assert_eq!(d.r_int, b"r_int".to_vec());
}

#[test]
fn decoder_trims_whitespace() {
    let mut d = Data::default();
    decode_line(&mut d, b"  Acc 3.3 \r");
    assert_eq!(d.acc, b"3.3".to_vec());
    assert_eq!(d.raw, b"Acc 3.3\n".to_vec());
}

#[test]
fn decoder_later_segment_overwrites() {
    let mut d = Data::default();
    decode_line(&mut d, b"Acc 1.0,Acc 2.0");
    assert_eq!(d.acc, b"2.0".to_vec());
}

#[test]
fn decoder_empty_line_only_logs() {
    let mut d = Data::default();
    decode_line(&mut d, b"");
    assert_eq!(d.raw, b"\n".to_vec());
    assert_eq!(d.acc, b"acc".to_vec());
}

#[test]
fn decoder_value_is_rest_after_first_space() {
    let mut d = Data::default();
    decode_line(&mut d, b"RInt 0.4 mm/h");
    assert_eq!(d.r_int, b"0.4 mm/h".to_vec());
}

#[test]
fn model_snapshot_defaults() {
    let m = TelemetryModel::new();
    let s = m.snapshot();
    assert_eq!(s.raw, b"".to_vec());
    assert_eq!(s.acc, b"acc".to_vec());
    assert_eq!(s.event_acc, b"event_acc".to_vec());
    assert_eq!(s.total_acc, b"total_acc".to_vec());
    assert_eq!(s.r_int, b"r_int".to_vec());
}

#[test]
fn model_ingest_updates_snapshot() {
    let m = TelemetryModel::new();
    m.ingest(b"Acc 5.5");
    let s = m.snapshot();
    assert_eq!(s.acc, b"5.5".to_vec());
    assert_eq!(s.raw, b"Acc 5.5\n".to_vec());
    m.ingest(b"RInt 9.9");
    let s = m.snapshot();
    assert_eq!(s.acc, b"5.5".to_vec());
    assert_eq!(s.r_int, b"9.9".to_vec());
    assert_eq!(s.raw, b"Acc 5.5\nRInt 9.9\n".to_vec());
}

#[test]
fn model_commits_lines_whole() {
    let m = TelemetryModel::new();
    m.ingest(b"Acc 1.1, RInt 2.2");
    let s = m.snapshot();
    assert_eq!(s.acc, b"1.1".to_vec());
    assert_eq!(s.r_int, b"2.2".to_vec());
}
