use vlf4::civil::{CivilDate, TimeOfDay};
use vlf4::correlator::{on_pps_edge, CorrelatedFix, FRESHNESS_WINDOW_MS};
use vlf4::gps::{correlate, overflows_parser, FixKind, FixReport, GpsReceiver};
use vlf4::mailbox::Mailbox;
use vlf4::sentence::SentenceAssembler;
use vlf4::tilt::PULSE_MS;

const RMC: &str = "$GPRMC,123519,A,4807.038,N,01131.000,E,022.4,084.4,230394,003.1,W*6A\r\n";
const RMC_UNIX: i64 = 764426119;

fn texts(reports: &[vlf4::gps::SentenceReport]) -> Vec<String> {
    reports.iter().map(|r| r.text.clone()).collect()
}

fn with_checksum(body: &str) -> String {
    let sum = body.bytes().fold(0u8, |c, b| c ^ b);
    format!("${}*{:02X}\r\n", body, sum)
}

#[test]
fn valid_fix_then_prompt_edge_pulses_once() {
    let mut rx = GpsReceiver::new();
    let mut mailbox = Mailbox::new();
    let reports = rx.feed(RMC.as_bytes(), 1_000, &mut mailbox);
    assert_eq!(reports.len(), 1);
    assert!(reports[0].parsed);
    assert_eq!(reports[0].text, RMC);
    assert_eq!(reports[0].fix, Some(CorrelatedFix { captured_at: 1_000, unix_time: RMC_UNIX }));
    let mut pulses = 0;
    let mut stamp = None;
    for now in [1_300u64, 2_300] {
        if let Some(t) = on_pps_edge(&mut mailbox, now) {
            pulses += 1;
            stamp = Some(t);
        }
    }
    assert_eq!(pulses, 1);
    assert_eq!(stamp, Some(RMC_UNIX + 1));
    assert_eq!(PULSE_MS, 200);
}

#[test]
fn valid_fix_then_late_edge_gives_nothing() {
    let mut rx = GpsReceiver::new();
    let mut mailbox = Mailbox::new();
    rx.feed(RMC.as_bytes(), 1_000, &mut mailbox);
    assert_eq!(on_pps_edge(&mut mailbox, 1_900), None);
    assert!(!mailbox.is_pending());
}

#[test]
fn freshness_window_boundary_is_exclusive() {
    let fix = CorrelatedFix { captured_at: 5_000, unix_time: 42 };
    let mut mailbox = Mailbox::new();
    mailbox.put(fix);
    assert_eq!(on_pps_edge(&mut mailbox, 5_000 + FRESHNESS_WINDOW_MS), None);
    mailbox.put(fix);
    assert_eq!(on_pps_edge(&mut mailbox, 5_000 + FRESHNESS_WINDOW_MS - 1), Some(43));
    mailbox.put(fix);
    assert_eq!(on_pps_edge(&mut mailbox, 5_000), Some(43));
    mailbox.put(fix);
    assert_eq!(on_pps_edge(&mut mailbox, 4_999), None);
}

#[test]
fn second_edge_without_new_fix_finds_nothing() {
    let mut mailbox = Mailbox::new();
    mailbox.put(CorrelatedFix { captured_at: 0, unix_time: 10 });
    assert_eq!(on_pps_edge(&mut mailbox, 100), Some(11));
    assert_eq!(on_pps_edge(&mut mailbox, 200), None);
}

#[test]
fn empty_mailbox_edge_is_ignored() {
    let mut mailbox: Mailbox<CorrelatedFix> = Mailbox::new();
    assert_eq!(on_pps_edge(&mut mailbox, 100), None);
}

#[test]
fn latest_fix_wins() {
    let mut rx = GpsReceiver::new();
    let mut mailbox = Mailbox::new();
    rx.feed(RMC.as_bytes(), 1_000, &mut mailbox);
    rx.feed(RMC.as_bytes(), 2_000, &mut mailbox);
    assert_eq!(mailbox.try_take(), Some(CorrelatedFix { captured_at: 2_000, unix_time: RMC_UNIX }));
    assert_eq!(mailbox.try_take(), None);
}

#[test]
fn chunking_does_not_change_sentences() {
    let stream = format!("garbage{}$GPGGA,partial{}{}", RMC, RMC, "$GPRMC,1");
    let bytes = stream.as_bytes();
    let mut whole = SentenceAssembler::new();
    let all = whole.feed(bytes);
    for size in [1usize, 2, 3, 7, 13, 64] {
        let mut parts = SentenceAssembler::new();
        let mut got = Vec::new();
        for chunk in bytes.chunks(size) {
            got.extend(parts.feed(chunk));
        }
        assert_eq!(got, all);
    }
    assert_eq!(all, vec![RMC.to_string(), RMC.to_string()]);
}

#[test]
fn chunked_feed_gives_same_fix() {
    let mut rx = GpsReceiver::new();
    let mut mailbox = Mailbox::new();
    let mut seen = Vec::new();
    for chunk in RMC.as_bytes().chunks(5) {
        seen.extend(texts(&rx.feed(chunk, 7, &mut mailbox)));
    }
    assert_eq!(seen, vec![RMC.to_string()]);
    assert_eq!(mailbox.try_take(), Some(CorrelatedFix { captured_at: 7, unix_time: RMC_UNIX }));
}

#[test]
fn start_marker_discards_partial_sentence() {
    let mut assembler = SentenceAssembler::new();
    let stream = format!("$GPGGA,123{}", RMC);
    let out = assembler.feed(stream.as_bytes());
    assert_eq!(out, vec![RMC.to_string()]);
}

#[test]
fn full_buffer_completes_a_sentence() {
    let mut assembler = SentenceAssembler::new();
    let long = format!("${}", "A".repeat(90));
    let out = assembler.feed(long.as_bytes());
    assert_eq!(out.len(), 1);
    assert_eq!(out[0], format!("${}", "A".repeat(83)));
    let rest = assembler.feed(b"\n");
    assert_eq!(rest, vec![format!("{}\n", "A".repeat(7))]);
}

#[test]
fn no_terminator_no_sentence() {
    let mut assembler = SentenceAssembler::new();
    assert!(assembler.feed(b"$GPRMC,123519").is_empty());
    assert!(assembler.feed(b"").is_empty());
}

#[test]
fn invalid_status_puts_no_fix() {
    let mut rx = GpsReceiver::new();
    let mut mailbox = Mailbox::new();
    let sentence = with_checksum("GPRMC,123519,V,4807.038,N,01131.000,E,022.4,084.4,230394,003.1,W");
    let reports = rx.feed(sentence.as_bytes(), 1, &mut mailbox);
    assert_eq!(reports.len(), 1);
    assert!(reports[0].parsed);
    assert_eq!(reports[0].report.kind, Some(FixKind::Invalid));
    assert_eq!(reports[0].fix, None);
    assert!(!mailbox.is_pending());
}

#[test]
fn bad_checksum_is_a_parse_error() {
    let mut rx = GpsReceiver::new();
    let mut mailbox = Mailbox::new();
    let sentence = "$GPRMC,123519,A,4807.038,N,01131.000,E,022.4,084.4,230394,003.1,W*00\r\n";
    let reports = rx.feed(sentence.as_bytes(), 1, &mut mailbox);
    assert_eq!(reports.len(), 1);
    assert!(!reports[0].parsed);
    assert_eq!(reports[0].fix, None);
}

#[test]
fn oversized_satellite_list_is_refused() {
    let body = format!("GPGSA,A,3,{}1.0,1.0,1.0", "1,".repeat(19));
    let sentence = with_checksum(&body);
    assert!(overflows_parser(&sentence));
    let mut rx = GpsReceiver::new();
    let mut mailbox = Mailbox::new();
    let reports = rx.feed(sentence.as_bytes(), 1, &mut mailbox);
    assert_eq!(reports.len(), 1);
    assert!(!reports[0].parsed);
    let ok = with_checksum(&format!("GPGSA,A,3,{}1.0,1.0,1.0", "1,".repeat(12)));
    assert!(!overflows_parser(&ok));
    let reports = rx.feed(ok.as_bytes(), 1, &mut mailbox);
    assert!(reports[0].parsed);
}

#[test]
fn correlate_computes_unix_time() {
    let report = FixReport {
        kind: Some(FixKind::Gps),
        date: Some(CivilDate { year: 2024, month: 2, day: 29 }),
        time: Some(TimeOfDay { hour: 23, minute: 59, second: 59 }),
    };
    assert_eq!(correlate(&report, 9), Some(CorrelatedFix { captured_at: 9, unix_time: 1709251199 }));
    let epoch = FixReport {
        kind: Some(FixKind::Estimated),
        date: Some(CivilDate { year: 1970, month: 1, day: 1 }),
        time: Some(TimeOfDay { hour: 0, minute: 0, second: 0 }),
    };
    assert_eq!(correlate(&epoch, 0), Some(CorrelatedFix { captured_at: 0, unix_time: 0 }));
    let before = FixReport {
        kind: Some(FixKind::DGps),
        date: Some(CivilDate { year: 1969, month: 12, day: 31 }),
        time: Some(TimeOfDay { hour: 23, minute: 59, second: 0 }),
    };
    assert_eq!(correlate(&before, 0), Some(CorrelatedFix { captured_at: 0, unix_time: -60 }));
}

#[test]
fn correlate_needs_kind_date_and_time() {
    let date = Some(CivilDate { year: 2020, month: 1, day: 1 });
    let time = Some(TimeOfDay { hour: 1, minute: 2, second: 3 });
    let invalid = FixReport { kind: Some(FixKind::Invalid), date, time };
    assert_eq!(correlate(&invalid, 0), None);
    let no_kind = FixReport { kind: None, date, time };
    assert_eq!(correlate(&no_kind, 0), None);
    let no_date = FixReport { kind: Some(FixKind::Gps), date: None, time };
    assert_eq!(correlate(&no_date, 0), None);
    let no_time = FixReport { kind: Some(FixKind::Gps), date, time: None };
    assert_eq!(correlate(&no_time, 0), None);
}

#[test]
fn high_numbered_view_sentences_are_refused() {
    let sentence = with_checksum("GPGSV,15,15,60,01,40,083,46");
    assert!(overflows_parser(&sentence));
    let padded = with_checksum("GPGSV,16,015,60,01,40,083,46");
    assert!(overflows_parser(&padded));
    let mut rx = GpsReceiver::new();
    let mut mailbox = Mailbox::new();
    for _ in 0..16 {
        let reports = rx.feed(sentence.as_bytes(), 1, &mut mailbox);
        assert_eq!(reports.len(), 1);
        assert!(!reports[0].parsed);
    }
    let reports = rx.feed(RMC.as_bytes(), 2, &mut mailbox);
    assert!(reports[0].parsed);
    assert_eq!(mailbox.try_take(), Some(CorrelatedFix { captured_at: 2, unix_time: RMC_UNIX }));
}

#[test]
fn view_sentences_up_to_fourteen_are_parsed() {
    let sentence = with_checksum("GPGSV,14,14,56,01,40,083,46");
    assert!(!overflows_parser(&sentence));
    let mut rx = GpsReceiver::new();
    let mut mailbox = Mailbox::new();
    for _ in 0..20 {
        let reports = rx.feed(sentence.as_bytes(), 1, &mut mailbox);
        assert!(reports[0].parsed);
    }
}

#[test]
fn capacity_counts_characters_not_utf8_bytes() {
    let mut assembler = SentenceAssembler::new();
    assert!(assembler.feed(&[0xE9; 42]).is_empty());
    let out = assembler.feed(&[0xE9; 42]);
    assert_eq!(out.len(), 1);
    assert_eq!(out[0].chars().count(), 84);
    assert!(out[0].chars().all(|c| c == '\u{e9}'));
    let mut held = SentenceAssembler::new();
    let mut bytes = vec![b'$'];
    bytes.extend([b'A'; 82]);
    bytes.push(0xFF);
    let out = held.feed(&bytes);
    assert_eq!(out.len(), 1);
    assert_eq!(out[0].chars().count(), 84);
    assert_eq!(out[0].chars().last(), Some('\u{ff}'));
}

#[test]
fn every_byte_lands_in_exactly_one_sentence() {
    let mut assembler = SentenceAssembler::new();
    let out = assembler.feed(b"\nX\n$A");
    assert_eq!(out, vec!["\n".to_string(), "X\n".to_string()]);
    let out = assembler.feed(b"B\n");
    assert_eq!(out, vec!["$AB\n".to_string()]);
}

#[test]
fn sentences_can_be_handled_one_at_a_time() {
    let mut rx = GpsReceiver::new();
    let mut mailbox = Mailbox::new();
    let texts = rx.reassemble_bytes(RMC.as_bytes());
    assert_eq!(texts, vec![RMC.to_string()]);
    let report = rx.handle_sentence(texts[0].clone(), 33, &mut mailbox);
    assert!(report.parsed);
    assert_eq!(report.fix, Some(CorrelatedFix { captured_at: 33, unix_time: RMC_UNIX }));
    let junk = rx.handle_sentence("$GPXYZ,1*00\r\n".to_string(), 34, &mut mailbox);
    assert!(!junk.parsed);
    assert_eq!(mailbox.try_take(), Some(CorrelatedFix { captured_at: 34, unix_time: RMC_UNIX }));
}
