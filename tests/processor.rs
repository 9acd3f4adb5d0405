use layertwo::{decimal_text, run_text, LayerTwoProcessor, Stats};

#[test]
fn new_processor_has_counted_nothing() {
    let p = LayerTwoProcessor::new(true);
    assert_eq!(p.get_stats(), Stats { processed_count: 0, verbose: true });
    let q = LayerTwoProcessor::new(false);
    assert_eq!(q.get_stats(), Stats { processed_count: 0, verbose: false });
}

#[test]
fn process_counts_and_describes_each_item() {
    let mut p = LayerTwoProcessor::new(false);
    let r1 = p.process("hello");
    assert!(r1.success);
    assert_eq!(r1.message, "Successfully processed item #1");
    let d1 = r1.data.unwrap();
    assert_eq!(d1.length, 5);
    assert_eq!(d1.item_number, 1);
    let r2 = p.process("");
    assert_eq!(r2.message, "Successfully processed item #2");
    assert_eq!(r2.data.unwrap().length, 0);
    assert_eq!(p.get_stats().processed_count, 2);
}

#[test]
fn count_does_not_depend_on_verbosity() {
    let mut quiet = LayerTwoProcessor::new(false);
    let mut loud = LayerTwoProcessor::new(true);
    for item in ["x", "yy", "zzz", "", "w"] {
        quiet.process(item);
        loud.process(item);
    }
    assert_eq!(quiet.get_stats(), Stats { processed_count: 5, verbose: false });
    assert_eq!(loud.get_stats(), Stats { processed_count: 5, verbose: true });
}

#[test]
fn length_is_counted_in_bytes() {
    let mut p = LayerTwoProcessor::new(false);
    let r = p.process("h\u{e9}llo");
    assert_eq!(r.data.unwrap().length, 6);
}

#[test]
fn process_at_keeps_the_given_time_stamp() {
    let mut p = LayerTwoProcessor::new(false);
    let r = p.process_at("abc", String::from("2024-01-02T03:04:05+00:00"));
    assert!(r.success);
    assert_eq!(r.message, "Successfully processed item #1");
    let d = r.data.unwrap();
    assert_eq!(d.processed_at, "2024-01-02T03:04:05+00:00");
    assert_eq!(d.length, 3);
    assert_eq!(d.item_number, 1);
}

#[test]
fn time_stamp_is_rfc3339_in_utc() {
    let mut p = LayerTwoProcessor::new(false);
    let stamp = p.process("a").data.unwrap().processed_at;
    assert!(stamp.ends_with("+00:00"));
    assert_eq!(stamp.as_bytes()[4], b'-');
    assert_eq!(stamp.as_bytes()[10], b'T');
}

#[test]
fn message_numbers_go_past_nine() {
    let mut p = LayerTwoProcessor::new(false);
    for _ in 0..11 {
        p.process("line");
    }
    let r = p.process("line");
    assert_eq!(r.message, "Successfully processed item #12");
    assert_eq!(r.data.unwrap().item_number, 12);
}

#[test]
fn three_lines_from_a_file() {
    let (p, results) = run_text(false, "a\nbb\nccc\n");
    assert_eq!(p.get_stats().processed_count, 3);
    assert_eq!(results.len(), 3);
    assert!(results[2].message.contains("item #3"));
    let third = results[2].data.as_ref().unwrap();
    assert_eq!(third.length, 3);
    assert_eq!(third.item_number, 3);
    assert_eq!(results[0].data.as_ref().unwrap().length, 1);
    assert_eq!(results[1].data.as_ref().unwrap().length, 2);
}

#[test]
fn empty_input_counts_nothing() {
    let (p, results) = run_text(false, "");
    assert_eq!(p.get_stats(), Stats { processed_count: 0, verbose: false });
    assert!(results.is_empty());
    assert_eq!(p.get_stats().to_json(), "{\"processed_count\":0,\"verbose\":false}");
    let (q, _) = run_text(true, "");
    assert_eq!(q.get_stats().to_json(), "{\"processed_count\":0,\"verbose\":true}");
}

#[test]
fn count_equals_number_of_lines() {
    let cases: [(&str, usize); 8] = [
        ("", 0),
        ("\n", 1),
        ("one", 1),
        ("one\n", 1),
        ("one\ntwo", 2),
        ("a\n\nb\n", 3),
        ("a\r\nb\r\n", 2),
        ("\n\n\n\n", 4),
    ];
    for (text, n) in cases {
        let (p, results) = run_text(true, text);
        assert_eq!(p.get_stats().processed_count, n);
        assert_eq!(results.len(), n);
    }
}

#[test]
fn carriage_return_goes_with_its_newline() {
    let (_, results) = run_text(false, "ab\r\ncd\r");
    assert_eq!(results.len(), 2);
    assert_eq!(results[0].data.as_ref().unwrap().length, 2);
    assert_eq!(results[1].data.as_ref().unwrap().length, 3);
}

#[test]
fn stats_json_is_compact_and_ordered() {
    let s = Stats { processed_count: 42, verbose: true };
    assert_eq!(s.to_json(), "{\"processed_count\":42,\"verbose\":true}");
    let t = Stats { processed_count: 1000, verbose: false };
    assert_eq!(t.to_json(), "{\"processed_count\":1000,\"verbose\":false}");
}

#[test]
fn stats_json_reads_back() {
    let (p, _) = run_text(true, "x\ny\n");
    let text = p.get_stats().to_json();
    let value: serde_json::Value = serde_json::from_str(&text).unwrap();
    assert_eq!(value["processed_count"].as_u64(), Some(2));
    assert_eq!(value["verbose"].as_bool(), Some(true));
}

#[test]
fn decimal_text_writes_digits() {
    assert_eq!(decimal_text(0), "0");
    assert_eq!(decimal_text(7), "7");
    assert_eq!(decimal_text(10), "10");
    assert_eq!(decimal_text(1234567890), "1234567890");
    assert_eq!(decimal_text(usize::MAX), usize::MAX.to_string());
}
