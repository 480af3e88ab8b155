use sds011_exporter::{checksum, Error, ReportingMode, WorkMode, WorkingPeriod};

#[test]
fn checksum_of_nothing_is_zero() {
    assert_eq!(checksum(&[]), 0);
}

#[test]
fn checksum_is_low_byte_of_sum() {
    // 8 + 0 + 5 + 0 + 161 + 96 = 270 = 0x10E
    assert_eq!(checksum(&[0x08, 0x00, 0x05, 0x00, 0xA1, 0x60]), 0x0E);
    assert_eq!(checksum(&[0xFF, 0xFF]), 0xFE);
    assert_eq!(checksum(&[1, 2, 3]), 6);
}

#[test]
fn checksum_wraps_past_sixteen_bits() {
    // 300 * 255 = 76500 = 0x12AD4, beyond sixteen bits; the low byte is 0xD4
    let bytes = vec![0xFFu8; 300];
    assert_eq!(checksum(&bytes), 0xD4);
}

#[test]
fn work_mode_bytes() {
    assert_eq!(WorkMode::from_byte(0), WorkMode::Sleep);
    assert_eq!(WorkMode::from_byte(1), WorkMode::Work);
    assert_eq!(WorkMode::from_byte(0x7F), WorkMode::Work);
    assert_eq!(WorkMode::Sleep.as_byte(), 0);
    assert_eq!(WorkMode::Work.as_byte(), 1);
}

#[test]
fn reporting_mode_bytes() {
    assert_eq!(ReportingMode::from_byte(0), ReportingMode::Active);
    assert_eq!(ReportingMode::from_byte(1), ReportingMode::Query);
    assert_eq!(ReportingMode::from_byte(0xFF), ReportingMode::Query);
    assert_eq!(ReportingMode::Active.as_byte(), 0);
    assert_eq!(ReportingMode::Query.as_byte(), 1);
}

#[test]
fn working_period_bytes() {
    assert_eq!(WorkingPeriod::from_byte(0), WorkingPeriod::Continuous);
    assert_eq!(WorkingPeriod::from_byte(1), WorkingPeriod::Periodic(1));
    assert_eq!(WorkingPeriod::from_byte(30), WorkingPeriod::Periodic(30));
    assert_eq!(WorkingPeriod::from_byte(200), WorkingPeriod::Periodic(200));
    assert_eq!(WorkingPeriod::Continuous.as_byte(), 0);
    assert_eq!(WorkingPeriod::Periodic(7).as_byte(), 7);
}

#[test]
fn every_byte_round_trips_through_working_period() {
    for byte in 0..=255u8 {
        assert_eq!(WorkingPeriod::from_byte(byte).as_byte(), byte);
    }
}

#[test]
fn modes_round_trip_through_bytes() {
    for mode in [WorkMode::Sleep, WorkMode::Work] {
        assert_eq!(WorkMode::from_byte(mode.as_byte()), mode);
    }
    for mode in [ReportingMode::Active, ReportingMode::Query] {
        assert_eq!(ReportingMode::from_byte(mode.as_byte()), mode);
    }
}

#[test]
fn periodic_zero_does_not_round_trip() {
    let period = WorkingPeriod::Periodic(0);
    assert_eq!(WorkingPeriod::from_byte(period.as_byte()), WorkingPeriod::Continuous);
}

#[test]
fn work_mode_from_text() {
    assert_eq!(WorkMode::from_str("work").unwrap(), WorkMode::Work);
    assert_eq!(WorkMode::from_str("on").unwrap(), WorkMode::Work);
    assert_eq!(WorkMode::from_str("sleep").unwrap(), WorkMode::Sleep);
    assert_eq!(WorkMode::from_str("off").unwrap(), WorkMode::Sleep);
}

#[test]
fn work_mode_from_text_ignores_case() {
    assert_eq!(WorkMode::from_str("WORK").unwrap(), WorkMode::Work);
    assert_eq!(WorkMode::from_str("On").unwrap(), WorkMode::Work);
    assert_eq!(WorkMode::from_str("SlEeP").unwrap(), WorkMode::Sleep);
    assert_eq!(WorkMode::from_str("OFF").unwrap(), WorkMode::Sleep);
}

#[test]
fn work_mode_from_lowercase_does_not_lower() {
    assert!(matches!(
        WorkMode::from_lowercase("WORK", "WORK"),
        Err(Error::InvalidWorkMode(text)) if text == "WORK"
    ));
    assert_eq!(WorkMode::from_lowercase("work", "WORK").unwrap(), WorkMode::Work);
}

#[test]
fn work_mode_from_unknown_text() {
    match WorkMode::from_str("Awake") {
        Err(Error::InvalidWorkMode(text)) => assert_eq!(text, "Awake"),
        other => panic!("unexpected: {:?}", other),
    }
    assert!(matches!(WorkMode::from_str(""), Err(Error::InvalidWorkMode(text)) if text.is_empty()));
    assert!(matches!(WorkMode::from_str(" work"), Err(Error::InvalidWorkMode(_))));
}

#[test]
fn reporting_mode_from_text() {
    assert_eq!(ReportingMode::from_str("active").unwrap(), ReportingMode::Active);
    assert_eq!(ReportingMode::from_str("query").unwrap(), ReportingMode::Query);
    assert_eq!(ReportingMode::from_str("Active").unwrap(), ReportingMode::Active);
    assert_eq!(ReportingMode::from_str("QUERY").unwrap(), ReportingMode::Query);
}

#[test]
fn reporting_mode_from_unknown_text() {
    match ReportingMode::from_str("Passive") {
        Err(Error::InvalidReportingMode(text)) => assert_eq!(text, "Passive"),
        other => panic!("unexpected: {:?}", other),
    }
    assert!(matches!(
        ReportingMode::from_lowercase("QUERY", "QUERY"),
        Err(Error::InvalidReportingMode(text)) if text == "QUERY"
    ));
}

#[test]
fn working_period_accepts_zero_and_thirty() {
    assert_eq!(WorkingPeriod::try_from(0usize).unwrap(), WorkingPeriod::Continuous);
    assert_eq!(WorkingPeriod::try_from(1usize).unwrap(), WorkingPeriod::Periodic(1));
    assert_eq!(WorkingPeriod::try_from(30usize).unwrap(), WorkingPeriod::Periodic(30));
}

#[test]
fn working_period_rejects_thirty_one() {
    match WorkingPeriod::try_from(31usize) {
        Err(Error::InvalidWorkingPeriod { period, reason }) => {
            assert_eq!(period, "31");
            assert_eq!(reason, "value out of range (0 <= n <= 30)");
        }
        other => panic!("unexpected: {:?}", other),
    }
    assert!(matches!(
        WorkingPeriod::try_from(usize::MAX),
        Err(Error::InvalidWorkingPeriod { .. })
    ));
    assert!(matches!(
        WorkingPeriod::try_from(256usize),
        Err(Error::InvalidWorkingPeriod { .. })
    ));
}

#[test]
fn working_period_from_text() {
    assert_eq!(WorkingPeriod::from_str("0").unwrap(), WorkingPeriod::Continuous);
    assert_eq!(WorkingPeriod::from_str("30").unwrap(), WorkingPeriod::Periodic(30));
    assert_eq!(WorkingPeriod::from_str("5").unwrap(), WorkingPeriod::Periodic(5));
    assert_eq!(WorkingPeriod::from_str("+7").unwrap(), WorkingPeriod::Periodic(7));
    assert_eq!(WorkingPeriod::from_str("007").unwrap(), WorkingPeriod::Periodic(7));
}

#[test]
fn working_period_from_text_out_of_range() {
    match WorkingPeriod::from_str("31") {
        Err(Error::InvalidWorkingPeriod { period, reason }) => {
            assert_eq!(period, "31");
            assert_eq!(reason, "value out of range (0 <= n <= 30)");
        }
        other => panic!("unexpected: {:?}", other),
    }
}

#[test]
fn working_period_from_negative_text() {
    for text in ["-1", "-31", "-0", "-007", "-99999999999999999999999999999"] {
        match WorkingPeriod::from_str(text) {
            Err(Error::InvalidWorkingPeriod { period, reason }) => {
                assert_eq!(period, text);
                assert_eq!(reason, "value out of range (0 <= n <= 30)");
            }
            other => panic!("unexpected for {:?}: {:?}", text, other),
        }
    }
}

#[test]
fn working_period_from_text_with_a_stray_minus() {
    for text in ["-", "--1", "-1x", "- 1", "-+1", "1-", " -1", "-1 ", "\u{2212}1", "-\u{0661}"] {
        match WorkingPeriod::from_str(text) {
            Err(Error::InvalidWorkingPeriod { period, reason }) => {
                assert_eq!(period, text);
                assert!(reason.starts_with("could not parse int: "), "{:?}: {}", text, reason);
                assert!(reason.len() > "could not parse int: ".len());
            }
            other => panic!("unexpected for {:?}: {:?}", text, other),
        }
    }
}

#[test]
fn working_period_from_parsed_looks_at_the_sign() {
    for parsed in [Err("no number".to_string()), Ok(5), Ok(40)] {
        match WorkingPeriod::from_parsed(parsed, "-5") {
            Err(Error::InvalidWorkingPeriod { period, reason }) => {
                assert_eq!(period, "-5");
                assert_eq!(reason, "value out of range (0 <= n <= 30)");
            }
            other => panic!("unexpected: {:?}", other),
        }
    }
}

#[test]
fn working_period_from_unreadable_text() {
    for text in ["", "+", "abc", "5 ", " 5", "5_0", "1.5", "99999999999999999999999999999"] {
        match WorkingPeriod::from_str(text) {
            Err(Error::InvalidWorkingPeriod { period, reason }) => {
                assert_eq!(period, text);
                assert!(reason.starts_with("could not parse int: "));
            }
            other => panic!("unexpected for {:?}: {:?}", text, other),
        }
    }
}

#[test]
fn working_period_from_parsed_keeps_the_message() {
    match WorkingPeriod::from_parsed(Err("no number".to_string()), "x") {
        Err(Error::InvalidWorkingPeriod { period, reason }) => {
            assert_eq!(period, "x");
            assert_eq!(reason, "could not parse int: no number");
        }
        other => panic!("unexpected: {:?}", other),
    }
    assert_eq!(WorkingPeriod::from_parsed(Ok(12), "12").unwrap(), WorkingPeriod::Periodic(12));
    assert!(matches!(
        WorkingPeriod::from_parsed(Ok(40), "40"),
        Err(Error::InvalidWorkingPeriod { .. })
    ));
}
