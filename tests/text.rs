use ffxivfishing::eorzea_time::{EorzeaDuration, EorzeaTime, EorzeaTimeSpan};
use ffxivfishing::text::decimal_string;

#[test]
fn time_as_text() {
    let t = EorzeaTime::new(1, 2, 3, 4, 5, 6).unwrap();
    assert_eq!(t.to_string(), "0001-02-03 04:05:06");
    let t = EorzeaTime::new(2024, 12, 32, 23, 59, 59).unwrap();
    assert_eq!(t.to_string(), "2024-12-32 23:59:59");
}

#[test]
fn duration_as_text() {
    assert_eq!(EorzeaDuration::new(7, 30, 0).unwrap().to_string(), "07:30:00");
    assert_eq!(EorzeaDuration::from_esecs(100 * 3600 + 61).to_string(), "100:01:01");
}

#[test]
fn span_as_text() {
    let span = EorzeaTimeSpan::new(
        EorzeaTime::new(1, 1, 3, 1, 0, 0).unwrap(),
        EorzeaDuration::new(1, 0, 0).unwrap(),
    );
    assert_eq!(span.to_string(), "0001-01-03 01:00:00 for 01:00:00");
}

#[test]
fn decimal_text() {
    assert_eq!(decimal_string(0), "0");
    assert_eq!(decimal_string(134), "134");
    assert_eq!(decimal_string(u64::MAX), u64::MAX.to_string());
}
