use ffxivfishing::eorzea_time::{
    EorzeaClockError, EorzeaDuration, EorzeaTime, EorzeaTimeCreationError, EorzeaTimeSpan,
    BELL_IN_ESEC, MINUTE_IN_ESEC, MOON_IN_ESEC, SUN_IN_ESEC, YEAR_IN_ESEC,
};

#[test]
fn new_eorzea_time() {
    assert_eq!(
        EorzeaTime::new(0, 1, 1, 0, 0, 0),
        Err(EorzeaTimeCreationError::ValueOutOfBounds)
    );
    assert_eq!(
        EorzeaTime::new(1, 0, 1, 0, 0, 0),
        Err(EorzeaTimeCreationError::ValueOutOfBounds)
    );
    assert_eq!(
        EorzeaTime::new(1, 13, 1, 0, 0, 0),
        Err(EorzeaTimeCreationError::ValueOutOfBounds)
    );
    assert_eq!(
        EorzeaTime::new(1, 1, 0, 0, 0, 0),
        Err(EorzeaTimeCreationError::ValueOutOfBounds)
    );
    assert_eq!(
        EorzeaTime::new(1, 1, 33, 0, 0, 0),
        Err(EorzeaTimeCreationError::ValueOutOfBounds)
    );
    assert_eq!(
        EorzeaTime::new(1, 1, 1, 24, 0, 0),
        Err(EorzeaTimeCreationError::ValueOutOfBounds)
    );
    assert_eq!(
        EorzeaTime::new(1, 1, 1, 0, 60, 0),
        Err(EorzeaTimeCreationError::ValueOutOfBounds)
    );
    assert_eq!(
        EorzeaTime::new(1, 1, 1, 0, 0, 60),
        Err(EorzeaTimeCreationError::ValueOutOfBounds)
    );
    assert_eq!(EorzeaTime::new(1, 1, 1, 0, 0, 0), Ok(EorzeaTime::from_esecs(0)));
    assert_eq!(EorzeaTime::new(1, 1, 1, 0, 0, 1), Ok(EorzeaTime::from_esecs(1)));
    assert_eq!(
        EorzeaTime::new(1, 12, 32, 23, 59, 59),
        Ok(EorzeaTime::from_esecs(YEAR_IN_ESEC - 1))
    );
}

#[test]
fn systemtime_to_eorzeatime() {
    assert_eq!(
        EorzeaTime::from_time(0).unwrap(),
        EorzeaTime::new(1, 1, 1, 0, 0, 0).unwrap()
    );
    assert_eq!(
        EorzeaTime::from_time(60 * 70).unwrap(),
        EorzeaTime::new(1, 1, 2, 0, 0, 0).unwrap()
    );
    assert_eq!(
        EorzeaTime::from_time(60 * 60 * 24).unwrap(),
        EorzeaTime::new(1, 1, 21, 13, 42, 51).unwrap()
    );
}

#[test]
fn eorzea_time_to_system_time() {
    let scenarios = vec![
        0,
        MINUTE_IN_ESEC,
        BELL_IN_ESEC,
        MOON_IN_ESEC,
        YEAR_IN_ESEC,
        YEAR_IN_ESEC * 1000 - 10,
        2000 * YEAR_IN_ESEC - 1,
    ];
    for sec in scenarios {
        let time = sec as i64;
        let et = EorzeaTime::from_time(time);
        assert!(et.is_ok());
        assert_eq!(et.unwrap().to_system_time(), time)
    }
}

#[test]
fn eorzea_time_span() {
    let time_span = EorzeaTimeSpan::new(EorzeaTime::from_esecs(0), EorzeaDuration::from_esecs(1));
    assert_eq!(time_span.end(), EorzeaTime::from_esecs(1));
}

#[test]
fn eorzea_time_span_new_start_end() {
    let start = EorzeaTime::from_esecs(0);
    let end = EorzeaTime::from_esecs(1);
    let result = EorzeaTimeSpan::new_start_end(start, end);
    assert!(result.is_ok());
    assert_eq!(result.unwrap().duration(), EorzeaDuration::from_esecs(1));

    assert!(EorzeaTimeSpan::new_start_end(end, start).is_err())
}

#[test]
fn eorzea_time_span_overlap() {
    let span1 = EorzeaTimeSpan::new(EorzeaTime::from_esecs(0), EorzeaDuration::from_esecs(1));
    let span2 = EorzeaTimeSpan::new(EorzeaTime::from_esecs(0), EorzeaDuration::from_esecs(2));
    assert_eq!(span1.overlap(&span2), span2.overlap(&span1));
    let overlap = span1.overlap(&span2);
    assert!(overlap.is_ok());
    let o = overlap.unwrap();
    assert_eq!(o.start(), EorzeaTime::from_esecs(0));
    assert_eq!(o.end(), EorzeaTime::from_esecs(1));

    let span3 = EorzeaTimeSpan::new(EorzeaTime::from_esecs(1), EorzeaDuration::from_esecs(2));
    let overlap = span1.overlap(&span3);
    assert!(overlap.is_ok());
    let o = overlap.unwrap();
    assert_eq!(o.start(), EorzeaTime::from_esecs(1));
    assert_eq!(o.end(), EorzeaTime::from_esecs(1));

    let span4 = EorzeaTimeSpan::new(EorzeaTime::from_esecs(2), EorzeaDuration::from_esecs(1));
    assert!(span1.overlap(&span4).is_err());
}

#[test]
fn calendar_fields_round_trip() {
    let t = EorzeaTime::new(7, 5, 17, 13, 42, 9).unwrap();
    assert_eq!(
        (t.year(), t.moon(), t.sun(), t.bell(), t.minute(), t.second()),
        (7, 5, 17, 13, 42, 9)
    );
    assert_eq!(
        t.timestamp(),
        6 * YEAR_IN_ESEC + 4 * MOON_IN_ESEC + 16 * SUN_IN_ESEC + 13 * 3600 + 42 * 60 + 9
    );
}

#[test]
fn largest_calendar_date_converts_back_and_forth() {
    for t in [
        EorzeaTime::new(1, 1, 1, 0, 0, 0).unwrap(),
        EorzeaTime::new(1, 12, 32, 23, 59, 59).unwrap(),
        EorzeaTime::new(2024, 6, 15, 7, 30, 1).unwrap(),
        EorzeaTime::new(u16::MAX, 12, 32, 23, 59, 59).unwrap(),
    ] {
        let real = t.to_system_time();
        let back = EorzeaTime::from_time(real).unwrap();
        assert_eq!(back.to_system_time(), real);
    }
}

#[test]
fn clock_errors() {
    assert_eq!(EorzeaTime::from_time(-1), Err(EorzeaClockError::BeforeEpoch));
    assert_eq!(EorzeaTime::from_time(i64::MAX), Err(EorzeaClockError::OutOfRange));
}

#[test]
fn rounding_to_nearest_second() {
    // 144 / 7 game seconds per real second.
    assert_eq!(EorzeaTime::from_time(1).unwrap().timestamp(), 21);
    assert_eq!(EorzeaTime::from_time(7).unwrap().timestamp(), 144);
    assert_eq!(EorzeaTime::from_esecs(10).to_system_time(), 0);
    assert_eq!(EorzeaTime::from_esecs(11).to_system_time(), 1);
}

#[test]
fn round_truncates_to_day() {
    let mut t = EorzeaTime::new(1, 2, 3, 4, 5, 6).unwrap();
    t.round(EorzeaDuration::from_esecs(SUN_IN_ESEC));
    assert_eq!(t, EorzeaTime::new(1, 2, 3, 0, 0, 0).unwrap());
}

#[test]
fn subtraction_saturates() {
    let t = EorzeaTime::from_esecs(5);
    assert_eq!(t.minus(EorzeaDuration::from_esecs(9)), EorzeaTime::from_esecs(0));
    assert_eq!(t.minus(EorzeaDuration::from_esecs(2)), EorzeaTime::from_esecs(3));
    assert_eq!(t.plus(EorzeaDuration::from_esecs(2)), EorzeaTime::from_esecs(7));
}

#[test]
fn durations() {
    assert_eq!(
        EorzeaDuration::new(1, 2, 3).unwrap().total_seconds(),
        BELL_IN_ESEC + 2 * MINUTE_IN_ESEC + 3
    );
    assert_eq!(
        EorzeaDuration::new(24, 0, 0),
        Err(EorzeaTimeCreationError::ValueOutOfBounds)
    );
    assert_eq!(
        EorzeaDuration::new_ext(1, 0, 0, 0, 0, 0).unwrap().total_seconds(),
        YEAR_IN_ESEC
    );
    assert_eq!(
        EorzeaDuration::new_ext(0, 12, 0, 0, 0, 0),
        Err(EorzeaTimeCreationError::ValueOutOfBounds)
    );
    let d = EorzeaDuration::from_esecs(SUN_IN_ESEC + 3 * BELL_IN_ESEC);
    assert_eq!(
        d.modulo(EorzeaDuration::from_esecs(SUN_IN_ESEC)),
        EorzeaDuration::from_esecs(3 * BELL_IN_ESEC)
    );
    assert_eq!((d.sun(), d.bell()), (2, 3));
}

#[test]
fn overlap_commutes_on_examples() {
    let spans = [
        EorzeaTimeSpan::new(EorzeaTime::from_esecs(0), EorzeaDuration::from_esecs(10)),
        EorzeaTimeSpan::new(EorzeaTime::from_esecs(5), EorzeaDuration::from_esecs(10)),
        EorzeaTimeSpan::new(EorzeaTime::from_esecs(20), EorzeaDuration::from_esecs(0)),
        EorzeaTimeSpan::new(EorzeaTime::from_esecs(10), EorzeaDuration::from_esecs(10)),
    ];
    for a in spans.iter() {
        for b in spans.iter() {
            assert_eq!(a.overlap(b), b.overlap(a));
        }
    }
    let o = spans[0].overlap(&spans[1]).unwrap();
    assert_eq!((o.start(), o.end()), (EorzeaTime::from_esecs(5), EorzeaTime::from_esecs(10)));
    assert!(spans[0].overlap(&spans[2]).is_err());
}
