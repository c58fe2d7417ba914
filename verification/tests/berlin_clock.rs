use berlin_clock::clock::divide_sub;
use berlin_clock::render::{colorize, range};
use berlin_clock::{Clock, Instant};

#[test]
fn simple_format() {
    assert_eq!(
        Clock::from(Instant::new(11, 15, 20)).render(),
        "R\nRR00\nR000\nYYR00000000\n0000"
    );
    assert_eq!(
        Clock::from(Instant::new(0, 0, 1)).render(),
        "0\n0000\n0000\n00000000000\n0000"
    );
    assert_eq!(
        Clock::from(Instant::new(23, 59, 0)).render(),
        "R\nRRRR\nRRR0\nYYRYYRYYRYY\nYYYY"
    );
}

#[test]
fn round_trip_decomposition() {
    for hours in 0u8..24 {
        for minutes in 0u8..60 {
            let clock = Clock::from(Instant::new(hours, minutes, 0));
            assert_eq!(clock.five_hours * 5 + clock.one_hours, hours);
            assert_eq!(clock.five_minutes * 5 + clock.one_minutes, minutes);
            assert!(clock.five_hours <= 4);
            assert!(clock.one_hours <= 4);
            assert!(clock.five_minutes <= 11);
            assert!(clock.one_minutes <= 4);
        }
    }
}

#[test]
fn boundary_validation() {
    assert!(Instant::try_new(24, 0, 0).is_none());
    assert!(Instant::try_new(0, 60, 0).is_none());
    assert!(Instant::try_new(0, 0, 60).is_none());
    assert!(Instant::try_new(255, 255, 255).is_none());
    let fine = Instant::try_new(23, 59, 59);
    assert!(fine.is_some());
    let time = fine.unwrap();
    assert_eq!(time.hours, 23);
    assert_eq!(time.minutes, 59);
    assert_eq!(time.seconds, 59);
    assert!(Instant::try_new(0, 0, 0).is_some());
}

#[test]
fn pipeline_is_deterministic() {
    for (hours, minutes, seconds) in [(11u8, 15u8, 20u8), (0, 0, 1), (23, 59, 0), (7, 33, 42)] {
        let first = Clock::from(Instant::new(hours, minutes, seconds)).render();
        let second = Clock::from(Instant::new(hours, minutes, seconds)).render();
        assert_eq!(first, second);
    }
}

#[test]
fn row_lengths() {
    for hours in 0u8..24 {
        for minutes in (0u8..60).step_by(7) {
            for seconds in [0u8, 1, 59] {
                let out = Clock::from(Instant::new(hours, minutes, seconds)).render();
                let lines: Vec<&str> = out.split('\n').collect();
                assert_eq!(lines.len(), 5);
                assert_eq!(lines[0].len(), 1);
                assert_eq!(lines[1].len(), 4);
                assert_eq!(lines[2].len(), 4);
                assert_eq!(lines[3].len(), 11);
                assert_eq!(lines[4].len(), 4);
            }
        }
    }
}

#[test]
fn left_fill_never_skips() {
    for hours in 0u8..24 {
        for minutes in 0u8..60 {
            let out = Clock::from(Instant::new(hours, minutes, 2)).render();
            for line in out.split('\n') {
                let mut seen_unlit = false;
                for lamp in line.chars() {
                    if lamp == '0' {
                        seen_unlit = true;
                    } else {
                        assert!(!seen_unlit);
                    }
                }
            }
        }
    }
}

#[test]
fn seconds_lamp_blinks_on_even_seconds() {
    for seconds in 0u8..60 {
        let clock = Clock::from(Instant::new(12, 30, seconds));
        assert_eq!(clock.even_seconds, seconds % 2 == 0);
        let out = clock.render();
        let first = out.chars().next().unwrap();
        assert_eq!(first, if seconds % 2 == 0 { 'R' } else { '0' });
    }
}

#[test]
fn divide_sub_splits_quotient_and_remainder() {
    let mut value: u8 = 23;
    assert_eq!(divide_sub(&mut value, 5), 4);
    assert_eq!(value, 3);

    let mut value: u8 = 59;
    assert_eq!(divide_sub(&mut value, 5), 11);
    assert_eq!(value, 4);

    let mut value: u8 = 4;
    assert_eq!(divide_sub(&mut value, 5), 0);
    assert_eq!(value, 4);
}

#[test]
fn range_and_colorize() {
    assert_eq!(colorize(true, 'R'), 'R');
    assert_eq!(colorize(false, 'R'), '0');
    assert_eq!(range(2, 4, 'R'), "RR00");
    assert_eq!(range(0, 4, 'Y'), "0000");
    assert_eq!(range(4, 4, 'Y'), "YYYY");
    assert_eq!(range(11, 11, 'Y'), "YYYYYYYYYYY");
}

#[test]
fn quarter_lamps_are_red() {
    let out = Clock::from(Instant::new(0, 59, 0)).render();
    let lines: Vec<&str> = out.split('\n').collect();
    assert_eq!(lines[3], "YYRYYRYYRYY");

    let out = Clock::from(Instant::new(0, 15, 0)).render();
    let lines: Vec<&str> = out.split('\n').collect();
    assert_eq!(lines[3], "YYR00000000");
}
