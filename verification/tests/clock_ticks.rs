use disco_bird::clock::{Clock, MICROS_PER_MS};
use disco_bird::units::MAX_FRAME_MS;

#[test]
fn clock_starts_empty() {
    let clock = Clock::new();
    assert_eq!(clock, Clock { carry: 0 });
    assert!(clock.is_wf());
    assert_eq!(MICROS_PER_MS, 1_000);
}

#[test]
fn clock_gives_whole_milliseconds_and_carries_the_rest() {
    let mut clock = Clock::new();
    assert_eq!(clock.tick(16_667), 16);
    assert_eq!(clock.carry, 667);
    assert_eq!(clock.tick(16_667), 17);
    assert_eq!(clock.carry, 334);
    assert_eq!(clock.tick(16_667), 17);
    assert_eq!(clock.carry, 1);
    assert_eq!(clock.tick(0), 0);
    assert_eq!(clock.carry, 1);
    assert_eq!(clock.tick(998), 0);
    assert_eq!(clock.carry, 999);
    assert_eq!(clock.tick(1), 1);
    assert_eq!(clock.carry, 0);
}

#[test]
fn clock_loses_no_time_over_many_frames() {
    let mut clock = Clock::new();
    let mut given: u64 = 0;
    let mut taken: u64 = 0;
    for frame in 0..10_000u64 {
        let micros = (frame * 7_919) % 40_000;
        given += micros;
        taken += u64::from(clock.tick(micros));
        assert!(clock.is_wf());
        assert_eq!(taken * 1_000 + clock.carry, given);
    }
}

#[test]
fn clock_cuts_a_long_frame() {
    let mut clock = Clock { carry: 999 };
    assert_eq!(clock.tick(999_000), 999);
    assert_eq!(clock.carry, 999);
    assert_eq!(clock.tick(1), 1);
    assert_eq!(clock.carry, 0);

    let mut clock = Clock { carry: 999 };
    assert_eq!(clock.tick(999_001), MAX_FRAME_MS);
    assert_eq!(clock.carry, 0);

    let mut clock = Clock { carry: 5 };
    assert_eq!(clock.tick(1_000_000), 1_000);
    assert_eq!(clock.carry, 0);

    let mut clock = Clock { carry: 999 };
    assert_eq!(clock.tick(u64::MAX), 1_000);
    assert_eq!(clock.carry, 0);

    let mut clock = Clock { carry: 0 };
    assert_eq!(clock.tick(999_999), 999);
    assert_eq!(clock.carry, 999);
}

#[test]
fn clock_rejects_a_full_millisecond_of_carry() {
    assert!(Clock { carry: 999 }.is_wf());
    assert!(!Clock { carry: 1_000 }.is_wf());
}
