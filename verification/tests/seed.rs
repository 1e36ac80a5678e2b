use raytracer::frame::Timer;
use raytracer::gpu::raytracer::compute_pipeline::{
    random_seed, seed_from_millis, seed_from_reading, SEED_MODULUS,
};

#[test]
fn small_readings_are_their_own_seed() {
    assert_eq!(seed_from_millis(0), 0);
    assert_eq!(seed_from_millis(1), 1);
    assert_eq!(seed_from_millis(1_700_000_000), 1_700_000_000);
    assert_eq!(seed_from_millis(0xFFFF_FFFE), 0xFFFF_FFFE);
}

#[test]
fn readings_wrap_at_the_modulus() {
    assert_eq!(SEED_MODULUS, u32::MAX as u128);
    assert_eq!(seed_from_millis(0xFFFF_FFFF), 0);
    assert_eq!(seed_from_millis(0x1_0000_0000), 1);
    assert_eq!(seed_from_millis(1_700_000_000_000), (1_700_000_000_000u128 % 4_294_967_295) as u32);
    assert_eq!(seed_from_millis(1_700_000_000_000), 3_487_918_475);
    assert_eq!(seed_from_millis(u128::MAX), (u128::MAX % 0xFFFF_FFFF) as u32);
}

#[test]
fn a_seed_never_reaches_the_modulus() {
    for millis in [0u128, 0xFFFF_FFFE, 0xFFFF_FFFF, 0x1_FFFF_FFFD, 0x1_FFFF_FFFE, u128::MAX] {
        assert!((seed_from_millis(millis) as u128) < SEED_MODULUS);
    }
}

#[test]
fn a_reading_gives_its_seed_and_no_reading_none() {
    assert_eq!(seed_from_reading(None), None);
    assert_eq!(seed_from_reading(Some(0)), Some(0));
    assert_eq!(seed_from_reading(Some(0xFFFF_FFFF)), Some(0));
    assert_eq!(seed_from_reading(Some(1_700_000_000_000)), Some(3_487_918_475));
    assert_eq!(seed_from_reading(Some(u128::MAX)), Some((u128::MAX % 0xFFFF_FFFF) as u32));
}

#[test]
fn the_wall_clock_gives_a_seed() {
    let seed = random_seed();
    assert!(seed.is_some());
    assert!((seed.unwrap() as u128) < SEED_MODULUS);
}

#[test]
fn the_seed_follows_the_wall_clock() {
    let before = std::time::SystemTime::now()
        .duration_since(std::time::UNIX_EPOCH)
        .unwrap()
        .as_millis();
    let seed = random_seed().unwrap();
    let after = std::time::SystemTime::now()
        .duration_since(std::time::UNIX_EPOCH)
        .unwrap()
        .as_millis();
    let mut found = false;
    let mut millis = before;
    while millis <= after {
        if seed_from_millis(millis) == seed {
            found = true;
        }
        millis += 1;
    }
    assert!(found);
}

#[test]
fn a_new_timer_is_at_the_start_of_its_first_lap() {
    let before = std::time::Instant::now();
    let timer = Timer::new();
    let after = std::time::Instant::now();
    assert_eq!(timer.last_render_time, 0);
    assert!(timer.started >= before);
    assert!(timer.started <= after);
}

#[test]
fn a_lap_runs_from_the_last_reading() {
    let mut timer = Timer::new();
    let started = timer.started;
    assert_eq!(timer.advance(1_500), 1_500);
    assert_eq!(timer.last_render_time, 1_500);
    assert_eq!(timer.advance(4_000), 2_500);
    assert_eq!(timer.last_render_time, 4_000);
    assert_eq!(timer.advance(4_000), 0);
    assert_eq!(timer.last_render_time, 4_000);
    assert_eq!(timer.advance(u128::MAX), u128::MAX - 4_000);
    assert_eq!(timer.last_render_time, u128::MAX);
    assert!(timer.started == started);
}

#[test]
fn a_reading_before_the_last_lap_moves_nothing() {
    let mut timer = Timer::new();
    assert_eq!(timer.advance(16_000_000), 16_000_000);
    assert_eq!(timer.advance(15_999_999), 0);
    assert_eq!(timer.advance(0), 0);
    assert_eq!(timer.last_render_time, 16_000_000);
    assert_eq!(timer.advance(16_000_001), 1);
    assert_eq!(timer.last_render_time, 16_000_001);
}

#[test]
fn a_lap_measures_the_time_since_the_last() {
    let mut timer = Timer::new();
    let started = timer.started;
    while started.elapsed() < std::time::Duration::from_millis(20) {}
    let first = timer.lap();
    let after_first = started.elapsed().as_nanos();
    assert!(first >= 20_000_000);
    assert!(first <= after_first);
    assert_eq!(timer.last_render_time, first);
    let mark = std::time::Instant::now();
    while mark.elapsed() < std::time::Duration::from_millis(5) {}
    let second = timer.lap();
    let after_second = started.elapsed().as_nanos();
    assert!(second >= 5_000_000);
    assert_eq!(timer.last_render_time, first + second);
    assert!(first + second <= after_second);
    assert!(first + second >= after_first);
    assert!(timer.started == started);
}
