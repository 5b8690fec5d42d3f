use tcp_tester::generator::{interval_micros, RateGenerator, MICROS_PER_SECOND};

#[test]
fn interval_is_a_rate_th_of_a_second() {
    assert_eq!(interval_micros(10), 100_000);
    assert_eq!(interval_micros(1), MICROS_PER_SECOND);
    assert_eq!(interval_micros(1_000_000), 1);
    // Rates that do not divide one second round down.
    assert_eq!(interval_micros(3), 333_333);
}

#[test]
fn rate_times_duration_ticks_give_that_many_spawns_and_milestones() {
    // Rate 10 for 2 simulated seconds: 20 spawns, 2 milestones.
    let mut g = RateGenerator::new(10);
    let mut milestones = 0;
    for _ in 0..20 {
        if g.tick() {
            milestones += 1;
        }
    }
    assert_eq!(g.total_spawned(), 20);
    assert_eq!(milestones, 2);
    assert_eq!(g.milestones(), 2);
}

#[test]
fn milestone_fires_exactly_each_rate_spawns() {
    let mut g = RateGenerator::new(3);
    assert!(!g.tick());
    assert!(!g.tick());
    assert!(g.tick());
    assert!(!g.tick());
    assert!(!g.tick());
    assert!(g.tick());
    assert_eq!(g.milestones(), 2);
}

#[test]
fn rate_one_reports_every_tick() {
    let mut g = RateGenerator::new(1);
    assert!(g.tick());
    assert!(g.tick());
    assert_eq!(g.milestones(), 2);
}

#[test]
fn a_failed_lifecycle_does_not_stop_the_cadence() {
    let mut g = RateGenerator::new(2);
    assert!(!g.tick());
    // The spawned lifecycle fails; the generator keeps ticking as before.
    g.record_outcome(false);
    assert_eq!(g.failed_lifecycles(), 1);
    assert!(g.tick());
    assert!(!g.tick());
    assert_eq!(g.total_spawned(), 3);
    assert_eq!(g.milestones(), 1);
}

#[test]
fn successes_are_not_counted_as_failures() {
    let mut g = RateGenerator::new(2);
    g.tick();
    g.record_outcome(true);
    assert_eq!(g.failed_lifecycles(), 0);
}
