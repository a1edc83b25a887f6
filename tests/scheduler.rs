use rtop::config::RefreshRates;
use rtop::scheduler::{Category, Scheduler, DISK_CATEGORY, FAST_CATEGORY, PROCESS_CATEGORY};

#[test]
fn scheduler_does_not_catch_up() {
    let mut s = Scheduler::new();
    let c = s.add_category(1000, 0);
    let mut fires = 0;
    for t in [0u64, 900, 1100, 2200] {
        let fired = s.tick(t);
        if fired.contains(&c) {
            fires += 1;
            assert_eq!(s.categories[c].last_fired_ms, t);
        }
    }
    assert_eq!(fires, 2);
    assert_eq!(s.categories[c].last_fired_ms, 2200);
}

#[test]
fn scheduler_fires_in_fixed_order() {
    let rates = RefreshRates::default();
    let mut s = Scheduler::for_refresh_rates(&rates, 0);
    assert_eq!(s.tick(1000), vec![FAST_CATEGORY]);
    assert_eq!(s.tick(2000), vec![FAST_CATEGORY, DISK_CATEGORY, PROCESS_CATEGORY]);
    assert_eq!(s.tick(2500), Vec::<usize>::new());
}

#[test]
fn scheduler_pause_keeps_times() {
    let mut s = Scheduler::new();
    s.add_category(100, 0);
    s.set_paused(true);
    assert!(s.is_paused());
    assert!(s.tick(500).is_empty());
    assert_eq!(s.categories[0], Category { cadence_ms: 100, last_fired_ms: 0 });
    s.set_paused(false);
    assert_eq!(s.tick(550), vec![0]);
    assert_eq!(s.categories[0].last_fired_ms, 550);
}

#[test]
fn scheduler_clock_behind_is_not_due() {
    let mut s = Scheduler::new();
    s.add_category(10, 100);
    assert!(!s.is_due(0, 50));
    assert!(s.is_due(0, 110));
}
