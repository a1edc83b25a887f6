use rtop::battery::BatteryMonitor;
use rtop::graph::ratio_sample;
use rtop::network::NetworkTraffic;

#[test]
fn network_rates_from_counters() {
    let mut n = NetworkTraffic::new(1000, 500);
    n.update(1600, 500);
    n.update(1500, 900);
    let (rx, tx, rx_now, tx_now, total_rx, total_tx) = n.get_network_data();
    assert_eq!(rx.len(), 61);
    assert_eq!(&rx[59..], &[600, 0]);
    assert_eq!(&tx[59..], &[0, 400]);
    assert_eq!((rx_now, tx_now, total_rx, total_tx), (0, 400, 1500, 900));
}

#[test]
fn battery_refresh_is_throttled() {
    let mut b = BatteryMonitor::new(false, 0);
    b.update(1000, true);
    assert!(!b.has_battery());
    b.update(2000, true);
    assert!(b.has_battery());
    b.update(5000, false);
    assert!(b.has_battery());
    assert_eq!(b.last_update_ms, 5000);
}

#[test]
fn ratio_samples() {
    assert_eq!(ratio_sample(1, 2), 50_000);
    assert_eq!(ratio_sample(0, 0), 0);
    assert_eq!(ratio_sample(3, 1), 300_000);
    assert_eq!(ratio_sample(u64::MAX, 1), i64::MAX);
}
