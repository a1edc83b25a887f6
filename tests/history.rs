use rtop::error::RtopError;
use rtop::history::MetricHistory;

#[test]
fn history_evicts_oldest() {
    let mut h = MetricHistory::new(5, 0).unwrap();
    for v in 1..=6 {
        h.push(v);
    }
    assert_eq!(h.snapshot(), vec![2, 3, 4, 5, 6]);
}

#[test]
fn history_keeps_fill_before_pushes() {
    let mut h = MetricHistory::new(4, 0).unwrap();
    h.push(7);
    h.push(8);
    assert_eq!(h.snapshot(), vec![0, 0, 7, 8]);
}

#[test]
fn history_length_is_fixed() {
    let mut h = MetricHistory::new(3, 9).unwrap();
    for n in 0..20 {
        assert_eq!(h.snapshot().len(), 3);
        assert_eq!(h.capacity(), 3);
        h.push(n);
    }
    assert_eq!(h.snapshot(), vec![17, 18, 19]);
}

#[test]
fn history_of_one_sample() {
    let mut h = MetricHistory::new(1, 5).unwrap();
    assert_eq!(h.snapshot(), vec![5]);
    h.push(6);
    assert_eq!(h.snapshot(), vec![6]);
}

#[test]
fn history_zero_capacity_is_an_error() {
    assert!(matches!(MetricHistory::new(0, 0), Err(RtopError::InvalidInput(_))));
}
