use lattice_gas::density_plot::{DensityPopup, TimeSeriesRingBuffer};
use lattice_gas::logger::SimulationLogger;

#[test]
fn ring_buffer_keeps_insertion_order() {
    let mut b = TimeSeriesRingBuffer::with_capacity(3);
    assert_eq!(b.iter_in_order(), Vec::<i64>::new());
    b.push(100);
    b.push(200);
    assert_eq!(b.iter_in_order(), vec![100, 200]);
    b.push(300);
    assert_eq!(b.iter_in_order(), vec![100, 200, 300]);
}

#[test]
fn full_ring_buffer_drops_the_oldest() {
    let mut b = TimeSeriesRingBuffer::with_capacity(3);
    for v in [1i64, 2, 3, 4, 5] {
        b.push(v);
    }
    assert_eq!(b.iter_in_order(), vec![3, 4, 5]);
    assert_eq!(b.len(), 3);
    assert_eq!(b.capacity(), 3);
}

#[test]
fn zero_capacity_ring_buffer_stays_empty() {
    let mut b = TimeSeriesRingBuffer::with_capacity(0);
    b.push(42);
    assert_eq!(b.iter_in_order(), Vec::<i64>::new());
    assert_eq!(b.len(), 0);
}

#[test]
fn popup_starts_closed_with_inverted_extremes() {
    let p = DensityPopup::new(100);
    assert!(!p.is_open());
    assert_eq!(p.y_min_seen(), 1000);
    assert_eq!(p.y_max_seen(), 0);
    assert_eq!(p.sample_count(), 0);
}

#[test]
fn toggle_flips_the_open_flag() {
    let mut p = DensityPopup::new(10);
    p.toggle();
    assert!(p.is_open());
    p.toggle();
    assert!(!p.is_open());
}

#[test]
fn recording_tracks_samples_and_extremes() {
    let mut p = DensityPopup::new(2);
    p.record_density(300);
    assert_eq!(p.samples(), vec![300]);
    assert_eq!(p.y_min_seen(), 300);
    assert_eq!(p.y_max_seen(), 300);
    p.record_density(700);
    assert_eq!(p.samples(), vec![300, 700]);
    assert_eq!(p.y_max_seen(), 700);
    p.record_density(100);
    assert_eq!(p.samples(), vec![700, 100]);
    assert_eq!(p.y_min_seen(), 100);
    assert_eq!(p.y_max_seen(), 700);
}

#[test]
fn logger_keeps_rows_in_order() {
    let mut log = SimulationLogger::new();
    assert!(log.records().is_empty());
    log.record(1, 700, -1000, 512);
    log.record(2, 710, -1000, 498);
    assert_eq!(
        log.records().as_slice(),
        &[(1u64, 700i64, -1000i64, 512i64), (2, 710, -1000, 498)]
    );
}
