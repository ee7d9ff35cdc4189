use sniff_core::broadcast::{expand_rg_to_n, rg_window};
use sniff_core::memory::{MemoryRow, MemoryState};

#[test]
fn rg_window_is_a_power_of_two() {
    assert_eq!(rg_window(0), 1);
    assert_eq!(rg_window(1), 2);
    assert_eq!(rg_window(5), 32);
}

#[test]
fn expand_repeats_and_pads() {
    let coarse: Vec<f64> = vec![0.1];
    let full = expand_rg_to_n(&coarse, 4, 1, 0.0);
    assert_eq!(full, vec![0.1, 0.1, 0.0, 0.0]);
}

#[test]
fn expand_empty_coarse_is_all_fill() {
    let coarse: Vec<f64> = vec![];
    let full = expand_rg_to_n(&coarse, 3, 1, 0.0);
    assert_eq!(full, vec![0.0, 0.0, 0.0]);
}

#[test]
fn expand_truncates_to_n() {
    let coarse: Vec<f64> = vec![1.0, 2.0, 3.0];
    let full = expand_rg_to_n(&coarse, 3, 1, 0.0);
    assert_eq!(full, vec![1.0, 1.0, 2.0]);
}

#[test]
fn expand_level_zero_keeps_values() {
    let coarse: Vec<f64> = vec![1.0, 2.0];
    let full = expand_rg_to_n(&coarse, 4, 0, 0.0);
    assert_eq!(full, vec![1.0, 2.0, 0.0, 0.0]);
}

#[test]
fn window_evicts_oldest_beyond_capacity() {
    // Pushing capacity + 5 rows leaves exactly capacity rows, and the
    // ignition rate reflects the retained rows only: the 5 ignited rows
    // pushed first are all evicted.
    let capacity = 64;
    let mut mem: MemoryState<f64> = MemoryState::new(capacity);
    for t in 0..(capacity as u64 + 5) {
        mem.push(MemoryRow {
            t,
            ignited: t < 5,
            stats: t as f64,
        });
    }
    assert_eq!(mem.mem_window_len(), capacity);
    assert_eq!(mem.mem_ignite_count(), 0);
    let ignite_rate = mem.mem_ignite_count() as f64 / mem.mem_window_len().max(1) as f64;
    assert_eq!(ignite_rate, 0.0);
    // The retained rows are the newest ones, in push order.
    assert_eq!(mem.rows[0].t, 5);
    assert_eq!(mem.rows[capacity - 1].t, capacity as u64 + 4);
    assert_eq!(mem.rows[0].stats, 5.0);
}

#[test]
fn window_counts_retained_ignitions() {
    let mut mem: MemoryState<f64> = MemoryState::new(3);
    for t in 0..5u64 {
        // Rows 1 and 3 ignite; only rows 2, 3, 4 are retained.
        mem.push(MemoryRow {
            t,
            ignited: t % 2 == 1,
            stats: 0.0,
        });
    }
    assert_eq!(mem.mem_window_len(), 3);
    assert_eq!(mem.mem_ignite_count(), 1);
}

#[test]
fn window_under_capacity_keeps_everything() {
    let mut mem: MemoryState<f64> = MemoryState::new(8);
    mem.push(MemoryRow {
        t: 0,
        ignited: true,
        stats: 0.25,
    });
    mem.push(MemoryRow {
        t: 1,
        ignited: false,
        stats: 0.75,
    });
    assert_eq!(mem.mem_window_len(), 2);
    assert_eq!(mem.mem_ignite_count(), 1);
    assert_eq!(mem.rows[1].stats, 0.75);
}

#[test]
fn window_capacity_zero_retains_nothing() {
    let mut mem: MemoryState<f64> = MemoryState::new(0);
    mem.push(MemoryRow {
        t: 0,
        ignited: true,
        stats: 1.0,
    });
    assert_eq!(mem.mem_window_len(), 0);
    assert_eq!(mem.mem_ignite_count(), 0);
}
