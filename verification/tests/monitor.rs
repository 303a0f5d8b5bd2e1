use remote_dictionary::cache::Cache;
use remote_dictionary::monitor::run_eviction_cycle;
use remote_dictionary::monitor::EvictionCycle;
use remote_dictionary::monitor::eviction_threshold;
use remote_dictionary::monitor::memory_pressure;
use remote_dictionary::monitor::reached_low_water;

fn filled_store(n: usize) -> Cache {
    let mut c = Cache::new(256, 256);
    for i in 0..n {
        c.put(format!("key{}", i), format!("value{}", i)).unwrap();
    }
    c
}

#[test]
fn cycle_empties_ten_entries_in_batches_of_five_and_ten() {
    // Ten entries, pressure persisting: the first round removes 5, the
    // second removes the remaining 5 (a batch of 10 capped by what is
    // left), the third finds the store empty and stops.
    let mut c = filled_store(10);
    let samples = vec![60, 60, 60, 60];
    let removed = run_eviction_cycle(&mut c, &samples, 100);
    assert_eq!(removed, 10);
    assert_eq!(c.len(), 0);
}

#[test]
fn cycle_stops_at_low_water_target() {
    // Twenty entries; memory drops below the target (half the threshold)
    // only at the third sample: batches of 5 and 10 run, then the cycle
    // stops with five entries still in the store.
    let mut c = filled_store(20);
    let samples = vec![60, 60, 40, 60];
    let removed = run_eviction_cycle(&mut c, &samples, 100);
    assert_eq!(removed, 15);
    assert_eq!(c.len(), 5);
}

#[test]
fn cycle_never_removes_more_than_the_store_held() {
    let mut c = filled_store(3);
    let samples = vec![90, 90, 90, 90, 90];
    let removed = run_eviction_cycle(&mut c, &samples, 100);
    assert_eq!(removed, 3);
    assert_eq!(c.len(), 0);
}

#[test]
fn cycle_with_no_pressure_removes_nothing() {
    let mut c = filled_store(4);
    let samples = vec![50, 50];
    let removed = run_eviction_cycle(&mut c, &samples, 100);
    assert_eq!(removed, 0);
    assert_eq!(c.len(), 4);
}

#[test]
fn cycle_removes_from_the_least_recently_used_end() {
    let mut c = filled_store(10);
    // Refresh the oldest key so it survives a one-batch cycle.
    c.get("key0").unwrap();
    let samples = vec![60, 40];
    let removed = run_eviction_cycle(&mut c, &samples, 100);
    assert_eq!(removed, 5);
    assert!(c.get("key0").is_ok());
    assert!(c.get("key1").is_err());
    assert!(c.get("key5").is_err());
    assert!(c.get("key6").is_ok());
}

#[test]
fn threshold_is_seventy_percent_of_total() {
    assert_eq!(eviction_threshold(1000), 700);
    assert_eq!(eviction_threshold(0), 0);
    assert_eq!(eviction_threshold(101), 70);
}

#[test]
fn pressure_begins_strictly_above_the_watermark() {
    assert!(!memory_pressure(700, 1000));
    assert!(memory_pressure(701, 1000));
}

#[test]
fn low_water_target_is_half_the_threshold() {
    assert!(reached_low_water(350, 700));
    assert!(!reached_low_water(351, 700));
}

#[test]
fn batch_size_doubles_up_to_the_cap() {
    let mut cycle = EvictionCycle::begin();
    let mut sizes = Vec::new();
    for _ in 0..10 {
        sizes.push(cycle.current_batch());
        cycle.grow();
    }
    assert_eq!(sizes, vec![5, 10, 20, 40, 80, 160, 320, 640, 1000, 1000]);
}

#[test]
fn cycle_with_no_samples_removes_nothing() {
    let mut c = filled_store(2);
    let samples: Vec<u64> = Vec::new();
    let removed = run_eviction_cycle(&mut c, &samples, 100);
    assert_eq!(removed, 0);
    assert_eq!(c.len(), 2);
}
