use threaded_number_generator_rs::threading::{
    extract_logical_cores, get_logical_cores, threaded_mpsc, worker_batch,
};

fn flat_count(batches: &Vec<Vec<u64>>) -> usize {
    let mut n: usize = 0;
    for batch in batches {
        n += batch.len();
    }
    n
}

#[test]
fn one_worker_eight_values() {
    let r = threaded_mpsc(1, 8);
    assert_eq!(r.len(), 1);
    assert_eq!(r[0].len(), 8);
    assert_eq!(flat_count(&r), 8);
}

#[test]
fn four_workers_eight_values() {
    let r = threaded_mpsc(4, 8);
    assert_eq!(r.len(), 4);
    for batch in &r {
        assert_eq!(batch.len(), 2);
    }
    assert_eq!(flat_count(&r), 8);
}

#[test]
fn three_workers_drop_remainder() {
    let r = threaded_mpsc(3, 8);
    assert_eq!(r.len(), 3);
    for batch in &r {
        assert_eq!(batch.len(), 2);
    }
    assert_eq!(flat_count(&r), 6);
}

#[test]
fn zero_workers_sequential_five() {
    let r = threaded_mpsc(0, 5);
    assert_eq!(r.len(), 1);
    assert_eq!(r[0].len(), 5);
    assert_eq!(flat_count(&r), 5);
}

#[test]
fn five_workers_zero_values() {
    let r = threaded_mpsc(5, 0);
    assert_eq!(r.len(), 5);
    for batch in &r {
        assert_eq!(batch.len(), 0);
    }
    assert_eq!(flat_count(&r), 0);
}

#[test]
fn structure_stable_across_calls() {
    let a = threaded_mpsc(3, 10);
    let b = threaded_mpsc(3, 10);
    assert_eq!(a.len(), b.len());
    for i in 0..a.len() {
        assert_eq!(a[i].len(), b[i].len());
    }
    assert_eq!(flat_count(&a), flat_count(&b));
}

#[test]
fn every_worker_contributes_the_job_size() {
    let threads: usize = 4;
    let total_size: usize = 22;
    let r = threaded_mpsc(threads, total_size);
    assert_eq!(r.len(), threads);
    for batch in &r {
        assert_eq!(batch.len(), total_size / threads);
    }
}

#[test]
fn worker_batch_exact_length() {
    assert_eq!(worker_batch(7).len(), 7);
    assert_eq!(worker_batch(0).len(), 0);
}

#[test]
fn core_count_positive_and_stable() {
    let first = get_logical_cores();
    assert!(first > 0);
    for _ in 0..10 {
        assert_eq!(get_logical_cores(), first);
    }
}

#[test]
fn core_count_field_extraction() {
    assert_eq!(extract_logical_cores(0x00AB0000), 0xAB);
    assert_eq!(extract_logical_cores(0x00010000), 1);
    assert_eq!(extract_logical_cores(0), 0);
    assert_eq!(extract_logical_cores(0xFFFFFFFF), 0xFF);
    assert_eq!(extract_logical_cores(0xFF00FFFF), 0);
}
