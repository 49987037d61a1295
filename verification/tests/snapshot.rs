use cattle_herd::snapshot::{
    snapshot_initial, snapshot_update, total_disk_bytes, InitialSample, ProcessSample,
    SnapshotError, UpdateSample,
};

fn proc(cpu_centi: u64, name: &[u8], owner: Option<&[u8]>) -> ProcessSample {
    ProcessSample {
        cpu_centi,
        name: name.to_vec(),
        owner: owner.map(|o| o.to_vec()),
    }
}

fn sample(cpu_total_centi: u64, processes: Vec<ProcessSample>) -> UpdateSample {
    UpdateSample {
        cpu_total_centi,
        available_memory_bytes: 1111,
        available_disk_bytes: 2222,
        processes,
    }
}

#[test]
fn cpu_utilization_is_clamped() {
    let s = sample(25000, vec![proc(100, b"idle", Some(b"root"))]);
    let u = snapshot_update(Some(&s)).expect("sample present");
    assert_eq!(u.cpu_utilization, 10000);
}

#[test]
fn cpu_utilization_in_range_passes_through() {
    let s = sample(4321, vec![proc(100, b"idle", Some(b"root"))]);
    let u = snapshot_update(Some(&s)).expect("sample present");
    assert_eq!(u.cpu_utilization, 4321);
    assert!(u.cpu_utilization <= 10000);
    assert_eq!(u.available_memory_bytes, 1111);
    assert_eq!(u.available_disk_bytes, 2222);
    assert_eq!(u.running_processes, 1);
}

#[test]
fn tie_breaks_to_first_in_table_order() {
    let procs = vec![
        proc(100, b"early", Some(b"alice")),
        proc(5000, b"first-max", Some(b"bob")),
        proc(5000, b"second-max", Some(b"carol")),
    ];
    let s = sample(600, procs);
    // Reproducible across repeated calls on the unchanged table.
    for _ in 0..3 {
        let u = snapshot_update(Some(&s)).expect("sample present");
        assert_eq!(u.most_intense_process_name, b"first-max".to_vec());
        assert_eq!(u.most_intense_process_owner, b"bob".to_vec());
    }
}

#[test]
fn strictly_larger_later_process_wins() {
    let procs = vec![proc(100, b"small", None), proc(200, b"big", Some(b"dan"))];
    let s = sample(300, procs);
    let u = snapshot_update(Some(&s)).expect("sample present");
    assert_eq!(u.most_intense_process_name, b"big".to_vec());
}

#[test]
fn unresolved_owner_falls_back_to_unknown() {
    let s = sample(100, vec![proc(900, b"ghost", None)]);
    let u = snapshot_update(Some(&s)).expect("sample present");
    assert_eq!(u.most_intense_process_name, b"ghost".to_vec());
    assert_eq!(u.most_intense_process_owner, b"unknown".to_vec());
}

#[test]
fn empty_process_table() {
    let s = sample(100, Vec::new());
    let u = snapshot_update(Some(&s)).expect("sample present");
    assert_eq!(u.running_processes, 0);
    assert_eq!(u.most_intense_process_name, Vec::<u8>::new());
    assert_eq!(u.most_intense_process_owner, b"unknown".to_vec());
}

#[test]
fn missing_sample_is_unavailable() {
    match snapshot_update(None) {
        Err(SnapshotError::SnapshotUnavailable) => {}
        _ => panic!("no sample must be SnapshotUnavailable"),
    }
    match snapshot_initial(None, &vec![0u8; 16]) {
        Err(SnapshotError::SnapshotUnavailable) => {}
        _ => panic!("no sample must be SnapshotUnavailable"),
    }
}

#[test]
fn disk_capacities_are_summed() {
    assert_eq!(total_disk_bytes(&vec![1, 2, 3]), 6);
    assert_eq!(total_disk_bytes(&Vec::new()), 0);
}

#[test]
fn disk_sum_saturates() {
    assert_eq!(total_disk_bytes(&vec![u64::MAX, 5]), u64::MAX);
    assert_eq!(total_disk_bytes(&vec![u64::MAX - 1, 1]), u64::MAX);
}

#[test]
fn initial_report_carries_the_sample_and_id() {
    let s = InitialSample {
        name: b"barnyard".to_vec(),
        os_name: b"Linux".to_vec(),
        os_version: b"6.1".to_vec(),
        os_version_long: b"Linux 6.1.0 LTS".to_vec(),
        ram_bytes: 4096,
        disk_totals: vec![1000, 2000, 3000],
        cpu_count: 8,
        cpu_brand: b"ACME Cores Inc".to_vec(),
        cpu_name: b"acme-8000".to_vec(),
        uptime_seconds: 77,
    };
    let id: Vec<u8> = (100u8..116).collect();
    let i = snapshot_initial(Some(s), &id).expect("sample present");
    assert_eq!(i.name, b"barnyard".to_vec());
    assert_eq!(i.id, id);
    assert_eq!(i.os_name, b"Linux".to_vec());
    assert_eq!(i.os_version, b"6.1".to_vec());
    assert_eq!(i.os_version_long, b"Linux 6.1.0 LTS".to_vec());
    assert_eq!(i.ram_bytes, 4096);
    assert_eq!(i.disk_bytes, 6000);
    assert_eq!(i.cpu_count, 8);
    assert_eq!(i.cpu_brand, b"ACME Cores Inc".to_vec());
    assert_eq!(i.cpu_name, b"acme-8000".to_vec());
    assert_eq!(i.uptime_seconds, 77);
}
