use executor::registry::RuntimeRegistry;

fn filled(count: usize) -> RuntimeRegistry<u32> {
    let mut reg: RuntimeRegistry<u32> = RuntimeRegistry::new();
    let start = reg.next_id();
    let built: Vec<Option<u32>> = (0..count).map(|i| Some(i as u32 * 10)).collect();
    reg.add_batch(start, built);
    reg
}

#[test]
fn new_registry_is_empty() {
    let reg: RuntimeRegistry<u32> = RuntimeRegistry::new();
    assert_eq!(reg.len(), 0);
    assert_eq!(reg.next_id(), 0);
    assert!(reg.list().is_empty());
}

#[test]
fn full_batch_creates_every_entry() {
    let mut reg: RuntimeRegistry<u32> = RuntimeRegistry::new();
    let summary = reg.add_batch(0, vec![Some(1), Some(2), Some(3)]);
    assert_eq!(summary.created, 3);
    assert_eq!(summary.total, 3);
    let more = reg.add_batch(reg.next_id(), vec![Some(4), Some(5)]);
    assert_eq!(more.created, 2);
    assert_eq!(more.total, 5);
    assert_eq!(reg.list(), vec![0, 1, 2, 3, 4]);
    assert_eq!(reg.get(4), Some(&5));
}

#[test]
fn empty_batch_creates_nothing() {
    let mut reg = filled(2);
    let summary = reg.add_batch(reg.next_id(), Vec::new());
    assert_eq!(summary.created, 0);
    assert_eq!(summary.total, 2);
}

#[test]
fn failed_constructions_are_skipped() {
    let mut reg: RuntimeRegistry<u32> = RuntimeRegistry::new();
    let summary = reg.add_batch(0, vec![Some(7), None, Some(9)]);
    assert_eq!(summary.created, 2);
    assert_eq!(summary.total, 2);
    assert_eq!(reg.list(), vec![0, 2]);
    assert!(!reg.contains(1));
    assert_eq!(reg.get(2), Some(&9));
}

#[test]
fn all_failed_batch_leaves_registry_empty() {
    let mut reg: RuntimeRegistry<u32> = RuntimeRegistry::new();
    let summary = reg.add_batch(0, vec![None, None]);
    assert_eq!(summary.created, 0);
    assert_eq!(summary.total, 0);
}

#[test]
fn resolve_on_empty_reports_all_missing() {
    let reg: RuntimeRegistry<u32> = RuntimeRegistry::new();
    let r = reg.resolve(&vec![3, 0, 3, 8]);
    assert!(r.found.is_empty());
    assert_eq!(r.missing, vec![3, 0, 3, 8]);
}

#[test]
fn resolve_single_live_id() {
    let reg = filled(3);
    let r = reg.resolve(&vec![1]);
    assert_eq!(r.found, vec![1]);
    assert!(r.missing.is_empty());
}

#[test]
fn resolve_keeps_request_order_and_duplicates() {
    let reg = filled(3);
    let r = reg.resolve(&vec![2, 5, 0, 2]);
    assert_eq!(r.found, vec![2, 0, 2]);
    assert_eq!(r.missing, vec![5]);
}

#[test]
fn deleted_ids_are_not_listed() {
    let mut reg = filled(4);
    let r = reg.remove_ids(&vec![3, 1]);
    assert_eq!(r.removed, vec![3, 1]);
    assert!(r.missing.is_empty());
    let ids = reg.list();
    assert!(!ids.contains(&1));
    assert!(!ids.contains(&3));
    assert_eq!(reg.len(), 2);
}

#[test]
fn deleting_absent_id_reports_missing() {
    let mut reg = filled(2);
    let r = reg.remove_ids(&vec![9]);
    assert!(r.removed.is_empty());
    assert_eq!(r.missing, vec![9]);
    assert_eq!(reg.len(), 2);
}

#[test]
fn deleting_same_id_twice_reports_second_missing() {
    let mut reg = filled(2);
    let r = reg.remove_ids(&vec![1, 1]);
    assert_eq!(r.removed, vec![1]);
    assert_eq!(r.missing, vec![1]);
    assert_eq!(reg.list(), vec![0]);
}

#[test]
fn single_remove_and_insert() {
    let mut reg = filled(2);
    assert!(reg.remove(0));
    assert!(!reg.remove(0));
    assert!(!reg.insert(5, 50));
    assert!(reg.insert(5, 51));
    assert_eq!(reg.get(5), Some(&51));
    assert_eq!(reg.list(), vec![1, 5]);
}

#[test]
fn delete_all_then_list_is_empty() {
    let mut reg = filled(3);
    let removed = reg.clear();
    assert_eq!(removed, vec![0, 1, 2]);
    assert_eq!(reg.len(), 0);
    assert!(reg.list().is_empty());
}

#[test]
fn delete_all_twice_removes_nothing_second_time() {
    let mut reg = filled(2);
    assert_eq!(reg.clear(), vec![0, 1]);
    assert!(reg.clear().is_empty());
    assert_eq!(reg.len(), 0);
}

#[test]
fn create_run_delete_list_scenario() {
    let mut reg: RuntimeRegistry<u32> = RuntimeRegistry::new();
    let start = reg.next_id();
    let summary = reg.add_batch(start, vec![Some(0), Some(1), Some(2)]);
    assert_eq!(summary.created, 3);
    assert_eq!(summary.total, 3);

    let run = reg.resolve(&vec![0, 1, 2]);
    assert_eq!(run.found.len(), 3);
    assert_eq!(run.missing.len(), 0);

    let del = reg.remove_ids(&vec![1]);
    assert_eq!(del.removed, vec![1]);
    assert!(del.missing.is_empty());
    assert_eq!(reg.len(), 2);

    let mut ids = reg.list();
    ids.sort();
    assert_eq!(ids, vec![0, 2]);

    let mut removed = reg.clear();
    removed.sort();
    assert_eq!(removed, vec![0, 2]);
    assert_eq!(reg.len(), 0);
}

#[test]
fn batch_after_deletion_reuses_live_id() {
    // Ids start at the number of entries, so after a deletion the next batch
    // starts on an id that is still live and replaces its entry.
    let mut reg = filled(3);
    reg.remove_ids(&vec![0]);
    let start = reg.next_id();
    assert_eq!(start, 2);
    let summary = reg.add_batch(start, vec![Some(99)]);
    assert_eq!(summary.created, 1);
    assert_eq!(summary.total, 2);
    assert_eq!(reg.get(2), Some(&99));
    assert_eq!(reg.list(), vec![1, 2]);
}
