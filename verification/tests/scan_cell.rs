use folder_creator::scan::{ScanCell, ScanStatus};

#[test]
fn a_fresh_cell_is_idle() {
    let mut cell = ScanCell::new();
    assert_eq!(cell.take(), ScanStatus::Idle);
}

#[test]
fn begin_marks_a_scan_in_flight() {
    let mut cell = ScanCell::new();
    cell.begin();
    assert_eq!(cell.take(), ScanStatus::Scanning);
    // an in-flight scan is not consumed by polling
    assert_eq!(cell.take(), ScanStatus::Scanning);
}

#[test]
fn a_found_outcome_is_consumed_exactly_once() {
    let mut cell = ScanCell::new();
    cell.begin();
    cell.complete(Some(b"C:/Youtube".to_vec()));
    assert_eq!(cell.take(), ScanStatus::Found(b"C:/Youtube".to_vec()));
    assert_eq!(cell.take(), ScanStatus::Idle);
}

#[test]
fn a_not_found_outcome_is_consumed_exactly_once() {
    let mut cell = ScanCell::new();
    cell.begin();
    cell.complete(None);
    assert_eq!(cell.take(), ScanStatus::NotFound);
    assert_eq!(cell.take(), ScanStatus::Idle);
}
