use folder_creator::scan::ScanStatus;
use folder_creator::workflow::{MyApp, ProjectAction, Status};
use folder_creator::builder::CreateError;

fn ready_app() -> MyApp {
    let mut app = MyApp::default();
    app.search_folder_name = b"Youtube".to_vec();
    app.folder_name = b"trip".to_vec();
    app
}

#[test]
fn a_fresh_workflow_is_blank_and_idle() {
    let app = MyApp::default();
    assert_eq!(app.status, Status::Blank);
    assert!(app.project_path.is_none());
    assert!(app.new_folder_path.is_none());
    assert!(!app.is_scanning);
    assert!(!app.pending_create);
}

#[test]
fn an_empty_search_name_is_rejected_locally() {
    let mut app = MyApp::default();
    app.search_folder_name = b"  \t".to_vec();
    let a = app.start_scan();
    assert!(a.is_none());
    assert_eq!(app.status, Status::EmptySearchName);
    assert!(!app.is_scanning);
}

#[test]
fn starting_a_scan_hands_out_the_target_name() {
    let mut app = ready_app();
    let a = app.start_scan();
    assert_eq!(a, Some(b"Youtube".to_vec()));
    assert!(app.is_scanning);
    assert_eq!(app.status, Status::Searching);
}

#[test]
fn an_empty_project_name_is_rejected_locally() {
    let mut app = ready_app();
    app.folder_name = b"   ".to_vec();
    let a = app.create_project();
    assert!(a.is_none());
    assert_eq!(app.status, Status::EmptyProjectName);
    assert!(!app.pending_create);
    assert!(!app.is_scanning);
}

#[test]
fn create_with_a_resolved_base_builds_at_once() {
    let mut app = ready_app();
    app.project_path = Some(b"D:/Youtube".to_vec());
    let a = app.create_project();
    match a {
        Some(ProjectAction::Build(req)) => {
            assert!(req.target.starts_with(b"D:/Youtube/"));
            assert!(req.target.ends_with(b"_trip"));
            assert_eq!(req.subdirs.len(), 4);
        },
        other => panic!("expected an immediate build request, got {:?}", other),
    }
    // the state is untouched until the shell reports the outcome
    assert_eq!(app.status, Status::Blank);
    assert!(!app.pending_create);
}

#[test]
fn create_before_any_base_queues_behind_a_scan() {
    // asking to create first sets the pending flag and starts the scan ...
    let mut app = ready_app();
    let a = app.create_project();
    match a {
        Some(ProjectAction::StartScan(t)) => assert_eq!(t, b"Youtube".to_vec()),
        other => panic!("expected a scan to start, got {:?}", other),
    }
    assert!(app.pending_create);
    assert!(app.is_scanning);
    assert_eq!(app.status, Status::Searching);

    // ... and a found base performs the creation with no second user action
    let r = app.handle_scan_result(ScanStatus::Found(b"D:/Youtube".to_vec()));
    let req = r.expect("the queued creation must run as soon as the base is found");
    assert!(req.target.starts_with(b"D:/Youtube/"));
    assert!(req.target.ends_with(b"_trip"));
    assert_eq!(app.project_path, Some(b"D:/Youtube".to_vec()));
    assert!(!app.is_scanning);

    // recording the outcome clears the queued creation
    app.record_build_result(Ok(req.target.clone()));
    assert!(!app.pending_create);
    assert_eq!(app.status, Status::Created);
    assert_eq!(app.new_folder_path, Some(req.target));
}

#[test]
fn create_before_any_base_is_dropped_when_nothing_is_found() {
    let mut app = ready_app();
    let a = app.create_project();
    assert!(matches!(a, Some(ProjectAction::StartScan(_))));
    assert!(app.pending_create);

    let r = app.handle_scan_result(ScanStatus::NotFound);
    assert!(r.is_none(), "nothing may be created without a base");
    assert!(!app.pending_create);
    assert!(!app.is_scanning);
    assert!(app.project_path.is_none());
    assert_eq!(app.status, Status::BaseNotFound);
}

#[test]
fn create_with_empty_search_name_and_no_base_is_rejected() {
    let mut app = MyApp::default();
    app.folder_name = b"trip".to_vec();
    let a = app.create_project();
    assert!(a.is_none());
    assert_eq!(app.status, Status::EmptySearchName);
    assert!(!app.pending_create);
    assert!(!app.is_scanning);
}

#[test]
fn a_found_base_without_a_queued_creation_just_resolves() {
    let mut app = ready_app();
    app.start_scan();
    let r = app.handle_scan_result(ScanStatus::Found(b"C:/Youtube".to_vec()));
    assert!(r.is_none());
    assert_eq!(app.project_path, Some(b"C:/Youtube".to_vec()));
    assert_eq!(app.status, Status::BaseFound);
    assert!(!app.is_scanning);
}

#[test]
fn idle_and_scanning_polls_change_nothing() {
    let mut app = ready_app();
    app.start_scan();
    assert!(app.handle_scan_result(ScanStatus::Idle).is_none());
    assert!(app.handle_scan_result(ScanStatus::Scanning).is_none());
    assert!(app.is_scanning);
    assert_eq!(app.status, Status::Searching);
}

#[test]
fn a_failed_build_surfaces_its_error() {
    let mut app = ready_app();
    app.project_path = Some(b"D:/Youtube".to_vec());
    app.record_build_result(Err(CreateError::AlreadyExists));
    assert_eq!(app.status, Status::CreateFailed(CreateError::AlreadyExists));
    assert!(app.new_folder_path.is_none());

    app.record_build_result(Err(CreateError::Io(b"disk full".to_vec())));
    assert_eq!(app.status, Status::CreateFailed(CreateError::Io(b"disk full".to_vec())));
}

#[test]
fn reset_returns_to_the_base_search_step() {
    let mut app = ready_app();
    app.project_path = Some(b"D:/Youtube".to_vec());
    app.new_folder_path = Some(b"D:/Youtube/2024-03-07_trip".to_vec());
    app.reset();
    assert!(app.project_path.is_none());
    assert!(app.new_folder_path.is_none());
    assert!(!app.pending_create);
    assert!(!app.is_scanning);
    assert_eq!(app.status, Status::ResetDone);
    // the entered names survive a reset
    assert_eq!(app.search_folder_name, b"Youtube".to_vec());
    assert_eq!(app.folder_name, b"trip".to_vec());
}

#[test]
fn confirm_searches_first_and_creates_once_resolved() {
    let mut app = ready_app();
    let first = app.confirm();
    assert!(matches!(first, Some(ProjectAction::StartScan(_))));
    app.handle_scan_result(ScanStatus::Found(b"C:/Youtube".to_vec()));
    let second = app.confirm();
    assert!(matches!(second, Some(ProjectAction::Build(_))));
}
