use broadcast_hub::supervisor::APIManager;

#[test]
fn start_twice_launches_exactly_one_process() {
    let mut manager = APIManager::new();
    assert!(!manager.is_running());

    let first = manager.start_backend(Some(Ok(100)));
    assert!(first.is_ok());
    assert!(manager.is_running());
    assert_eq!(manager.current_instance(), Some(100));

    // The second start consumes no spawn outcome: nothing was launched for
    // it, yet it reports success and the same process stays in place.
    let second = manager.start_backend(None);
    assert!(second.is_ok());
    assert_eq!(manager.current_instance(), Some(100));
}

#[test]
fn terminate_with_no_process_is_a_successful_noop() {
    let mut manager = APIManager::new();
    // No kill outcome is handed in: no operating-system call was made.
    let result = manager.terminate_backend(None);
    assert!(result.is_ok());
    assert!(!manager.is_running());
}

#[test]
fn terminate_kills_the_running_process() {
    let mut manager = APIManager::new();
    manager.start_backend(Some(Ok(4))).unwrap();
    let result = manager.terminate_backend(Some(Ok(())));
    assert!(result.is_ok());
    assert!(!manager.is_running());
    assert_eq!(manager.current_instance(), None);
}

#[test]
fn restart_ends_running_a_fresh_instance() {
    let mut manager = APIManager::new();
    manager.start_backend(Some(Ok(1))).unwrap();
    let before = manager.current_instance();

    let result = manager.restart_backend(Some(Ok(())), Some(Ok(2)));
    assert!(result.is_ok());
    assert!(manager.is_running());
    assert_eq!(manager.current_instance(), Some(2));
    assert_ne!(manager.current_instance(), before);
}

#[test]
fn start_failure_reports_the_os_detail_and_stays_absent() {
    let mut manager = APIManager::new();
    let result = manager.start_backend(Some(Err(String::from("no such file"))));
    assert_eq!(result, Err(String::from("no such file")));
    assert!(!manager.is_running());
}

#[test]
fn terminate_failure_keeps_the_process_recorded() {
    let mut manager = APIManager::new();
    manager.start_backend(Some(Ok(5))).unwrap();
    let result = manager.terminate_backend(Some(Err(String::from("permission denied"))));
    assert_eq!(result, Err(String::from("permission denied")));
    assert!(manager.is_running());
    assert_eq!(manager.current_instance(), Some(5));
}

#[test]
fn restart_does_not_start_after_a_failed_terminate() {
    let mut manager = APIManager::new();
    manager.start_backend(Some(Ok(8))).unwrap();
    // The terminate phase failed, so nothing may have been spawned: no
    // spawn outcome is handed in, the call fails, the old process stays.
    let result = manager.restart_backend(Some(Err(String::from("kill failed"))), None);
    assert!(result.is_err());
    assert_eq!(manager.current_instance(), Some(8));
}

#[test]
fn restart_with_no_process_just_starts_one() {
    let mut manager = APIManager::new();
    let result = manager.restart_backend(None, Some(Ok(11)));
    assert!(result.is_ok());
    assert_eq!(manager.current_instance(), Some(11));
}

#[test]
fn restart_reports_failure_when_the_spawn_fails() {
    let mut manager = APIManager::new();
    manager.start_backend(Some(Ok(3))).unwrap();
    let result = manager.restart_backend(Some(Ok(())), Some(Err(String::from("gone"))));
    assert!(result.is_err());
    assert!(!manager.is_running());
}
