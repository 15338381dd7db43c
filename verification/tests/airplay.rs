use bentley::airplay::AirPlayService;
use bentley::airplay::FileProbe;
use bentley::airplay::PollError;

#[test]
fn new_service_is_inactive() {
    let s = AirPlayService::new(String::from("/tmp/airplay"));
    assert!(!s.is_active());
    assert_eq!(s.state_file().as_str(), "/tmp/airplay");
}

#[test]
fn poll_true_content_activates() {
    let mut s = AirPlayService::new(String::from("f"));
    s.poll(&FileProbe::Contents(b"true".to_vec()));
    assert!(s.is_active());
}

#[test]
fn poll_trims_surrounding_whitespace() {
    let mut s = AirPlayService::new(String::from("f"));
    s.poll(&FileProbe::Contents(b" true\n".to_vec()));
    assert!(s.is_active());
    s.poll(&FileProbe::Contents(b"\t\r\n true \t".to_vec()));
    assert!(s.is_active());
}

#[test]
fn poll_other_content_deactivates() {
    let mut s = AirPlayService::new(String::from("f"));
    s.poll(&FileProbe::Contents(b"true".to_vec()));
    assert!(s.is_active());
    s.poll(&FileProbe::Contents(b"false".to_vec()));
    assert!(!s.is_active());
    s.poll(&FileProbe::Contents(b"True".to_vec()));
    assert!(!s.is_active());
    s.poll(&FileProbe::Contents(b"truex".to_vec()));
    assert!(!s.is_active());
    s.poll(&FileProbe::Contents(b"".to_vec()));
    assert!(!s.is_active());
    s.poll(&FileProbe::Contents(b" \n ".to_vec()));
    assert!(!s.is_active());
}

#[test]
fn poll_absent_file_deactivates() {
    let mut s = AirPlayService::new(String::from("f"));
    s.poll(&FileProbe::Contents(b"true".to_vec()));
    assert!(s.is_active());
    s.poll(&FileProbe::Absent);
    assert!(!s.is_active());
}

#[test]
fn poll_read_failure_retains_previous_state() {
    let mut s = AirPlayService::new(String::from("f"));
    s.poll(&FileProbe::Contents(b"true".to_vec()));
    assert!(s.is_active());
    s.poll(&FileProbe::Unreadable);
    assert!(s.is_active());
    s.poll(&FileProbe::Contents(b"false".to_vec()));
    s.poll(&FileProbe::Unreadable);
    assert!(!s.is_active());
}

#[test]
fn update_state_reports_read_failure() {
    let mut s = AirPlayService::new(String::from("f"));
    assert_eq!(s.update_state(&FileProbe::Unreadable), Err(PollError::Unreadable));
    assert_eq!(s.update_state(&FileProbe::Absent), Ok(()));
    assert_eq!(s.update_state(&FileProbe::Contents(b"true".to_vec())), Ok(()));
}

#[test]
fn trimmed_is_true_exact_match_only() {
    assert!(bentley::airplay::trimmed_is_true(&b"true".to_vec()));
    assert!(bentley::airplay::trimmed_is_true(&b"  true  ".to_vec()));
    assert!(!bentley::airplay::trimmed_is_true(&b"t r u e".to_vec()));
    assert!(!bentley::airplay::trimmed_is_true(&b"tru".to_vec()));
    assert!(!bentley::airplay::trimmed_is_true(&b"truetrue".to_vec()));
}
