use supertiny::detector::{compare_fingerprints, Fingerprint, PollVerdict};

#[test]
fn changed_creation_age_requests_reload() {
    assert_eq!(
        compare_fingerprints(Fingerprint::Present(120), Fingerprint::Present(0)),
        PollVerdict::Changed
    );
}

#[test]
fn same_creation_age_is_unchanged() {
    assert_eq!(
        compare_fingerprints(Fingerprint::Present(5), Fingerprint::Present(5)),
        PollVerdict::Unchanged
    );
}

#[test]
fn absence_is_tolerated() {
    for (a, b) in [(Fingerprint::Absent, Fingerprint::Absent), (Fingerprint::Absent, Fingerprint::Present(3)), (Fingerprint::Present(3), Fingerprint::Absent)] {
        assert_eq!(compare_fingerprints(a, b), PollVerdict::InTransition);
    }
    assert_eq!(compare_fingerprints(Fingerprint::Absent, Fingerprint::Unreadable), PollVerdict::InTransition);
}

#[test]
fn unreadable_metadata_fails() {
    assert_eq!(compare_fingerprints(Fingerprint::Unreadable, Fingerprint::Present(1)), PollVerdict::Failed);
    assert_eq!(compare_fingerprints(Fingerprint::Unreadable, Fingerprint::Absent), PollVerdict::Failed);
    assert_eq!(compare_fingerprints(Fingerprint::Present(1), Fingerprint::Unreadable), PollVerdict::Failed);
}
