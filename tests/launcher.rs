use supertiny::launcher::{
    classify_spawn_error, spawn_error_kind, LaunchError, LaunchStep, Launcher, SpawnError,
    SpawnOutcome, MAX_SPAWN_ATTEMPTS,
};

#[test]
fn always_busy_gives_up_after_the_bound() {
    let mut l = Launcher::new();
    let mut steps = 0u32;
    loop {
        steps += 1;
        match l.record(SpawnOutcome::Failed(SpawnError::Busy)) {
            LaunchStep::Retry => continue,
            other => {
                assert_eq!(other, LaunchStep::Fatal(LaunchError::RetriesExhausted));
                break;
            }
        }
    }
    assert_eq!(steps, 1000);
    assert_eq!(MAX_SPAWN_ATTEMPTS, 1000);
    assert_eq!(l.attempts(), 1000);
}

#[test]
fn success_on_attempt_k_keeps_the_child() {
    for k in [1u32, 2, 7, 1000] {
        let mut l = Launcher::new();
        let mut result = None;
        for attempt in 1..=k {
            let outcome = if attempt == k {
                SpawnOutcome::Started(4242)
            } else {
                SpawnOutcome::Failed(SpawnError::Busy)
            };
            let step = l.record(outcome);
            if attempt < k {
                assert_eq!(step, LaunchStep::Retry);
            } else {
                result = Some(step);
            }
        }
        assert_eq!(result, Some(LaunchStep::Launched(4242)));
        assert_eq!(l.attempts(), k);
    }
}

#[test]
fn other_spawn_error_is_fatal_at_once() {
    let mut l = Launcher::new();
    assert_eq!(l.record(SpawnOutcome::Failed(SpawnError::Busy)), LaunchStep::Retry);
    assert_eq!(
        l.record(SpawnOutcome::Failed(SpawnError::Other(Some(13)))),
        LaunchStep::Fatal(LaunchError::Spawn(Some(13)))
    );
    assert_eq!(l.attempts(), 2);
}

#[test]
fn spawn_error_kind_compares_with_busy_code() {
    assert_eq!(spawn_error_kind(Some(26), 26), SpawnError::Busy);
    assert_eq!(spawn_error_kind(Some(2), 26), SpawnError::Other(Some(2)));
    assert_eq!(spawn_error_kind(None, 26), SpawnError::Other(None));
}

#[test]
fn classify_uses_the_platform_busy_code() {
    assert_eq!(classify_spawn_error(Some(libc::ETXTBSY)), SpawnError::Busy);
    assert_eq!(
        classify_spawn_error(Some(libc::EACCES)),
        SpawnError::Other(Some(libc::EACCES))
    );
    assert_eq!(classify_spawn_error(None), SpawnError::Other(None));
}
