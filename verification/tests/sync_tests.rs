use honkers_launcher::sync::{sync_after_attempt, sync_begin, IndexState, SyncStep};

const ALL_FAILED: &str = "All component mirror servers failed to respond.";

fn drive(state: IndexState, results: &[bool]) -> (Result<(), String>, usize) {
    let mut step = sync_begin(state, results.len());
    let mut tried = 0;
    loop {
        match step {
            SyncStep::Finished(r) => return (r, tried),
            SyncStep::TryMirror(i) => {
                tried += 1;
                step = sync_after_attempt(i, results.len(), results[i]);
            }
        }
    }
}

#[test]
fn up_to_date_needs_no_mirror() {
    assert_eq!(sync_begin(IndexState::UpToDate, 3), SyncStep::Finished(Ok(())));
}

#[test]
fn check_error_is_passed_on() {
    assert_eq!(
        sync_begin(IndexState::CheckFailed("io".to_string()), 3),
        SyncStep::Finished(Err("io".to_string()))
    );
}

#[test]
fn outdated_tries_first_mirror() {
    assert_eq!(sync_begin(IndexState::Outdated, 2), SyncStep::TryMirror(0));
    assert_eq!(sync_begin(IndexState::Outdated, 0), SyncStep::Finished(Err(ALL_FAILED.to_string())));
}

#[test]
fn after_attempt_steps() {
    assert_eq!(sync_after_attempt(0, 3, true), SyncStep::Finished(Ok(())));
    assert_eq!(sync_after_attempt(0, 3, false), SyncStep::TryMirror(1));
    assert_eq!(sync_after_attempt(2, 3, false), SyncStep::Finished(Err(ALL_FAILED.to_string())));
}

#[test]
fn synced_iff_some_mirror_answers() {
    assert_eq!(drive(IndexState::Outdated, &[false, true, true]), (Ok(()), 2));
    assert_eq!(drive(IndexState::Outdated, &[false, false]), (Err(ALL_FAILED.to_string()), 2));
    assert_eq!(drive(IndexState::Outdated, &[true]), (Ok(()), 1));
    assert_eq!(drive(IndexState::Outdated, &[]), (Err(ALL_FAILED.to_string()), 0));
}
