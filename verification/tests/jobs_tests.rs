use vredditor::jobs::{begin_processing, begin_uploading, cancel_job, finish_job, set_state_if_eq};
use vredditor::proto::JobState;

fn mismatch() -> JobState {
    JobState::from_result(Err("internal server error (state mismatch)".to_string()))
}

#[test]
fn set_state_if_eq_cases() {
    let mut s = JobState::Queued(());
    assert!(set_state_if_eq(&mut s, JobState::Processing(()), Some(JobState::Queued(()))));
    assert_eq!(s, JobState::Processing(()));
    assert!(!set_state_if_eq(&mut s, JobState::Uploading(()), Some(JobState::Queued(()))));
    assert_eq!(s, mismatch());
    assert!(set_state_if_eq(&mut s, JobState::Cancelled(()), None));
    assert_eq!(s, JobState::Cancelled(()));
}

#[test]
fn job_runs_in_order() {
    let mut s = JobState::default();
    assert!(begin_processing(&mut s));
    assert!(begin_uploading(&mut s));
    finish_job(&mut s, Ok("https://i.brod.es/a.mp4".to_string()));
    assert_eq!(s, JobState::from_result(Ok("https://i.brod.es/a.mp4".to_string())));
}

#[test]
fn out_of_order_step_records_mismatch() {
    let mut s = JobState::default();
    assert!(!begin_uploading(&mut s));
    assert_eq!(s, mismatch());
    let mut c = JobState::Processing(());
    cancel_job(&mut c);
    assert_eq!(c, JobState::Cancelled(()));
    assert!(!begin_uploading(&mut c));
    finish_job(&mut c, Err("download failed".to_string()));
    assert_eq!(c.to_string(), "COMPLETE: FAILED: download failed");
}
