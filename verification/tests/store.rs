use atomblob::{ser_load, ser_store, Commit, Error, Progress, FileRead, Stage, StorePlan};

/// Runs a store under `suffix` on `outcomes` and lists the stages it asked for.
fn run_plan(suffix: u32, outcomes: &[bool]) -> (Vec<Stage>, StorePlan) {
    let mut plan = StorePlan::with_suffix(suffix);
    let mut asked = Vec::new();
    for ok in outcomes {
        if let Some(stage) = plan.pending() {
            asked.push(stage);
        }
        plan.record(*ok);
    }
    (asked, plan)
}

#[test]
fn load_of_missing_file_is_none() {
    let loaded: Option<Result<u32, Error>> = ser_load(FileRead::Missing);
    assert_eq!(loaded, None);
}

#[test]
fn load_of_unopenable_file_names_the_open_stage() {
    let loaded: Option<Result<u32, Error>> = ser_load(FileRead::OpenFailed);
    assert_eq!(loaded, Some(Err(Error::Io(Stage::Open))));
}

#[test]
fn load_of_corrupt_file_is_a_decode_error() {
    let loaded: Option<Result<u32, Error>> = ser_load(FileRead::Undecodable);
    assert_eq!(loaded, Some(Err(Error::Decode)));
}

#[test]
fn load_of_decoded_file_is_its_value() {
    assert_eq!(ser_load(FileRead::Decoded(17u32)), Some(Ok(17u32)));
}

#[test]
fn store_asks_for_its_stages_in_order() {
    let (asked, plan) = run_plan(1, &[true, true, true, true]);
    assert_eq!(
        asked,
        vec![Stage::CreateTemp, Stage::Encode, Stage::Flush, Stage::Replace]
    );
    assert_eq!(plan.pending(), None);
    assert_eq!(plan.result(), Some(Ok(())));
}

#[test]
fn store_has_no_result_while_a_stage_is_pending() {
    let plan = StorePlan::with_suffix(1);
    assert_eq!(plan.pending(), Some(Stage::CreateTemp));
    assert_eq!(plan.result(), None);
    let (_, plan) = run_plan(1, &[true]);
    assert_eq!(plan.pending(), Some(Stage::Encode));
    assert_eq!(plan.result(), None);
    let (_, plan) = run_plan(1, &[true, true]);
    assert_eq!(plan.pending(), Some(Stage::Flush));
    assert_eq!(plan.result(), None);
    let (_, plan) = run_plan(1, &[true, true, true]);
    assert_eq!(plan.pending(), Some(Stage::Replace));
    assert_eq!(plan.result(), None);
}

#[test]
fn store_that_fails_to_create_stops_there() {
    let (asked, plan) = run_plan(1, &[false, true, true, true]);
    assert_eq!(asked, vec![Stage::CreateTemp]);
    assert_eq!(plan.result(), Some(Err(Error::Io(Stage::CreateTemp))));
}

#[test]
fn store_that_fails_to_encode_stops_there() {
    let (asked, plan) = run_plan(1, &[true, false, true, true]);
    assert_eq!(asked, vec![Stage::CreateTemp, Stage::Encode]);
    assert_eq!(plan.result(), Some(Err(Error::Io(Stage::Encode))));
}

#[test]
fn store_that_fails_to_flush_never_replaces() {
    let (asked, plan) = run_plan(1, &[true, true, false, true]);
    assert_eq!(asked, vec![Stage::CreateTemp, Stage::Encode, Stage::Flush]);
    assert!(!asked.contains(&Stage::Replace));
    assert_eq!(plan.result(), Some(Err(Error::Io(Stage::Flush))));
}

#[test]
fn store_that_fails_to_replace_says_so() {
    let (asked, plan) = run_plan(1, &[true, true, true, false]);
    assert_eq!(
        asked,
        vec![Stage::CreateTemp, Stage::Encode, Stage::Flush, Stage::Replace]
    );
    assert_eq!(plan.result(), Some(Err(Error::Io(Stage::Replace))));
}

#[test]
fn ended_store_is_not_moved_by_further_outcomes() {
    let (_, mut plan) = run_plan(1, &[true, true, true, true]);
    plan.record(false);
    assert_eq!(plan.result(), Some(Ok(())));
    let (_, mut plan) = run_plan(1, &[true, false]);
    plan.record(true);
    plan.record(true);
    assert_eq!(plan.pending(), None);
    assert_eq!(plan.result(), Some(Err(Error::Io(Stage::Encode))));
}

#[test]
fn store_keeps_its_staging_name() {
    let (_, plan) = run_plan(0x00c0ffee, &[true, true]);
    assert_eq!(plan.temp_extension(), "00c0ffee.tmp");
    let (_, plan) = run_plan(0x00c0ffee, &[true, true, true, true]);
    assert_eq!(plan.temp_extension(), "00c0ffee.tmp");
}

#[test]
fn fresh_store_stages_under_a_well_formed_name() {
    for _ in 0..64 {
        let plan = ser_store();
        assert_eq!(plan.pending(), Some(Stage::CreateTemp));
        assert_eq!(plan.result(), None);
        let ext = plan.temp_extension();
        assert_eq!(ext.len(), 12);
        assert!(ext.ends_with(".tmp"));
        assert!(ext[..8]
            .chars()
            .all(|c| c.is_ascii_digit() || ('a'..='f').contains(&c)));
    }
}

#[test]
fn fresh_stores_do_not_share_one_name() {
    let first = ser_store().temp_extension();
    let mut differs = false;
    for _ in 0..64 {
        if ser_store().temp_extension() != first {
            differs = true;
        }
    }
    assert!(differs);
}

#[test]
fn progress_values_compare() {
    assert_eq!(Progress::Failed(Stage::Flush), Progress::Failed(Stage::Flush));
    assert_ne!(Progress::Failed(Stage::Flush), Progress::Failed(Stage::Encode));
    assert_ne!(Progress::Stored, Progress::Replacing);
}

#[test]
fn commit_flag_records_a_failed_attempt() {
    let mut flag = Commit::new();
    assert!(flag.needs_commit());
    assert_eq!(flag.outcome(), None);
    assert_eq!(flag.record(Err(Error::Io(Stage::Encode))), Err(Error::Io(Stage::Encode)));
    assert!(!flag.needs_commit());
    assert_eq!(flag.outcome(), Some(Err(Error::Io(Stage::Encode))));
}

#[test]
fn commit_flag_records_a_successful_attempt() {
    let mut flag = Commit::new();
    assert_eq!(flag.record(Ok(())), Ok(()));
    assert!(!flag.needs_commit());
    assert_eq!(flag.outcome(), Some(Ok(())));
}

#[test]
fn every_failure_has_its_own_message() {
    assert_eq!(Error::Io(Stage::Open).message(), "opening blobject");
    assert_eq!(Error::Io(Stage::CreateTemp).message(), "creating tmp file for blobject");
    assert_eq!(Error::Io(Stage::Encode).message(), "serializing blobject to file");
    assert_eq!(Error::Io(Stage::Flush).message(), "flushing blobject file");
    assert_eq!(Error::Io(Stage::Replace).message(), "replacing blobject file");
    assert_eq!(Error::Decode.message(), "loading blobject");
    assert_eq!(Error::Lock.message(), "locking blobject");
    assert_eq!(Error::Poisoned.message(), "poisoned blobject");
}
