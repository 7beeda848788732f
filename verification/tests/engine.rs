use s3_transfer::engine::{Action, Event, TransferEngine, TransferState};
use s3_transfer::planner::{plan, Strategy};
use s3_transfer::types::S3Error;

const MIB: u64 = 1024 * 1024;

fn chunked_ranges(total: u64, part: u64) -> Vec<s3_transfer::planner::ByteRange> {
    match plan(total, Some(part)) {
        Strategy::Chunked { ranges, .. } => ranges,
        Strategy::SingleShot => panic!("expected a chunked plan"),
    }
}

#[test]
fn successful_transfer_submits_parts_one_to_n_in_order() {
    let ranges = chunked_ranges(12 * MIB, 5 * MIB);
    let mut engine = TransferEngine::new("bkt".to_string(), "obj".to_string(), ranges);

    match engine.begin() {
        Action::Initiate { bucket, key } => {
            assert_eq!(bucket, "bkt");
            assert_eq!(key, "obj");
        }
        _ => panic!("the first action must be the initiation"),
    }

    let a = engine.step(Event::InitiateOk { upload_id: "uid-1".to_string() });
    match a {
        Action::UploadPart { upload_id, part_number, offset, len } => {
            assert_eq!(upload_id, "uid-1");
            assert_eq!(part_number, 1);
            assert_eq!(offset, 0);
            assert_eq!(len, 5 * MIB);
        }
        _ => panic!("an upload identifier must start part 1"),
    }

    let a = engine.step(Event::PartOk { etag: "tag-1".to_string() });
    match a {
        Action::UploadPart { part_number, offset, len, .. } => {
            assert_eq!(part_number, 2);
            assert_eq!(offset, 5 * MIB);
            assert_eq!(len, 5 * MIB);
        }
        _ => panic!("part 2 must follow part 1"),
    }

    let a = engine.step(Event::PartOk { etag: "tag-2".to_string() });
    match a {
        Action::UploadPart { part_number, offset, len, .. } => {
            assert_eq!(part_number, 3);
            assert_eq!(offset, 10 * MIB);
            assert_eq!(len, 2 * MIB);
        }
        _ => panic!("part 3 must follow part 2"),
    }

    let a = engine.step(Event::PartOk { etag: "tag-3".to_string() });
    match a {
        Action::Complete { upload_id, parts } => {
            assert_eq!(upload_id, "uid-1");
            let seen: Vec<(u32, String)> =
                parts.iter().map(|p| (p.part_number, p.etag.clone())).collect();
            assert_eq!(
                seen,
                vec![
                    (1, "tag-1".to_string()),
                    (2, "tag-2".to_string()),
                    (3, "tag-3".to_string()),
                ]
            );
        }
        _ => panic!("all parts acknowledged: completion must follow"),
    }

    let a = engine.step(Event::CompleteOk);
    match a {
        Action::Succeed { key } => assert_eq!(key, "obj"),
        _ => panic!("completion acknowledged: the transfer must succeed"),
    }
    assert!(matches!(engine.state, TransferState::Done));
}

#[test]
fn part_failure_aborts_once_and_never_completes() {
    let ranges = chunked_ranges(12 * MIB, 5 * MIB);
    let mut engine = TransferEngine::new("bkt".to_string(), "obj".to_string(), ranges);
    let _ = engine.begin();

    let mut aborts = 0;
    let mut completes = 0;

    let a = engine.step(Event::InitiateOk { upload_id: "uid-9".to_string() });
    assert!(matches!(a, Action::UploadPart { part_number: 1, .. }));

    let a = engine.step(Event::PartOk { etag: "tag-1".to_string() });
    assert!(matches!(a, Action::UploadPart { part_number: 2, .. }));

    let a = engine.step(Event::PartFailed {
        error: S3Error::AwsError("part 2 rejected".to_string()),
    });
    match &a {
        Action::Abort { upload_id } => {
            aborts += 1;
            assert_eq!(upload_id, "uid-9");
        }
        Action::Complete { .. } => completes += 1,
        _ => panic!("a part failure must demand the abort"),
    }

    let a = engine.step(Event::AbortOk);
    match &a {
        Action::Fail { error, abort_error } => {
            match error {
                S3Error::AwsError(m) => assert_eq!(m, "part 2 rejected"),
                _ => panic!("the original failure must be preserved"),
            }
            assert!(abort_error.is_none());
        }
        Action::Abort { .. } => {
            panic!("the abort must be requested exactly once");
        }
        Action::Complete { .. } => {
            panic!("no completion after a failure");
        }
        _ => panic!("the aborted transfer must report its failure"),
    }

    assert_eq!(aborts, 1);
    assert_eq!(completes, 0);
    assert!(matches!(engine.state, TransferState::Aborted));
}

#[test]
fn abort_failure_is_secondary_and_never_masks_the_cause() {
    let ranges = chunked_ranges(6 * MIB, 5 * MIB);
    let mut engine = TransferEngine::new("b".to_string(), "k".to_string(), ranges);
    let _ = engine.begin();
    let _ = engine.step(Event::InitiateOk { upload_id: "u".to_string() });
    let a = engine.step(Event::PartFailed {
        error: S3Error::IoError("source vanished".to_string()),
    });
    assert!(matches!(a, Action::Abort { .. }));
    let a = engine.step(Event::AbortFailed {
        error: S3Error::AwsError("abort refused".to_string()),
    });
    match a {
        Action::Fail { error, abort_error } => {
            match error {
                S3Error::IoError(m) => assert_eq!(m, "source vanished"),
                _ => panic!("the original failure must be preserved"),
            }
            match abort_error {
                Some(S3Error::AwsError(m)) => assert_eq!(m, "abort refused"),
                _ => panic!("the abort failure must be reported as secondary"),
            }
        }
        _ => panic!("the aborted transfer must report its failure"),
    }
}

#[test]
fn completion_failure_also_aborts() {
    let ranges = chunked_ranges(5 * MIB, 5 * MIB);
    let mut engine = TransferEngine::new("b".to_string(), "k".to_string(), ranges);
    let _ = engine.begin();
    let _ = engine.step(Event::InitiateOk { upload_id: "u".to_string() });
    let a = engine.step(Event::PartOk { etag: "t".to_string() });
    assert!(matches!(a, Action::Complete { .. }));
    let a = engine.step(Event::CompleteFailed {
        error: S3Error::AwsError("completion rejected".to_string()),
    });
    match a {
        Action::Abort { upload_id } => assert_eq!(upload_id, "u"),
        _ => panic!("a completion failure must demand the abort"),
    }
    let a = engine.step(Event::AbortOk);
    match a {
        Action::Fail { error, abort_error } => {
            assert!(matches!(error, S3Error::AwsError(m) if m == "completion rejected"));
            assert!(abort_error.is_none());
        }
        _ => panic!("the aborted transfer must report its failure"),
    }
}

#[test]
fn initiation_failure_is_fatal_with_nothing_to_clean() {
    let ranges = chunked_ranges(6 * MIB, 5 * MIB);
    let mut engine = TransferEngine::new("b".to_string(), "k".to_string(), ranges);
    let _ = engine.begin();
    let a = engine.step(Event::InitiateFailed {
        error: S3Error::ConfigError("bad endpoint".to_string()),
    });
    match a {
        Action::Fail { error, abort_error } => {
            assert!(matches!(error, S3Error::ConfigError(_)));
            assert!(abort_error.is_none());
        }
        _ => panic!("a failed initiation must fail the transfer directly"),
    }
    assert!(matches!(engine.state, TransferState::Aborted));
}

#[test]
fn single_range_plan_completes_after_one_part() {
    let ranges = chunked_ranges(5 * MIB, 5 * MIB);
    let mut engine = TransferEngine::new("b".to_string(), "k".to_string(), ranges);
    let _ = engine.begin();
    let _ = engine.step(Event::InitiateOk { upload_id: "u".to_string() });
    let a = engine.step(Event::PartOk { etag: "only".to_string() });
    match a {
        Action::Complete { parts, .. } => {
            assert_eq!(parts.len(), 1);
            assert_eq!(parts[0].part_number, 1);
            assert_eq!(parts[0].etag, "only");
        }
        _ => panic!("the single part acknowledged: completion must follow"),
    }
}
