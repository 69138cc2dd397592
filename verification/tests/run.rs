use fusion_kbd::{
    Error, Fault, FusionKBD, Outcome, Progress, Reply, Run, Transfer, Variant, Verdict,
};

fn session() -> FusionKBD {
    let replies = [Reply::Done, Reply::Active(false), Reply::Active(false), Reply::Done, Reply::Done];
    let mut progress = Progress::Continue(FusionKBD::new(Variant::Direct));
    for reply in replies {
        progress = match progress {
            Progress::Continue(opening) => opening.advance(reply),
            over => over,
        };
    }
    match progress {
        Progress::Ready(kbd) => kbd,
        other => panic!("not ready: {:?}", other),
    }
}

fn profile() -> [u8; 512] {
    let mut data = [0u8; 512];
    for (i, byte) in data.iter_mut().enumerate() {
        *byte = (i % 251) as u8;
    }
    data
}

/// Runs `plan` with `outcomes` and gives back the transfers that were asked
/// for and the verdicts.
fn carry_out(plan: Vec<Transfer>, outcomes: &[Outcome]) -> (Run, Vec<Transfer>, Vec<Verdict>) {
    let mut run = Run::new(plan);
    let mut made = Vec::new();
    let mut verdicts = Vec::new();
    for outcome in outcomes {
        if let Some(transfer) = run.pending() {
            made.push(transfer);
        }
        verdicts.push(run.record(*outcome));
    }
    (run, made, verdicts)
}

#[test]
fn fresh_run_awaits_the_first_transfer() {
    let plan = session().upload_custom(0, &profile()).unwrap();
    let run = Run::new(plan.clone());
    assert_eq!(run.pending(), Some(plan[0]));
    assert_eq!(run.done(), 0);
    assert_eq!(run.result(), None);
}

#[test]
fn run_of_nothing_is_over_at_once() {
    let mut run = Run::new(Vec::new());
    assert_eq!(run.pending(), None);
    assert_eq!(run.result(), Some(Ok(())));
    assert_eq!(run.record(Outcome::Moved(8)), Verdict::Idle);
    assert_eq!(run.result(), Some(Ok(())));
}

#[test]
fn upload_runs_through_all_nine_transfers() {
    let plan = session().upload_custom(2, &profile()).unwrap();
    let mut outcomes = vec![Outcome::Moved(8)];
    outcomes.extend([Outcome::Moved(64); 8]);
    let (run, made, verdicts) = carry_out(plan.clone(), &outcomes);
    assert_eq!(made, plan);
    assert_eq!(verdicts, vec![Verdict::Proceed; 9]);
    assert_eq!(run.done(), 9);
    assert_eq!(run.pending(), None);
    assert_eq!(run.result(), Some(Ok(())));
}

#[test]
fn run_is_not_over_while_transfers_remain() {
    let plan = session().upload_custom(2, &profile()).unwrap();
    let (run, made, _) = carry_out(plan.clone(), &[Outcome::Moved(8), Outcome::Moved(64)]);
    assert_eq!(made, plan[..2]);
    assert_eq!(run.done(), 2);
    assert_eq!(run.pending(), Some(plan[2]));
    assert_eq!(run.result(), None);
}

#[test]
fn short_write_is_a_warning_and_the_upload_goes_on() {
    let plan = session().upload_custom(0, &profile()).unwrap();
    let mut outcomes = vec![Outcome::Moved(8)];
    outcomes.extend([Outcome::Moved(64); 8]);
    outcomes[3] = Outcome::Moved(17);
    outcomes[8] = Outcome::Moved(0);
    let (run, made, verdicts) = carry_out(plan.clone(), &outcomes);
    assert_eq!(made, plan);
    assert_eq!(
        verdicts[3],
        Verdict::Warn(Error::ShortTransfer { index: 3, expected: 64, moved: 17 })
    );
    assert_eq!(
        verdicts[8],
        Verdict::Warn(Error::ShortTransfer { index: 8, expected: 64, moved: 0 })
    );
    for i in [0, 1, 2, 4, 5, 6, 7] {
        assert_eq!(verdicts[i], Verdict::Proceed);
    }
    assert_eq!(run.result(), Some(Ok(())));
}

#[test]
fn short_write_index_counts_from_the_header() {
    let plan = session().upload_custom(0, &profile()).unwrap();
    let (_, _, verdicts) = carry_out(plan, &[Outcome::Moved(8), Outcome::Moved(63)]);
    assert_eq!(
        verdicts[1],
        Verdict::Warn(Error::ShortTransfer { index: 1, expected: 64, moved: 63 })
    );
}

#[test]
fn length_of_a_control_transfer_is_not_looked_at() {
    let plan = session().set_custom(1, 20).unwrap();
    for moved in [0usize, 1, 7, 8, 9, 64] {
        let (run, _, verdicts) = carry_out(plan.clone(), &[Outcome::Moved(moved)]);
        assert_eq!(verdicts, vec![Verdict::Proceed]);
        assert_eq!(run.result(), Some(Ok(())));
    }
}

#[test]
fn failed_header_ends_the_upload_before_any_chunk() {
    let plan = session().upload_custom(0, &profile()).unwrap();
    let outcomes = [Outcome::Failed(Fault::Other), Outcome::Moved(64), Outcome::Moved(64)];
    let (run, made, verdicts) = carry_out(plan.clone(), &outcomes);
    assert_eq!(made, plan[..1]);
    let error = Error::TransferError { index: 0, fault: Fault::Other };
    assert_eq!(verdicts, vec![Verdict::Abort(error), Verdict::Idle, Verdict::Idle]);
    assert_eq!(run.done(), 0);
    assert_eq!(run.pending(), None);
    assert_eq!(run.result(), Some(Err(error)));
}

#[test]
fn failed_chunk_ends_the_upload_there() {
    let plan = session().upload_custom(4, &profile()).unwrap();
    let mut outcomes = vec![Outcome::Moved(8)];
    outcomes.extend([Outcome::Moved(64); 8]);
    outcomes[5] = Outcome::Failed(Fault::Busy);
    let (run, made, verdicts) = carry_out(plan.clone(), &outcomes);
    assert_eq!(made, plan[..6]);
    let error = Error::TransferError { index: 5, fault: Fault::Busy };
    assert_eq!(verdicts[..5], [Verdict::Proceed; 5]);
    assert_eq!(verdicts[5], Verdict::Abort(error));
    assert_eq!(verdicts[6..], [Verdict::Idle; 3]);
    assert_eq!(run.done(), 5);
    assert_eq!(run.result(), Some(Err(error)));
}

#[test]
fn failed_preset_transfer() {
    let plan = session().set_preset(fusion_kbd::Preset::Wave, 5, 26, fusion_kbd::Color::Rand);
    let (run, _, verdicts) = carry_out(plan, &[Outcome::Failed(Fault::Access)]);
    let error = Error::TransferError { index: 0, fault: Fault::Access };
    assert_eq!(verdicts, vec![Verdict::Abort(error)]);
    assert_eq!(run.result(), Some(Err(error)));
}

#[test]
fn outcome_after_the_end_is_ignored() {
    let plan = session().set_custom(0, 26).unwrap();
    let outcomes = [Outcome::Moved(8), Outcome::Failed(Fault::Other), Outcome::Moved(1)];
    let (run, made, verdicts) = carry_out(plan.clone(), &outcomes);
    assert_eq!(made, plan);
    assert_eq!(verdicts, vec![Verdict::Proceed, Verdict::Idle, Verdict::Idle]);
    assert_eq!(run.done(), 1);
    assert_eq!(run.result(), Some(Ok(())));
}

#[test]
fn download_runs_through_when_every_read_is_whole() {
    let plan = session().download_custom(3).unwrap();
    let mut outcomes = vec![Outcome::Moved(8)];
    outcomes.extend([Outcome::Moved(64); 8]);
    let (run, made, verdicts) = carry_out(plan.clone(), &outcomes);
    assert_eq!(made, plan);
    assert_eq!(verdicts, vec![Verdict::Proceed; 9]);
    assert_eq!(run.result(), Some(Ok(())));
}

#[test]
fn short_read_ends_the_download() {
    let plan = session().download_custom(3).unwrap();
    let mut outcomes = vec![Outcome::Moved(8)];
    outcomes.extend([Outcome::Moved(64); 8]);
    outcomes[7] = Outcome::Moved(32);
    let (run, made, verdicts) = carry_out(plan.clone(), &outcomes);
    assert_eq!(made, plan[..8]);
    let error = Error::ShortTransfer { index: 7, expected: 64, moved: 32 };
    assert_eq!(verdicts[7], Verdict::Abort(error));
    assert_eq!(verdicts[8], Verdict::Idle);
    assert_eq!(run.done(), 7);
    assert_eq!(run.result(), Some(Err(error)));
}

#[test]
fn failed_read_ends_the_download() {
    let plan = session().download_custom(0).unwrap();
    let outcomes = [Outcome::Moved(8), Outcome::Failed(Fault::Other)];
    let (run, _, verdicts) = carry_out(plan, &outcomes);
    let error = Error::TransferError { index: 1, fault: Fault::Other };
    assert_eq!(verdicts, vec![Verdict::Proceed, Verdict::Abort(error)]);
    assert_eq!(run.result(), Some(Err(error)));
}
