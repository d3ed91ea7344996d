use frost_tune::hid_read::{drain_step, FilterReader, GainReader, PullSession, ReadOutcome, ReadStep, MAX_DRAIN_ITERATIONS};
use frost_tune::session::DeviceSession;
use frost_tune::tp35pro::{CMD_GLOBAL_GAIN, CMD_PEQ_VALUES, READ};

fn filter_report(index: u8, nonce: u8) -> Vec<u8> {
    let mut v = vec![0u8; 38];
    v[0] = 0x4B;
    v[1] = READ;
    v[2] = CMD_PEQ_VALUES;
    v[3] = nonce;
    v[5] = index;
    v[28] = 0xE8;
    v[29] = 0x03;
    v
}

#[test]
fn filter_reader_accepts_matching_report() {
    let mut r = FilterReader::new(2, 7);
    match r.step(ReadOutcome::Report(filter_report(2, 7))) {
        ReadStep::Done(Some(f)) => {
            assert_eq!(f.index, 2);
            assert_eq!(f.freq, 1000);
        }
        other => panic!("unexpected {:?}", other),
    }
}

#[test]
fn filter_reader_gives_up_after_mismatches() {
    let mut r = FilterReader::new(2, 7);
    for _ in 0..8 {
        assert!(matches!(r.step(ReadOutcome::Report(filter_report(2, 8))), ReadStep::Again));
    }
    assert!(matches!(r.step(ReadOutcome::Report(filter_report(2, 8))), ReadStep::Done(None)));
    assert_eq!(r.attempts, 0);
}

#[test]
fn filter_reader_gives_up_after_attempts_or_error() {
    let mut r = FilterReader::new(0, 1);
    for _ in 0..59 {
        assert!(matches!(r.step(ReadOutcome::Nothing), ReadStep::Again));
    }
    assert!(matches!(r.step(ReadOutcome::Nothing), ReadStep::Done(None)));
    let mut e = FilterReader::new(0, 1);
    assert!(matches!(e.step(ReadOutcome::Failed), ReadStep::Done(None)));
    let mut id_only = FilterReader::new(0, 1);
    assert!(matches!(id_only.step(ReadOutcome::Report(vec![0x4B])), ReadStep::Again));
    assert_eq!(id_only.attempts, 1);
}

#[test]
fn gain_reader_reads_or_times_out() {
    let mut g = GainReader::new();
    assert!(matches!(g.step(ReadOutcome::Report(vec![0x4B, READ, CMD_GLOBAL_GAIN, 0, 0, 0xFD, 0])), ReadStep::Done(Ok(-3))));
    let mut t = GainReader::new();
    for _ in 0..19 {
        assert!(matches!(t.step(ReadOutcome::Nothing), ReadStep::Again));
    }
    match t.step(ReadOutcome::Failed) {
        ReadStep::Done(Err(e)) => assert_eq!(e.message, "Global gain read timeout"),
        other => panic!("unexpected {:?}", other),
    }
}

#[test]
fn drain_stops_on_empty_or_limit() {
    assert_eq!(drain_step(0, &ReadOutcome::Nothing), (false, 0));
    assert_eq!(drain_step(3, &ReadOutcome::Report(vec![1])), (true, 4));
    assert_eq!(drain_step(MAX_DRAIN_ITERATIONS, &ReadOutcome::Report(vec![1])), (false, MAX_DRAIN_ITERATIONS + 1));
}

#[test]
fn pull_session_walks_bands_with_nonces() {
    let mut p = PullSession::new(false, 2, DeviceSession::new());
    let (i0, n0) = p.next_filter().unwrap();
    assert_eq!((i0, n0), (0, 1));
    p.record_filter(i0, n0, None).unwrap();
    let (i1, n1) = p.next_filter().unwrap();
    assert_eq!((i1, n1), (1, 2));
    p.record_filter(i1, n1, None).unwrap();
    assert!(p.next_filter().is_none());
    assert_eq!(p.finish_filters().unwrap(), 3);
    let (bands, gain) = p.assemble(-2);
    assert_eq!(bands.len(), 2);
    assert!(!bands[0].enabled);
    assert_eq!(gain, -2);
}

#[test]
fn strict_pull_fails_on_lost_filter() {
    let mut p = PullSession::new(true, 10, DeviceSession::new());
    let (i, n) = p.next_filter().unwrap();
    let e = p.record_filter(i, n, None).unwrap_err();
    assert_eq!(e.message, "Failed to read filter 0 (nonce: 1)");
}
