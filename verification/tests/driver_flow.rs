use compio::driver::{Entry, PollDriver};
use compio::iour::{
    choose_submit_kind, create_entry, finish_submit, poll_entries, Cqe, LoopbackRing,
    PreparedEntry, Ring, SubmitKind, TimeSpec, CANCEL, EAGAIN, EBUSY, ETIME, ETIMEDOUT,
};
use compio::op::OpCode;
use io_uring::squeue;

struct TestOp {
    tag: u32,
}

impl OpCode for TestOp {
    fn create_entry(&mut self) -> squeue::Entry {
        io_uring::opcode::Nop::new().build()
    }
}

/// A scripted completion interface: every user submission completes with
/// the given raw kernel result, and every cancel submission is
/// acknowledged.
struct ScriptRing {
    space: usize,
    raw_result: i32,
    cqes: Vec<Cqe>,
}

impl Ring for ScriptRing {
    fn sq_space(&mut self) -> usize {
        self.space
    }

    fn push_sqes(&mut self, sqes: Vec<PreparedEntry>) {
        for pe in sqes {
            if pe.user_data == CANCEL {
                self.cqes.push(Cqe { user_data: CANCEL, result: 0 });
            } else {
                self.cqes.push(Cqe { user_data: pe.user_data, result: self.raw_result });
            }
        }
    }

    fn submit(&mut self, _kind: SubmitKind) -> Result<usize, i64> {
        Ok(self.cqes.len())
    }

    fn drain_cqes(&mut self, out: &mut Vec<Cqe>) {
        out.append(&mut self.cqes);
    }
}

#[test]
fn push_poll_pop_round_trip() {
    let mut driver: PollDriver<TestOp> = PollDriver::with_entries(4);
    let mut ring = LoopbackRing::new(4);
    let mut ids = Vec::new();
    for tag in 0..10u32 {
        ids.push(driver.push(TestOp { tag }));
    }
    for i in 0..ids.len() {
        for j in 0..i {
            assert_ne!(ids[i], ids[j]);
        }
        assert_ne!(ids[i], CANCEL);
    }
    let mut entries: Vec<Entry> = Vec::new();
    // more identifiers than the ring holds per round: the driver loops
    // until everything is submitted, and every operation completes exactly
    // once
    driver.poll(&mut ring, None, &mut entries).unwrap();
    assert_eq!(entries.len(), 10);
    let mut seen = vec![false; 10];
    for e in &entries {
        let pos = ids.iter().position(|i| *i == e.user_data()).unwrap();
        assert!(!seen[pos]);
        seen[pos] = true;
    }
    let popped = driver.pop(entries);
    assert_eq!(popped.len(), 10);
    for r in popped {
        assert_eq!(r.0.unwrap(), 0);
        let user_data = r.1.user_data();
        let pos = ids.iter().position(|i| *i == user_data).unwrap();
        let op = r.1.into_inner().into_inner();
        assert_eq!(op.tag as usize, pos);
    }
    // the popped identifiers are free again and get recycled
    let recycled = driver.push(TestOp { tag: 99 });
    assert!(ids.contains(&recycled));
}

#[test]
fn poll_zero_timeout_with_nothing_pending() {
    let mut driver: PollDriver<TestOp> = PollDriver::new();
    let mut ring = LoopbackRing::new(8);
    let mut entries: Vec<Entry> = Vec::new();
    let r = driver.poll(&mut ring, Some(TimeSpec { sec: 0, nsec: 0 }), &mut entries);
    assert!(r.is_ok());
    assert_eq!(entries.len(), 0);
}

#[test]
fn poll_positive_timeout_with_no_work_times_out() {
    let mut driver: PollDriver<TestOp> = PollDriver::new();
    let mut ring = LoopbackRing::new(8);
    let mut entries: Vec<Entry> = Vec::new();
    let r = driver.poll(&mut ring, Some(TimeSpec { sec: 30, nsec: 0 }), &mut entries);
    assert_eq!(r.err().unwrap(), ETIMEDOUT);
    assert_eq!(entries.len(), 0);
}

#[test]
fn cancel_then_complete_recovers_the_operation() {
    let mut driver: PollDriver<TestOp> = PollDriver::with_entries(8);
    let mut ring = ScriptRing { space: 8, raw_result: -125, cqes: Vec::new() };
    let id = driver.push(TestOp { tag: 7 });
    driver.cancel(id);
    let mut entries: Vec<Entry> = Vec::new();
    driver.poll(&mut ring, Some(TimeSpec { sec: 30, nsec: 0 }), &mut entries).unwrap();
    // one entry for the operation; the cancel acknowledgement is discarded
    assert_eq!(entries.len(), 1);
    assert_eq!(entries[0].user_data(), id);
    let popped = driver.pop(entries);
    assert_eq!(popped.len(), 1);
    for r in popped {
        // "canceled" surfaces as the timed-out error
        assert_eq!(r.0.err().unwrap(), ETIMEDOUT);
        let op = r.1.into_inner().into_inner();
        assert_eq!(op.tag, 7);
    }
}

#[test]
fn cancel_before_push_still_yields_one_completion() {
    let mut driver: PollDriver<TestOp> = PollDriver::with_entries(8);
    let mut ring = ScriptRing { space: 8, raw_result: -125, cqes: Vec::new() };
    driver.cancel(0);
    let id = driver.push(TestOp { tag: 3 });
    assert_eq!(id, 0);
    let mut entries: Vec<Entry> = Vec::new();
    driver.poll(&mut ring, None, &mut entries).unwrap();
    assert_eq!(entries.len(), 1);
    assert_eq!(entries[0].user_data(), id);
    let result = entries[0].into_result();
    assert_eq!(result.err().unwrap(), ETIMEDOUT);
}

/// A completion interface whose submit call reports transient busy rounds
/// first, then a scripted error, then success; user submissions complete
/// with result `1`.
struct FlakyRing {
    busy_rounds: usize,
    fail_code: Option<i64>,
    cqes: Vec<Cqe>,
}

impl Ring for FlakyRing {
    fn sq_space(&mut self) -> usize {
        8
    }

    fn push_sqes(&mut self, sqes: Vec<PreparedEntry>) {
        for pe in sqes {
            if pe.user_data != CANCEL {
                self.cqes.push(Cqe { user_data: pe.user_data, result: 1 });
            }
        }
    }

    fn submit(&mut self, _kind: SubmitKind) -> Result<usize, i64> {
        if self.busy_rounds > 0 {
            self.busy_rounds -= 1;
            return Err(EBUSY);
        }
        if let Some(c) = self.fail_code {
            return Err(c);
        }
        Ok(0)
    }

    fn drain_cqes(&mut self, out: &mut Vec<Cqe>) {
        out.append(&mut self.cqes);
    }
}

#[test]
fn transient_busy_is_absorbed() {
    let mut driver: PollDriver<TestOp> = PollDriver::with_entries(8);
    let mut ring = FlakyRing { busy_rounds: 1, fail_code: None, cqes: Vec::new() };
    let id = driver.push(TestOp { tag: 1 });
    let mut entries: Vec<Entry> = Vec::new();
    driver.poll(&mut ring, None, &mut entries).unwrap();
    assert_eq!(entries.len(), 1);
    assert_eq!(entries[0].user_data(), id);
    assert_eq!(entries[0].into_result().unwrap(), 1);
}

#[test]
fn other_submit_errors_propagate_verbatim() {
    let mut driver: PollDriver<TestOp> = PollDriver::with_entries(8);
    let mut ring = FlakyRing { busy_rounds: 0, fail_code: Some(13), cqes: Vec::new() };
    driver.push(TestOp { tag: 1 });
    let mut entries: Vec<Entry> = Vec::new();
    let r = driver.poll(&mut ring, None, &mut entries);
    assert_eq!(r.err().unwrap(), 13);
}

#[test]
fn attach_is_a_no_op_here() {
    let mut driver: PollDriver<TestOp> = PollDriver::with_entries(2);
    assert!(driver.attach(5).is_ok());
    assert_eq!(driver.ring_entries(), 2);
    let d2: PollDriver<TestOp> = PollDriver::new();
    assert_eq!(d2.ring_entries(), 1024);
}

#[test]
fn entry_accessors_round_trip() {
    let e = Entry::new(4, Ok(17));
    assert_eq!(e.user_data(), 4);
    assert_eq!(e.into_result().unwrap(), 17);
    let e = Entry::new(9, Err(5));
    assert_eq!(e.user_data(), 9);
    assert_eq!(e.into_result().err().unwrap(), 5);
}

#[test]
fn submit_kind_follows_the_auto_policy() {
    let d = TimeSpec { sec: 30, nsec: 0 };
    assert_eq!(choose_submit_kind(Some(d), true), SubmitKind::WaitTimeout(d));
    assert_eq!(choose_submit_kind(None, true), SubmitKind::Wait);
    // a zero timeout is a pure non-blocking poll
    assert_eq!(choose_submit_kind(Some(TimeSpec { sec: 0, nsec: 0 }), true), SubmitKind::NoWait);
    assert_eq!(choose_submit_kind(Some(d), false), SubmitKind::NoWait);
    assert_eq!(choose_submit_kind(None, false), SubmitKind::NoWait);
}

#[test]
fn submit_results_are_translated() {
    assert_eq!(finish_submit(Ok(3)), Ok(3));
    assert_eq!(finish_submit(Err(ETIME)), Err(ETIMEDOUT));
    assert_eq!(finish_submit(Err(EBUSY)), Ok(0));
    assert_eq!(finish_submit(Err(EAGAIN)), Ok(0));
    assert_eq!(finish_submit(Err(13)), Err(13));
}

#[test]
fn kernel_results_are_translated() {
    let e = create_entry(Cqe { user_data: 3, result: 11 });
    assert_eq!(e.user_data(), 3);
    assert_eq!(e.into_result().unwrap(), 11);
    let e = create_entry(Cqe { user_data: 3, result: -5 });
    assert_eq!(e.into_result().err().unwrap(), 5);
    // "canceled" is remapped to "timed out"
    let e = create_entry(Cqe { user_data: 3, result: -125 });
    assert_eq!(e.into_result().err().unwrap(), ETIMEDOUT);
}

#[test]
fn cancel_acknowledgements_are_discarded() {
    let cqes = vec![
        Cqe { user_data: 1, result: 4 },
        Cqe { user_data: CANCEL, result: 0 },
        Cqe { user_data: 2, result: -5 },
    ];
    let mut entries: Vec<Entry> = Vec::new();
    poll_entries(&cqes, &mut entries);
    assert_eq!(entries.len(), 2);
    assert_eq!(entries[0].user_data(), 1);
    assert_eq!(entries[1].user_data(), 2);
}
