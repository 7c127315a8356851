//! The io_uring backend driver: the state machine that turns registered
//! operations into kernel submission entries and kernel completions into
//! user-visible results.
//!
//! The kernel ring itself is reached through the [`Ring`] trait: the
//! surrounding runtime hands the prepared submission entries to the kernel
//! and hands raw completion records back. Everything the backend decides —
//! what is flushed, in which order, how results are translated — is here.
use vstd::prelude::*;

use std::collections::VecDeque;

use io_uring::squeue;

use crate::driver::Entry;
use crate::op::{async_cancel_sqe, OpCode};
use crate::registry::{RawOp, Registry};

verus! {

/// Reserved identifier tagging asynchronous-cancel submissions, so their
/// acknowledgements can be told apart from user completions. A user
/// operation never receives this identifier.
pub const CANCEL: usize = usize::MAX;

/// The kernel's errno for "resource temporarily unavailable".
pub const EAGAIN: i64 = 11;

/// The kernel's errno for "device or resource busy".
pub const EBUSY: i64 = 16;

/// The kernel's errno for "timer expired".
pub const ETIME: i64 = 62;

/// The kernel's errno for "connection timed out".
pub const ETIMEDOUT: i64 = 110;

/// The kernel's errno for "operation canceled".
pub const ECANCELED: i64 = 125;

/// A raw completion record read off the kernel completion ring: the
/// user-data tag and the raw kernel result.
#[derive(Clone, Copy, Debug)]
pub struct Cqe {
    /// The user-data tag carried from the submission.
    pub user_data: usize,
    /// The raw kernel result: nonnegative on success, a negated errno on
    /// failure.
    pub result: i32,
}

/// How a raw kernel completion becomes a user-visible entry: a nonnegative
/// result is the operation's count; a negative result is the negated errno,
/// with "canceled" remapped to "timed out" because the primary in-library
/// use of cancellation is deadline enforcement.
pub open spec fn translate_cqe(c: Cqe) -> Entry {
    if c.result >= 0 {
        Entry { user_data: c.user_data, result: Ok(c.result as usize) }
    } else if c.result as int == -(ECANCELED as int) {
        Entry { user_data: c.user_data, result: Err(ETIMEDOUT) }
    } else {
        Entry { user_data: c.user_data, result: Err((-(c.result as int)) as i64) }
    }
}

/// Translate one raw completion record.
pub fn create_entry(c: Cqe) -> (r: Entry)
    ensures
        r == translate_cqe(c),
{
    if c.result >= 0 {
        Entry { user_data: c.user_data, result: Ok(c.result as usize) }
    } else if (c.result as i64) == -ECANCELED {
        Entry { user_data: c.user_data, result: Err(ETIMEDOUT) }
    } else {
        Entry { user_data: c.user_data, result: Err(-(c.result as i64)) }
    }
}

/// The user-visible entries among a batch of raw completions: cancel
/// acknowledgements are discarded, everything else is translated, in order.
pub open spec fn completed_of(cqes: Seq<Cqe>) -> Seq<Entry>
    decreases cqes.len(),
{
    if cqes.len() == 0 {
        Seq::<Entry>::empty()
    } else {
        let rest = completed_of(cqes.drop_last());
        if cqes.last().user_data != CANCEL {
            rest.push(translate_cqe(cqes.last()))
        } else {
            rest
        }
    }
}

/// No translated entry carries the reserved cancel tag: raw records so
/// tagged are discarded before translation, and translation keeps the tag
/// of every other record.
pub proof fn lemma_completed_of_no_cancel(cqes: Seq<Cqe>)
    ensures
        forall|i: int|
            0 <= i < completed_of(cqes).len() ==> (#[trigger] completed_of(cqes)[i]).user_data
                != CANCEL,
    decreases cqes.len(),
{
    if cqes.len() > 0 {
        lemma_completed_of_no_cancel(cqes.drop_last());
    }
}

/// Translate a batch of raw completions and append the user-visible entries
/// to `entries`, discarding cancel acknowledgements.
pub fn poll_entries(cqes: &Vec<Cqe>, entries: &mut Vec<Entry>)
    ensures
        final(entries)@ == old(entries)@ + completed_of(cqes@),
{
    let ghost entries0 = entries@;
    let mut i: usize = 0;
    while i < cqes.len()
        invariant
            i <= cqes@.len(),
            entries@ == entries0 + completed_of(cqes@.take(i as int)),
        decreases cqes@.len() - i,
    {
        let c = cqes[i];
        if c.user_data != CANCEL {
            entries.push(create_entry(c));
        }
        i = i + 1;
        proof {
            assert(cqes@.take(i as int).drop_last() =~= cqes@.take(i as int - 1));
            assert(cqes@.take(i as int).last() == cqes@[i as int - 1]);
        }
    }
    proof {
        assert(cqes@.take(cqes@.len() as int) =~= cqes@);
    }
}

/// A duration handed to the kernel's submit-and-wait.
#[derive(Clone, Copy, Debug, PartialEq, Eq, Structural)]
pub struct TimeSpec {
    /// Whole seconds.
    pub sec: u64,
    /// Additional nanoseconds.
    pub nsec: u32,
}

/// How one submission round asks the kernel to wait.
#[derive(Clone, Copy, Debug, PartialEq, Eq, Structural)]
pub enum SubmitKind {
    /// Submit and wait for at least one completion, up to the timeout.
    WaitTimeout(TimeSpec),
    /// Submit and wait for at least one completion.
    Wait,
    /// Submit without waiting.
    NoWait,
}

/// A submission entry prepared for the kernel ring: the opaque payload the
/// opcode built, and the identifier tag the kernel will pass through to the
/// matching completion. The runtime stamps `user_data` onto the payload
/// before pushing it.
pub struct PreparedEntry {
    /// The identifier tag; `CANCEL` for asynchronous-cancel entries.
    pub user_data: usize,
    /// The opaque kernel submission payload.
    pub sqe: squeue::Entry,
}

/// The kernel completion interface as the backend consumes it. The
/// surrounding runtime implements this over a real kernel ring; nothing is
/// assumed of it, so every guarantee of the backend holds whatever the
/// kernel does.
pub trait Ring {
    /// How many submission entries the ring can currently accept. A ring
    /// always has room for at least one entry when asked: everything pushed
    /// before is submitted by then.
    fn sq_space(&mut self) -> (r: usize)
        ensures
            r >= 1,
    ;

    /// Push prepared entries onto the submission ring; the caller hands in
    /// no more than the last reported space.
    fn push_sqes(&mut self, sqes: Vec<PreparedEntry>);

    /// Ask the kernel to submit, optionally waiting for a completion.
    /// Returns the number of entries submitted, or a positive errno value.
    fn submit(&mut self, kind: SubmitKind) -> Result<usize, i64>;

    /// Move the raw records currently on the completion ring into `out`.
    fn drain_cqes(&mut self, out: &mut Vec<Cqe>);
}

/// How many of `len` queued items a round with `space` free ring slots
/// takes.
pub open spec fn take_count(len: nat, space: nat) -> nat {
    if len < space {
        len
    } else {
        space
    }
}

/// Low-level driver of the io_uring backend: the staging queue of
/// registered identifiers awaiting submission and the queue of pending
/// cancellation requests.
pub struct Driver {
    squeue: VecDeque<usize>,
    cancel_queue: VecDeque<usize>,
    entries: u32,
}

impl Driver {
    /// Identifiers staged for submission, in order.
    pub closed spec fn squeue_spec(&self) -> Seq<usize> {
        self.squeue@
    }

    /// Identifiers whose submissions are to be countermanded, in order.
    pub closed spec fn cancel_spec(&self) -> Seq<usize> {
        self.cancel_queue@
    }

    /// The configured kernel ring size.
    pub closed spec fn entries_spec(&self) -> u32 {
        self.entries
    }

    /// The configured kernel ring size.
    pub fn entries(&self) -> (r: u32)
        ensures
            r == self.entries_spec(),
    {
        self.entries
    }

    /// A driver with empty queues, for a kernel ring of `entries` slots.
    pub fn new(entries: u32) -> (r: Self)
        ensures
            r.squeue_spec() == Seq::<usize>::empty(),
            r.cancel_spec() == Seq::<usize>::empty(),
            r.entries_spec() == entries,
    {
        Driver { squeue: VecDeque::new(), cancel_queue: VecDeque::new(), entries }
    }

    /// Register a kernel handle with the backend: a no-op here, the ring
    /// needs no per-handle registration.
    pub fn attach(&mut self, _fd: i32) -> (r: Result<(), i64>)
        ensures
            r is Ok,
            *final(self) == *old(self),
    {
        Ok(())
    }

    /// Stage the registered identifier `user_data` for submission.
    pub fn push(&mut self, user_data: usize)
        ensures
            final(self).squeue_spec() == old(self).squeue_spec().push(user_data),
            final(self).cancel_spec() == old(self).cancel_spec(),
            final(self).entries_spec() == old(self).entries_spec(),
    {
        self.squeue.push_back(user_data);
    }

    /// Request cancellation of the operation submitted under `user_data`.
    pub fn cancel(&mut self, user_data: usize)
        ensures
            final(self).cancel_spec() == old(self).cancel_spec().push(user_data),
            final(self).squeue_spec() == old(self).squeue_spec(),
            final(self).entries_spec() == old(self).entries_spec(),
    {
        self.cancel_queue.push_back(user_data);
    }

    /// Drain the local queues into at most `space` prepared submission
    /// entries: first the staged user submissions, in order, each tagged
    /// with its identifier, then the pending cancellations, each tagged
    /// `CANCEL`. Returns the prepared entries and whether both queues were
    /// seen exhausted before the budget ran out.
    pub fn flush_submissions<O: OpCode>(
        &mut self,
        registry: &mut Registry<RawOp<O>>,
        space: usize,
    ) -> (r: (Vec<PreparedEntry>, bool))
        requires
            old(registry).wf(),
            forall|i: int|
                0 <= i < old(self).squeue_spec().len()
                    ==> old(registry).as_map().dom().contains(
                    #[trigger] old(self).squeue_spec()[i],
                ),
        ensures
            final(registry).wf(),
            final(registry).slot_count() == old(registry).slot_count(),
            final(registry).as_map().dom() == old(registry).as_map().dom(),
            final(self).entries_spec() == old(self).entries_spec(),
            ({
                let q = old(self).squeue_spec();
                let c = old(self).cancel_spec();
                let u = take_count(q.len(), space as nat);
                let k = take_count(c.len(), (space as nat - u) as nat);
                &&& final(self).squeue_spec() == q.skip(u as int)
                &&& final(self).cancel_spec() == c.skip(k as int)
                &&& r.0@.len() == u + k
                &&& forall|i: int| 0 <= i < u ==> (#[trigger] r.0@[i]).user_data == q[i]
                &&& forall|i: int| u <= i < u + k ==> (#[trigger] r.0@[i]).user_data == CANCEL
                &&& r.1 == ((q.len() < space as nat) && (c.len() < (space as nat - u) as nat))
            }),
    {
        let ghost q0 = self.squeue_spec();
        let ghost c0 = self.cancel_spec();
        let ghost dom0 = registry.as_map().dom();
        let ghost sc0 = registry.slot_count();
        let ghost e0 = self.entries_spec();
        let mut out: Vec<PreparedEntry> = Vec::new();
        let mut ended_ops = false;
        loop
            invariant
                registry.wf(),
                registry.as_map().dom() == dom0,
                registry.slot_count() == sc0,
                self.entries_spec() == e0,
                self.cancel_spec() == c0,
                out@.len() <= space,
                !ended_ops ==> out@.len() <= q0.len() && self.squeue_spec() == q0.skip(
                    out@.len() as int,
                ),
                ended_ops ==> out@.len() == q0.len() && q0.len() < space as nat
                    && self.squeue_spec().len() == 0,
                forall|i: int| 0 <= i < out@.len() ==> (#[trigger] out@[i]).user_data == q0[i],
                forall|i: int|
                    0 <= i < self.squeue_spec().len() ==> dom0.contains(
                        #[trigger] self.squeue_spec()[i],
                    ),
            ensures
                out@.len() == take_count(q0.len(), space as nat),
                ended_ops == (q0.len() < space as nat),
            decreases q0.len() - out@.len() + (if ended_ops { 0int } else { 1int }),
        {
            if out.len() >= space {
                break;
            }
            if ended_ops {
                break;
            }
            match self.squeue.pop_front() {
                Some(ud) => {
                    match registry.create_sqe(ud) {
                        Some(sqe) => {
                            out.push(PreparedEntry { user_data: ud, sqe });
                        },
                        None => {
                            // excluded: every staged identifier is registered
                            vstd::pervasive::unreached::<()>()
                        },
                    }
                },
                None => {
                    ended_ops = true;
                },
            }
        }
        let ghost u = take_count(q0.len(), space as nat);
        proof {
            assert(out@.len() == u);
            if ended_ops {
                assert(q0.skip(u as int) =~= self.squeue_spec());
            }
        }
        let mut ended_cancel = false;
        loop
            invariant
                registry.wf(),
                registry.as_map().dom() == dom0,
                registry.slot_count() == sc0,
                self.entries_spec() == e0,
                self.squeue_spec() == q0.skip(u as int),
                ended_ops == (q0.len() < space as nat),
                u <= out@.len() <= space,
                u == take_count(q0.len(), space as nat),
                !ended_cancel ==> out@.len() - u <= c0.len() && self.cancel_spec() == c0.skip(
                    out@.len() - u,
                ),
                ended_cancel ==> out@.len() - u == c0.len() && c0.len() < space as nat - u
                    && self.cancel_spec().len() == 0,
                forall|i: int| 0 <= i < u ==> (#[trigger] out@[i]).user_data == q0[i],
                forall|i: int| u <= i < out@.len() ==> (#[trigger] out@[i]).user_data == CANCEL,
                forall|i: int|
                    0 <= i < self.squeue_spec().len() ==> dom0.contains(
                        #[trigger] self.squeue_spec()[i],
                    ),
            ensures
                out@.len() - u == take_count(c0.len(), (space as nat - u) as nat),
                ended_cancel == (c0.len() < space as nat - u),
            decreases c0.len() - (out@.len() - u) + (if ended_cancel { 0int } else { 1int }),
        {
            if out.len() >= space {
                break;
            }
            if ended_cancel {
                break;
            }
            match self.cancel_queue.pop_front() {
                Some(target) => {
                    out.push(PreparedEntry { user_data: CANCEL, sqe: async_cancel_sqe(target) });
                },
                None => {
                    ended_cancel = true;
                },
            }
        }
        proof {
            let k = take_count(c0.len(), (space as nat - u) as nat);
            assert(out@.len() - u == k);
            if ended_cancel {
                assert(c0.skip(k as int) =~= self.cancel_spec());
            }
        }
        (out, ended_ops && ended_cancel)
    }
}

/// The wait the auto policy asks of one submission round: wait only when
/// the local queues were fully drained (more pending submissions forbid
/// blocking); with a timeout, wait that long; a zero timeout is a pure
/// non-blocking poll, so it never waits; without a timeout, wait until a
/// completion arrives.
pub open spec fn auto_kind(timeout: Option<TimeSpec>, wait: bool) -> SubmitKind {
    if wait {
        match timeout {
            Some(ts) => if ts.sec == 0 && ts.nsec == 0 {
                SubmitKind::NoWait
            } else {
                SubmitKind::WaitTimeout(ts)
            },
            None => SubmitKind::Wait,
        }
    } else {
        SubmitKind::NoWait
    }
}

/// Choose the wait of one submission round. The result is exactly what is
/// handed to the kernel.
pub fn choose_submit_kind(timeout: Option<TimeSpec>, wait: bool) -> (r: SubmitKind)
    ensures
        r == auto_kind(timeout, wait),
{
    if wait {
        match timeout {
            Some(ts) => {
                if ts.sec == 0 && ts.nsec == 0 {
                    SubmitKind::NoWait
                } else {
                    SubmitKind::WaitTimeout(ts)
                }
            },
            None => SubmitKind::Wait,
        }
    } else {
        SubmitKind::NoWait
    }
}

/// How one kernel submit result surfaces: success passes through; "timer
/// expired" becomes the timed-out error; "busy" and "try again" are normal
/// back-pressure, absorbed as success so the next round retries; every
/// other error propagates verbatim.
pub open spec fn translated_submit(res: Result<usize, i64>) -> Result<usize, i64> {
    match res {
        Ok(n) => Ok(n),
        Err(e) => if e == ETIME {
            Err(ETIMEDOUT)
        } else if e == EBUSY || e == EAGAIN {
            Ok(0)
        } else {
            Err(e)
        },
    }
}

/// Translate one kernel submit result.
pub fn finish_submit(res: Result<usize, i64>) -> (r: Result<usize, i64>)
    ensures
        r == translated_submit(res),
{
    match res {
        Ok(n) => Ok(n),
        Err(e) => {
            if e == ETIME {
                Err(ETIMEDOUT)
            } else if e == EBUSY || e == EAGAIN {
                Ok(0)
            } else {
                Err(e)
            }
        },
    }
}

/// One submission round: hand the kernel the wait that [`auto_kind`]
/// chooses and surface its result through [`translated_submit`]. What the
/// kernel answers is its own; whatever it answers, the result carries no
/// absorbed transient condition and no raw timer expiry.
pub fn submit_auto<R: Ring>(ring: &mut R, timeout: Option<TimeSpec>, wait: bool) -> (r: Result<
    usize,
    i64,
>)
    ensures
        r matches Err(e) ==> e != EBUSY && e != EAGAIN && e != ETIME,
        exists|res: Result<usize, i64>| r == translated_submit(res),
{
    let kind = choose_submit_kind(timeout, wait);
    let res = ring.submit(kind);
    finish_submit(res)
}

impl Driver {
    /// Advance the I/O state machine: flush local queues to the ring,
    /// submit with the wait [`auto_kind`] chooses (a zero timeout never
    /// waits), and collect completions, until everything pending has been
    /// handed to the kernel. On success both local queues are empty — no
    /// staged work is lost, however small the ring — and on an error each
    /// queue keeps the suffix not yet handed over. No collected entry
    /// carries the reserved `CANCEL` tag. An error is a positive errno
    /// value, never the absorbed transient conditions.
    pub fn poll<O: OpCode, R: Ring>(
        &mut self,
        timeout: Option<TimeSpec>,
        ring: &mut R,
        registry: &mut Registry<RawOp<O>>,
        entries: &mut Vec<Entry>,
    ) -> (r: Result<(), i64>)
        requires
            old(registry).wf(),
            forall|i: int|
                0 <= i < old(self).squeue_spec().len()
                    ==> old(registry).as_map().dom().contains(
                    #[trigger] old(self).squeue_spec()[i],
                ),
        ensures
            final(registry).wf(),
            final(registry).slot_count() == old(registry).slot_count(),
            final(registry).as_map().dom() == old(registry).as_map().dom(),
            final(self).entries_spec() == old(self).entries_spec(),
            r is Ok ==> final(self).squeue_spec().len() == 0 && final(self).cancel_spec().len()
                == 0,
            r matches Err(e) ==> e != EBUSY && e != EAGAIN && e != ETIME,
            final(entries)@.subrange(0, old(entries)@.len() as int) == old(entries)@,
            forall|i: int|
                old(entries)@.len() <= i < final(entries)@.len()
                    ==> (#[trigger] final(entries)@[i]).user_data != CANCEL,
            exists|k: int|
                0 <= k <= old(self).squeue_spec().len() && final(self).squeue_spec()
                    == #[trigger] old(self).squeue_spec().skip(k),
            exists|k: int|
                0 <= k <= old(self).cancel_spec().len() && final(self).cancel_spec()
                    == #[trigger] old(self).cancel_spec().skip(k),
            forall|i: int|
                0 <= i < final(self).squeue_spec().len()
                    ==> final(registry).as_map().dom().contains(
                    #[trigger] final(self).squeue_spec()[i],
                ),
    {
        let ghost dom0 = registry.as_map().dom();
        let ghost sc0 = registry.slot_count();
        let ghost e0 = self.entries_spec();
        let ghost entries0 = entries@;
        let ghost q0 = self.squeue_spec();
        let ghost c0 = self.cancel_spec();
        let ghost mut tq: int = 0;
        let ghost mut tc: int = 0;
        proof {
            assert(entries0.subrange(0, entries0.len() as int) =~= entries0);
            assert(q0.skip(0) =~= q0);
            assert(c0.skip(0) =~= c0);
        }
        loop
            invariant
                dom0 == old(registry).as_map().dom(),
                sc0 == old(registry).slot_count(),
                e0 == old(self).entries_spec(),
                entries0 == old(entries)@,
                q0 == old(self).squeue_spec(),
                c0 == old(self).cancel_spec(),
                registry.wf(),
                registry.as_map().dom() == dom0,
                registry.slot_count() == sc0,
                self.entries_spec() == e0,
                0 <= tq <= q0.len(),
                0 <= tc <= c0.len(),
                self.squeue_spec() == q0.skip(tq),
                self.cancel_spec() == c0.skip(tc),
                forall|i: int|
                    0 <= i < self.squeue_spec().len() ==> dom0.contains(
                        #[trigger] self.squeue_spec()[i],
                    ),
                entries@.len() >= entries0.len() && entries@.subrange(0, entries0.len() as int)
                    == entries0,
                forall|i: int|
                    entries0.len() <= i < entries@.len() ==> (#[trigger] entries@[i]).user_data
                        != CANCEL,
            decreases self.squeue_spec().len() + self.cancel_spec().len(),
        {
            let space = ring.sq_space();
            let flushed = self.flush_submissions(registry, space);
            let ended = flushed.1;
            proof {
                let u = take_count(q0.skip(tq).len(), space as nat);
                assert(q0.skip(tq + u as int) =~= q0.skip(tq).skip(u as int));
                tq = tq + u as int;
                let k = take_count(c0.skip(tc).len(), (space as nat - u) as nat);
                assert(c0.skip(tc + k as int) =~= c0.skip(tc).skip(k as int));
                tc = tc + k as int;
            }
            ring.push_sqes(flushed.0);
            match submit_auto(ring, timeout, ended) {
                Ok(_) => {},
                Err(e) => {
                    return Err(e);
                },
            }
            let mut cqes: Vec<Cqe> = Vec::new();
            ring.drain_cqes(&mut cqes);
            let ghost pre = entries@;
            poll_entries(&cqes, entries);
            proof {
                assert(entries@.subrange(0, entries0.len() as int) =~= pre.subrange(
                    0,
                    entries0.len() as int,
                ));
                lemma_completed_of_no_cancel(cqes@);
                assert forall|i: int|
                    entries0.len() <= i < entries@.len() implies (#[trigger] entries@[i]).user_data
                        != CANCEL by {
                    if i >= pre.len() {
                        assert(entries@[i] == completed_of(cqes@)[i - pre.len()]);
                    }
                }
            }
            if ended {
                return Ok(());
            }
        }
    }
}

/// An in-memory completion interface: every user submission completes at
/// once with result `0`, and every cancel submission is acknowledged. It
/// drives the whole state machine without a kernel, the way a null device
/// answers reads and writes without moving bytes.
pub struct LoopbackRing {
    completed: Vec<Cqe>,
    space: usize,
}

impl LoopbackRing {
    /// A loopback interface whose submission ring offers `space` slots per
    /// round, at least one.
    pub fn new(space: usize) -> LoopbackRing {
        LoopbackRing { completed: Vec::new(), space: if space == 0 { 1 } else { space } }
    }
}

impl Ring for LoopbackRing {
    fn sq_space(&mut self) -> (r: usize) {
        if self.space == 0 {
            1
        } else {
            self.space
        }
    }

    fn push_sqes(&mut self, sqes: Vec<PreparedEntry>) {
        let mut i: usize = 0;
        while i < sqes.len()
            decreases sqes@.len() - i,
        {
            let user_data = sqes[i].user_data;
            self.completed.push(Cqe { user_data, result: 0 });
            i = i + 1;
        }
    }

    fn submit(&mut self, kind: SubmitKind) -> Result<usize, i64> {
        match kind {
            SubmitKind::WaitTimeout(_) => {
                // a bounded wait with nothing to complete expires
                if self.completed.len() == 0 {
                    Err(ETIME)
                } else {
                    Ok(self.completed.len())
                }
            },
            _ => Ok(self.completed.len()),
        }
    }

    fn drain_cqes(&mut self, out: &mut Vec<Cqe>) {
        out.append(&mut self.completed);
    }
}

} // verus!
