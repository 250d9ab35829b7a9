//! Token-bucket rate limiter.
//!
//! A [`Limiter`] owns the token ledger: `capacity` tokens replenish one
//! per `interval_ns` nanoseconds, and every request debits its count
//! immediately, going into debt when more tokens are asked for than are
//! available. The wait owed for a debt is computed once, exactly, and
//! handed back to the caller, which performs the actual sleep. A
//! [`Handle`] is a cloneable cross-thread proxy: it sends the request to
//! the owning loop over a channel and blocks for the reply, so all
//! grants are serialized by the single consumer of that channel.

use std::sync::mpsc::{Receiver, Sender, SyncSender};
use vstd::prelude::*;

verus! {

#[verifier::external_type_specification]
#[verifier::external_body]
#[verifier::reject_recursive_types(T)]
pub struct ExSender<T>(Sender<T>);

#[verifier::external_type_specification]
#[verifier::external_body]
#[verifier::reject_recursive_types(T)]
pub struct ExSyncSender<T>(SyncSender<T>);

#[verifier::external_type_specification]
#[verifier::external_body]
#[verifier::reject_recursive_types(T)]
pub struct ExReceiver<T>(Receiver<T>);

/// Relies on std::sync::mpsc::sync_channel: returns a connected
/// bounded sender/receiver pair with queue depth `bound`.
#[verifier::external_body]
fn new_sync_channel<T>(bound: usize) -> (SyncSender<T>, Receiver<T>) {
    std::sync::mpsc::sync_channel(bound)
}

/// Relies on std::sync::mpsc::channel: returns a connected unbounded
/// sender/receiver pair.
#[verifier::external_body]
fn new_channel<T>() -> (Sender<T>, Receiver<T>) {
    std::sync::mpsc::channel()
}

/// Relies on SyncSender::send: delivers `msg` to the receiving end.
/// Aborts the process when the receiver is gone — the deliberate
/// fail-fast for a limiter whose serving loop has terminated.
#[verifier::external_body]
fn send_or_abort<T>(tx: &SyncSender<T>, msg: T) {
    tx.send(msg).expect("the limiter's serving loop is gone");
}

/// Relies on Sender::send: delivers `msg`, reporting whether the
/// receiving end was still connected.
#[verifier::external_body]
fn reply_send<T>(tx: &Sender<T>, msg: T) -> bool {
    tx.send(msg).is_ok()
}

/// Relies on Receiver::recv: blocks until a message arrives. Aborts
/// the process when the sending end is gone — the deliberate fail-fast
/// for a limiter whose serving loop has terminated.
#[verifier::external_body]
fn recv_or_abort<T>(rx: &Receiver<T>) -> T {
    rx.recv().expect("no response from the limiter's serving loop")
}

/// Relies on Receiver::try_recv: takes a pending message without
/// blocking, or reports that none is queued.
#[verifier::external_body]
fn try_recv_pending<T>(rx: &Receiver<T>) -> Option<T> {
    rx.try_recv().ok()
}

/// Relies on SyncSender::clone: a second sending endpoint to the same
/// receiver.
#[verifier::external_body]
fn clone_sync_sender<T>(tx: &SyncSender<T>) -> SyncSender<T> {
    tx.clone()
}

/// A token request as the limiter's serving loop receives it: how many
/// tokens the caller wants, and the channel on which to reply with the
/// wait owed (`None` when no wait is needed).
pub struct TokenRequest {
    pub count: usize,
    pub reply: Sender<Option<u64>>,
}

/// The mathematical state of a limiter: its token ledger.
pub struct LimiterModel {
    pub capacity: int,
    pub available: int,
    pub interval_ns: int,
}

impl LimiterModel {
    /// The ledger invariant: at least one token of capacity, the fields
    /// within their machine ranges, and never more tokens available
    /// than the capacity allows.
    pub open spec fn wf(self) -> bool {
        &&& 1 <= self.capacity <= i64::MAX
        &&& i64::MIN <= self.available <= self.capacity
        &&& 0 <= self.interval_ns <= u64::MAX
    }
}

/// Debiting `count` tokens from a ledger holding `available`: an exact
/// subtraction, saturating at the bottom of the signed machine range
/// (counts beyond that range are clamped the same way).
pub open spec fn spec_take(available: int, count: int) -> int {
    let c = if count > i64::MAX { i64::MAX as int } else { count };
    if available - c < i64::MIN {
        i64::MIN as int
    } else {
        available - c
    }
}

/// The wait owed for a debt of `debt` tokens, `elapsed_ns` nanoseconds
/// after the last replenishment tick: `interval_ns * debt` reduced by
/// the time already elapsed, `None` once the elapsed time covers the
/// whole delay. The product saturates at the machine maximum.
pub open spec fn spec_wait_ns(interval_ns: int, debt: int, elapsed_ns: int) -> Option<u64> {
    let product = if interval_ns * debt > u64::MAX {
        u64::MAX as int
    } else {
        interval_ns * debt
    };
    if elapsed_ns <= product {
        Some((product - elapsed_ns) as u64)
    } else {
        None
    }
}

/// One request against the ledger: debit the count, and owe a wait
/// exactly when the ledger went negative.
pub open spec fn spec_request(m: LimiterModel, count: int, elapsed_ns: int) -> (
    LimiterModel,
    Option<u64>,
) {
    let taken = LimiterModel { available: spec_take(m.available, count), ..m };
    if taken.available < 0 {
        (taken, spec_wait_ns(m.interval_ns, -taken.available, elapsed_ns))
    } else {
        (taken, None)
    }
}

/// One replenishment tick: one token back, capped at the capacity.
pub open spec fn spec_tick(m: LimiterModel) -> LimiterModel {
    LimiterModel {
        available: if m.available + 1 <= m.capacity {
            m.available + 1
        } else {
            m.capacity
        },
        ..m
    }
}

/// The ledger after `n` replenishment ticks.
pub open spec fn spec_tick_n(m: LimiterModel, n: nat) -> LimiterModel
    decreases n,
{
    if n == 0 {
        m
    } else {
        spec_tick(spec_tick_n(m, (n - 1) as nat))
    }
}

/// Replenishment never raises `available` above `capacity`, for any
/// number of ticks.
pub proof fn lemma_ticks_capped(m: LimiterModel, n: nat)
    requires
        m.available <= m.capacity,
    ensures
        spec_tick_n(m, n).available <= m.capacity,
        spec_tick_n(m, n).capacity == m.capacity,
        spec_tick_n(m, n).interval_ns == m.interval_ns,
    decreases n,
{
    if n > 0 {
        lemma_ticks_capped(m, (n - 1) as nat);
    }
}

/// No wait is owed when the requested tokens are already there: a
/// request for `count <= capacity` tokens made while the full capacity
/// is available is granted immediately.
pub proof fn lemma_immediate_grant(m: LimiterModel, count: int, elapsed_ns: int)
    requires
        m.wf(),
        m.available == m.capacity,
        0 <= count <= m.capacity,
    ensures
        spec_request(m, count, elapsed_ns).1 is None,
        spec_request(m, count, elapsed_ns).0.available >= 0,
{
}

/// For a request that outruns the available tokens, the wait owed is
/// `interval_ns * (count - available)` reduced by the elapsed time and
/// clamped to zero: `None` (or zero) once enough time has passed, and
/// never negative by construction.
pub proof fn lemma_debt_wait(m: LimiterModel, count: int, elapsed_ns: int)
    requires
        m.wf(),
        0 <= count <= i64::MAX,
        count > m.available,
        m.available - count >= i64::MIN,
        m.interval_ns * (count - m.available) <= u64::MAX,
        0 <= elapsed_ns <= u64::MAX,
    ensures
        elapsed_ns <= m.interval_ns * (count - m.available) ==> spec_request(
            m,
            count,
            elapsed_ns,
        ).1 == Some((m.interval_ns * (count - m.available) - elapsed_ns) as u64),
        elapsed_ns > m.interval_ns * (count - m.available) ==> spec_request(
            m,
            count,
            elapsed_ns,
        ).1 is None,
{
}

/// The sum of a sequence of token counts.
pub open spec fn sum_counts(counts: Seq<int>) -> int
    decreases counts.len(),
{
    if counts.len() == 0 {
        0
    } else {
        counts[0] + sum_counts(counts.drop_first())
    }
}

/// The ledger after serving a sequence of requests in arrival order,
/// as the single consumer of the request channel does.
pub open spec fn spec_serve_all(m: LimiterModel, counts: Seq<int>) -> LimiterModel
    decreases counts.len(),
{
    if counts.len() == 0 {
        m
    } else {
        spec_serve_all(spec_request(m, counts[0], 0).0, counts.drop_first())
    }
}

/// A sum of nonnegative counts is nonnegative.
pub proof fn lemma_sum_counts_nonneg(counts: Seq<int>)
    requires
        forall|i: int| 0 <= i < counts.len() ==> counts[i] >= 0,
    ensures
        sum_counts(counts) >= 0,
    decreases counts.len(),
{
    if counts.len() > 0 {
        lemma_sum_counts_nonneg(counts.drop_first());
    }
}

/// Serialized grants are never double-counted: serving any sequence of
/// requests in order debits the ledger by exactly the sum of the
/// requested counts — the tokens granted across all waiting callers in
/// a window equal the tokens taken from that window.
pub proof fn lemma_serialized_grants(m: LimiterModel, counts: Seq<int>)
    requires
        m.wf(),
        forall|i: int| 0 <= i < counts.len() ==> 0 <= #[trigger] counts[i] <= i64::MAX,
        m.available - sum_counts(counts) >= i64::MIN,
    ensures
        spec_serve_all(m, counts).available == m.available - sum_counts(counts),
        spec_serve_all(m, counts).capacity == m.capacity,
        spec_serve_all(m, counts).interval_ns == m.interval_ns,
    decreases counts.len(),
{
    if counts.len() > 0 {
        let rest = counts.drop_first();
        lemma_sum_counts_nonneg(rest);
        let m1 = spec_request(m, counts[0], 0).0;
        assert(m1.available == m.available - counts[0]);
        lemma_serialized_grants(m1, rest);
    }
}

/// The wait owed for `debt` tokens when `elapsed_ns` nanoseconds have
/// already passed since the last replenishment tick.
pub fn wait_duration_ns(interval_ns: u64, debt: u64, elapsed_ns: u64) -> (r: Option<u64>)
    ensures
        r == spec_wait_ns(interval_ns as int, debt as int, elapsed_ns as int),
{
    let product = interval_ns.checked_mul(debt).unwrap_or(u64::MAX);
    if elapsed_ns <= product {
        Some(product - elapsed_ns)
    } else {
        None
    }
}

/// A token-bucket rate limiter. The ledger is owned by a single
/// context; other threads reach it only through a [`Handle`] and the
/// request channel, so grants are strictly serialized.
pub struct Limiter {
    capacity: usize,
    available: i64,
    interval_ns: u64,
    tx: SyncSender<TokenRequest>,
    rx: Receiver<TokenRequest>,
}

impl View for Limiter {
    type V = LimiterModel;

    closed spec fn view(&self) -> LimiterModel {
        LimiterModel {
            capacity: self.capacity as int,
            available: self.available as int,
            interval_ns: self.interval_ns as int,
        }
    }
}

impl Limiter {
    /// The ledger invariant, carried by every limiter this module hands
    /// out.
    pub open spec fn wf(self) -> bool {
        self@.wf()
    }

    /// A fresh limiter replenishing one token per `interval_ns`
    /// nanoseconds, with a capacity of one token and that token
    /// available.
    pub fn new(interval_ns: u64) -> (r: Limiter)
        ensures
            r.wf(),
            r@.capacity == 1,
            r@.available == 1,
            r@.interval_ns == interval_ns,
    {
        let (tx, rx) = new_sync_channel(1);
        Limiter { capacity: 1, available: 1, interval_ns, tx, rx }
    }

    /// Request `count` tokens, `elapsed_ns` nanoseconds after the last
    /// replenishment tick: the count is debited at once and the result
    /// is the wait the caller owes before the tokens are truly
    /// available — `None` when they already are.
    pub fn request(&mut self, count: usize, elapsed_ns: u64) -> (r: Option<u64>)
        requires
            old(self).wf(),
        ensures
            final(self).wf(),
            (final(self)@, r) == spec_request(old(self)@, count as int, elapsed_ns as int),
    {
        let c: i64 = if count as u64 > i64::MAX as u64 {
            i64::MAX
        } else {
            count as i64
        };
        self.available = if self.available >= i64::MIN + c {
            self.available - c
        } else {
            i64::MIN
        };
        if self.available < 0 {
            let debt: u64 = if self.available == i64::MIN {
                9223372036854775808u64
            } else {
                (-self.available) as u64
            };
            wait_duration_ns(self.interval_ns, debt, elapsed_ns)
        } else {
            None
        }
    }

    /// Request a single token; the result is the wait the caller owes.
    pub fn wait(&mut self, elapsed_ns: u64) -> (r: Option<u64>)
        requires
            old(self).wf(),
        ensures
            final(self).wf(),
            (final(self)@, r) == spec_request(old(self)@, 1, elapsed_ns as int),
    {
        self.wait_for(1, elapsed_ns)
    }

    /// Request `count` tokens; the result is the wait the caller owes.
    pub fn wait_for(&mut self, count: usize, elapsed_ns: u64) -> (r: Option<u64>)
        requires
            old(self).wf(),
        ensures
            final(self).wf(),
            (final(self)@, r) == spec_request(old(self)@, count as int, elapsed_ns as int),
    {
        self.request(count, elapsed_ns)
    }

    /// One replenishment tick: one token back, capped at the capacity.
    pub fn replenish(&mut self)
        requires
            old(self).wf(),
        ensures
            final(self).wf(),
            final(self)@ == spec_tick(old(self)@),
            final(self)@.available <= final(self)@.capacity,
    {
        let cap = self.capacity as i64;
        if self.available < cap {
            self.available = self.available + 1;
        }
    }

    /// One non-blocking service step of the owning loop: take one
    /// pending cross-thread request if any is queued, debit its count,
    /// and reply with the wait it owes. Returns whether a request was
    /// served. The ledger never grows here, and which request arrives
    /// (if any) is up to the channel.
    pub fn serve_pending(&mut self, elapsed_ns: u64) -> (served: bool)
        requires
            old(self).wf(),
        ensures
            final(self).wf(),
            final(self)@.capacity == old(self)@.capacity,
            final(self)@.interval_ns == old(self)@.interval_ns,
            final(self)@.available <= old(self)@.available,
            !served ==> final(self)@ == old(self)@,
            served ==> exists|c: int|
                0 <= c && final(self)@ == spec_request(old(self)@, c, elapsed_ns as int).0,
    {
        match try_recv_pending(&self.rx) {
            Some(req) => {
                let count = req.count;
                let dur = self.request(count, elapsed_ns);
                let _ = reply_send(&req.reply, dur);
                proof {
                    assert(self@ == spec_request(old(self)@, count as int, elapsed_ns as int).0);
                }
                true
            },
            None => false,
        }
    }

    /// A cloneable cross-thread proxy to this limiter's request
    /// channel.
    pub fn get_handle(&self) -> Handle {
        Handle { tx: clone_sync_sender(&self.tx) }
    }

    /// The tokens currently available; negative is accumulated debt.
    pub fn available(&self) -> (r: i64)
        ensures
            r == self@.available,
    {
        self.available
    }

    /// The burst capacity.
    pub fn capacity(&self) -> (r: usize)
        ensures
            r == self@.capacity,
    {
        self.capacity
    }

    /// The replenishment period, in nanoseconds.
    pub fn interval_ns(&self) -> (r: u64)
        ensures
            r == self@.interval_ns,
    {
        self.interval_ns
    }
}

/// A cheap, cloneable proxy to a [`Limiter`]'s request channel. Each
/// request is a blocking round trip to the owning loop; the caller then
/// sleeps for whatever wait came back, outside the loop's critical
/// section.
pub struct Handle {
    tx: SyncSender<TokenRequest>,
}

impl Handle {
    /// Request a single token from the owning loop; the result is the
    /// wait this caller owes before proceeding.
    pub fn wait(&self) -> Option<u64> {
        self.wait_for(1)
    }

    /// Request `count` tokens from the owning loop; the result is the
    /// wait this caller owes before proceeding.
    pub fn wait_for(&self, count: usize) -> Option<u64> {
        self.request(count)
    }

    /// The blocking round trip: send the request, block on a private
    /// reply channel for the wait the loop computed. What comes back is
    /// decided by the loop's ledger at serving time, not by this call's
    /// arguments alone, so nothing more can be promised of it. Aborts
    /// if the owning loop has terminated.
    pub fn request(&self, count: usize) -> Option<u64> {
        let (reply_tx, reply_rx) = new_channel();
        send_or_abort(&self.tx, TokenRequest { count, reply: reply_tx });
        recv_or_abort(&reply_rx)
    }

    /// A second proxy to the same limiter.
    pub fn duplicate(&self) -> Handle {
        Handle { tx: clone_sync_sender(&self.tx) }
    }
}

} // verus!
