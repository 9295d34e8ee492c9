//! The shared-memory wire format between the Wine-hosted embedder and the
//! Linux bridge: timestamps split into plain integers, and the fixed-size
//! message ring both sides exchange encoded messages through.

use vstd::prelude::*;
use std::time::{Duration, SystemTime};

verus! {

/// Max encoded message size, including the 4-byte length prefix.
pub const SLOT_SIZE: usize = 128;
/// Payload bytes a slot can hold.
pub const SLOT_PAYLOAD: usize = SLOT_SIZE - 4;
/// Ring capacity, in messages.
pub const RING_CAPACITY: usize = 16384;

#[verifier::external_type_specification]
#[verifier::external_body]
pub struct ExSystemTime(SystemTime);

/// `t.duration_since(UNIX_EPOCH)`, or `None` when `t` lies before the epoch
/// (std's `SystemTime::duration_since`). Nothing is stated of the duration:
/// a `SystemTime` is opaque here.
#[verifier::external_body]
fn duration_since_epoch(t: SystemTime) -> Option<Duration> {
    t.duration_since(std::time::UNIX_EPOCH).ok()
}

/// Whole seconds of a duration (std's `Duration::as_secs`).
#[verifier::external_body]
fn duration_as_secs(d: &Duration) -> u64 {
    d.as_secs()
}

/// Fractional part of a duration in nanoseconds (std's
/// `Duration::subsec_nanos`), which its documentation bounds below one
/// second.
#[verifier::external_body]
fn duration_subsec_nanos(d: &Duration) -> (n: u32)
    ensures
        n < 1_000_000_000,
{
    d.subsec_nanos()
}

/// `Duration::new(secs, nanos)`, which std documents to panic only when
/// the carry from the nanoseconds overflows the seconds.
#[verifier::external_body]
fn duration_new(secs: u64, nanos: u32) -> Duration
    requires
        secs as int + nanos as int / 1_000_000_000 <= u64::MAX,
{
    Duration::new(secs, nanos)
}

/// `UNIX_EPOCH.checked_add(d)` (std's `SystemTime::checked_add`): `None`
/// when the platform cannot represent the result. Which times a platform
/// can represent, std leaves to the platform, so nothing is stated of it.
#[verifier::external_body]
fn epoch_checked_add(d: Duration) -> Option<SystemTime> {
    std::time::UNIX_EPOCH.checked_add(d)
}

/// A hardware timestamp split into seconds and nanoseconds since the Unix
/// epoch, so it can cross the wire.
#[derive(Debug, Clone, Copy, PartialEq, Eq)]
pub struct WireTimestamp {
    pub secs: u64,
    pub nanos: u32,
}

/// The timestamp for a time `since` after the epoch, as whole seconds and
/// the nanoseconds beyond them; a time before the epoch becomes zero.
pub open spec fn since_epoch_timestamp(since: Option<(u64, u32)>) -> WireTimestamp {
    match since {
        Some((s, n)) => WireTimestamp { secs: s, nanos: n },
        None => WireTimestamp { secs: 0, nanos: 0 },
    }
}

impl WireTimestamp {
    /// The timestamp for a time `since` after the epoch (see
    /// [`since_epoch_timestamp`]).
    pub fn from_since_epoch(since: Option<(u64, u32)>) -> (r: WireTimestamp)
        ensures
            r == since_epoch_timestamp(since),
    {
        match since {
            Some((secs, nanos)) => WireTimestamp { secs, nanos },
            None => WireTimestamp { secs: 0, nanos: 0 },
        }
    }

    /// Splits `t` into seconds and nanoseconds since the epoch; a time
    /// before the epoch becomes zero. What `t` is, is opaque here: the split
    /// is [`WireTimestamp::from_since_epoch`] of std's duration since the
    /// epoch, and its nanoseconds stay below one second.
    pub fn from_system_time(t: SystemTime) -> (r: WireTimestamp)
        ensures
            r.nanos < 1_000_000_000,
    {
        let since = match duration_since_epoch(t) {
            Some(d) => Some((duration_as_secs(&d), duration_subsec_nanos(&d))),
            None => None,
        };
        WireTimestamp::from_since_epoch(since)
    }

    /// Rebuilds the `SystemTime` this timestamp was split from; `None`
    /// where the platform cannot represent it.
    pub fn to_system_time(self) -> Option<SystemTime>
        requires
            self.secs as int + self.nanos as int / 1_000_000_000 <= u64::MAX,
    {
        epoch_checked_add(duration_new(self.secs, self.nanos))
    }
}

/// One ring slot: a length and up to [`SLOT_PAYLOAD`] payload bytes.
#[derive(Clone, Copy)]
pub struct RingSlot {
    pub len: u32,
    pub data: [u8; SLOT_PAYLOAD],
}

/// A fixed-capacity FIFO of short byte messages. `head` and `tail` are
/// free-running counters; their wrapping difference is the number of
/// queued messages, and message `k` sits in slot `(tail + k) % RING_CAPACITY`.
pub struct RingBuffer {
    pub head: u32,
    pub tail: u32,
    pub slots: Vec<RingSlot>,
}

/// The number of messages between two free-running counters.
pub open spec fn ring_count(head: u32, tail: u32) -> int {
    (head as int - tail as int) % 0x1_0000_0000
}

/// The slot holding message `k` when the oldest message is at `tail`.
pub open spec fn slot_of(tail: u32, k: int) -> int {
    (tail as int + k) % (RING_CAPACITY as int)
}

impl RingBuffer {
    /// The ring's internal invariant.
    pub open spec fn wf(&self) -> bool {
        &&& self.slots@.len() == RING_CAPACITY
        &&& ring_count(self.head, self.tail) <= RING_CAPACITY
        &&& forall|i: int| 0 <= i < self.slots@.len() ==> (#[trigger] self.slots@[i]).len <= SLOT_PAYLOAD
    }

    /// The bytes of queued message `k`.
    pub open spec fn message(&self, k: int) -> Seq<u8> {
        let slot = self.slots@[slot_of(self.tail, k)];
        slot.data@.take(slot.len as int)
    }

    /// The queued messages, oldest first.
    pub open spec fn queue(&self) -> Seq<Seq<u8>> {
        Seq::new(ring_count(self.head, self.tail) as nat, |k: int| self.message(k))
    }

    /// An empty ring with every slot zeroed.
    pub fn new() -> (r: RingBuffer)
        ensures
            r.wf(),
            r.queue() == Seq::<Seq<u8>>::empty(),
    {
        let mut slots: Vec<RingSlot> = Vec::new();
        let mut i: usize = 0;
        while i < RING_CAPACITY
            invariant
                i <= RING_CAPACITY,
                slots@.len() == i,
                forall|j: int| 0 <= j < i ==> (#[trigger] slots@[j]).len == 0,
            decreases RING_CAPACITY - i,
        {
            slots.push(RingSlot { len: 0, data: [0u8; SLOT_PAYLOAD] });
            i = i + 1;
        }
        let r = RingBuffer { head: 0, tail: 0, slots };
        assert(r.queue() =~= Seq::<Seq<u8>>::empty());
        r
    }

    /// Appends `bytes` as the newest message. Returns `false`, changing
    /// nothing, when the ring is full.
    pub fn try_push(&mut self, bytes: &[u8]) -> (pushed: bool)
        requires
            old(self).wf(),
            bytes@.len() <= SLOT_PAYLOAD,
        ensures
            final(self).wf(),
            pushed == (old(self).queue().len() < RING_CAPACITY),
            pushed ==> final(self).queue() == old(self).queue().push(bytes@),
            !pushed ==> *final(self) == *old(self),
    {
        let count = self.head.wrapping_sub(self.tail);
        if count as usize >= RING_CAPACITY {
            return false;
        }
        let idx = (self.head as usize) % RING_CAPACITY;
        let ghost old_self = *self;
        let ghost n = ring_count(self.head, self.tail);
        proof {
            lemma_head_slot(self.head, self.tail);
        }
        let mut data = [0u8; SLOT_PAYLOAD];
        let mut i: usize = 0;
        while i < bytes.len()
            invariant
                i <= bytes@.len(),
                bytes@.len() <= SLOT_PAYLOAD,
                forall|j: int| 0 <= j < i ==> data@[j] == bytes@[j],
            decreases bytes@.len() - i,
        {
            data[i] = bytes[i];
            i = i + 1;
        }
        assert(data@.take(bytes@.len() as int) =~= bytes@);
        self.slots.set(idx, RingSlot { len: bytes.len() as u32, data });
        self.head = self.head.wrapping_add(1);
        proof {
            assert(ring_count(self.head, self.tail) == n + 1);
            assert forall|k: int| 0 <= k < n implies #[trigger] self.message(k) == old_self.message(k) by {
                lemma_distinct_slots(self.tail as int, k, n);
            }
            assert(self.message(n) == bytes@);
            assert(self.queue() =~= old_self.queue().push(bytes@));
        }
        true
    }

    /// Removes the oldest message, copying it to the front of `out` and
    /// returning its length; `None` when the ring is empty. Bytes of `out`
    /// past the message are left as they were.
    pub fn try_pop(&mut self, out: &mut [u8; SLOT_PAYLOAD]) -> (r: Option<usize>)
        requires
            old(self).wf(),
        ensures
            final(self).wf(),
            old(self).queue().len() == 0 ==> r is None && *final(self) == *old(self) && final(out)@ == old(out)@,
            old(self).queue().len() > 0 ==> (r matches Some(len) && {
                &&& len == old(self).queue()[0].len()
                &&& final(out)@.take(len as int) == old(self).queue()[0]
                &&& final(out)@.skip(len as int) == old(out)@.skip(len as int)
                &&& final(self).queue() == old(self).queue().drop_first()
            }),
    {
        if self.tail == self.head {
            assert(ring_count(self.head, self.tail) == 0);
            return None;
        }
        let ghost old_self = *self;
        let ghost n = ring_count(self.head, self.tail);
        assert(n > 0) by {
            assert(ring_count(self.head, self.tail) != 0);
        }
        let idx = (self.tail as usize) % RING_CAPACITY;
        assert(idx == slot_of(self.tail, 0));
        let slot = self.slots[idx];
        let len = slot.len as usize;
        let mut i: usize = 0;
        while i < len
            invariant
                i <= len,
                len <= SLOT_PAYLOAD,
                forall|j: int| 0 <= j < i ==> out@[j] == slot.data@[j],
                forall|j: int| len <= j < SLOT_PAYLOAD ==> out@[j] == old(out)@[j],
            decreases len - i,
        {
            out[i] = slot.data[i];
            i = i + 1;
        }
        self.tail = self.tail.wrapping_add(1);
        proof {
            assert(out@.take(len as int) =~= old_self.message(0));
            assert(out@.skip(len as int) =~= old(out)@.skip(len as int));
            lemma_pop_count(self.head, old_self.tail);
            assert forall|k: int| 0 <= k < n - 1 implies #[trigger] self.message(k) == old_self.message(k + 1) by {
                lemma_next_slot(old_self.tail, k);
            }
            assert(self.queue() =~= old_self.queue().drop_first());
        }
        Some(len)
    }
}

/// The slot the next push writes, `head % RING_CAPACITY`, is the slot after
/// the queued messages.
proof fn lemma_head_slot(head: u32, tail: u32)
    ensures
        (head as int) % (RING_CAPACITY as int) == slot_of(tail, ring_count(head, tail)),
{
    if head >= tail {
        assert(ring_count(head, tail) == head - tail);
    } else {
        assert(ring_count(head, tail) == head as int - tail as int + 0x1_0000_0000);
        assert((head as int + 0x1_0000_0000) % 16384 == (head as int) % 16384) by {
            vstd::arithmetic::div_mod::lemma_mod_multiples_vanish(262144, head as int, 16384);
        }
    }
}

/// Distinct queue positions below the capacity occupy distinct slots.
proof fn lemma_distinct_slots(a: int, k: int, j: int)
    requires
        0 <= a,
        0 <= k < j,
        j < RING_CAPACITY,
    ensures
        (a + k) % (RING_CAPACITY as int) != (a + j) % (RING_CAPACITY as int),
{
    let m = RING_CAPACITY as int;
    vstd::arithmetic::div_mod::lemma_fundamental_div_mod(a + k, m);
    vstd::arithmetic::div_mod::lemma_fundamental_div_mod(a + j, m);
    let q1 = (a + k) / m;
    let q2 = (a + j) / m;
    if (a + k) % m == (a + j) % m {
        assert(m * q2 - m * q1 == j - k);
        assert(m * (q2 - q1) == j - k) by (nonlinear_arith)
            requires
                m * q2 - m * q1 == j - k,
        ;
        assert(false) by (nonlinear_arith)
            requires
                m * (q2 - q1) == j - k,
                0 < j - k < m,
                m > 0,
        ;
    }
}

/// Advancing the tail by one removes exactly one message from the count.
proof fn lemma_pop_count(head: u32, tail: u32)
    requires
        ring_count(head, tail) > 0,
        ring_count(head, tail) <= RING_CAPACITY,
    ensures
        ring_count(head, ((tail as int + 1) % 0x1_0000_0000) as u32) == ring_count(head, tail) - 1,
{
}

/// Message `k` after a pop is message `k + 1` before it.
proof fn lemma_next_slot(tail: u32, k: int)
    requires
        0 <= k,
    ensures
        slot_of(((tail as int + 1) % 0x1_0000_0000) as u32, k) == slot_of(tail, k + 1),
{
    if tail as int + 1 == 0x1_0000_0000 {
        assert((k + 0x1_0000_0000) % 16384 == k % 16384) by {
            vstd::arithmetic::div_mod::lemma_mod_multiples_vanish(262144, k, 16384);
        }
    }
}

/// The region both processes map: a heartbeat per side and one ring per
/// direction (captured input towards the embedder, control commands
/// towards the bridge).
pub struct SharedRegion {
    pub windows_heartbeat: u32,
    pub linux_heartbeat: u32,
    pub capture: RingBuffer,
    pub control: RingBuffer,
}

impl SharedRegion {
    /// A fresh region: zero heartbeats and two empty rings.
    pub fn new() -> (r: SharedRegion)
        ensures
            r.windows_heartbeat == 0,
            r.linux_heartbeat == 0,
            r.capture.wf(),
            r.control.wf(),
            r.capture.queue() == Seq::<Seq<u8>>::empty(),
            r.control.queue() == Seq::<Seq<u8>>::empty(),
    {
        SharedRegion {
            windows_heartbeat: 0,
            linux_heartbeat: 0,
            capture: RingBuffer::new(),
            control: RingBuffer::new(),
        }
    }
}


/// Where `StopLoop` stands among the control commands (after `RunMacro`);
/// an encoded unit variant is just this index.
pub const STOP_LOOP_VARIANT: u32 = 1;

/// The bytes bincode's standard configuration (little-endian variable-length
/// integers) encodes `n` to: a single byte up to 250, else the marker 251
/// and two bytes up to `u16::MAX`, else the marker 252 and four bytes.
pub open spec fn bincode_standard_u32(n: u32) -> Seq<u8> {
    if n <= 250 {
        seq![n as u8]
    } else if n <= 0xffff {
        seq![251u8, (n % 256) as u8, (n / 256) as u8]
    } else {
        seq![252u8, (n % 256) as u8, ((n / 256) % 256) as u8, ((n / 65536) % 256) as u8, (n / 16777216) as u8]
    }
}

/// `bincode::encode_to_vec(n, bincode::config::standard())`: the
/// variable-length little-endian integer [`bincode_standard_u32`] spells
/// out, as bincode's `varint_encode_u32` writes it. Encoding an integer
/// into a `Vec` cannot fail (the size and vector writers never return an
/// error), so the error arm is never taken.
#[verifier::external_body]
fn encode_u32(n: u32) -> (r: Vec<u8>)
    ensures
        r@ == bincode_standard_u32(n),
{
    match bincode::encode_to_vec(n, bincode::config::standard()) {
        Ok(v) => v,
        Err(_) => Vec::new(),
    }
}

/// How many times a control command is offered to a full ring before the
/// sender gives up, pausing between offers while the bridge drains it.
pub const CONTROL_PUSH_ATTEMPTS: u32 = 1000;

/// The message a control command that found the ring full is refused with.
pub open spec fn control_ring_full_message() -> Seq<char> {
    "control ring full"@
}

/// What the sender does after offering a control command.
#[derive(Debug, PartialEq, Eq)]
pub enum PushStep {
    /// The command is in the ring.
    Sent,
    /// Pause briefly while the bridge drains the ring, then offer it again.
    RetryAfterPause,
    /// Every offer found the ring full: the error to answer with.
    GaveUp(String),
}

/// The step after offer number `attempt` (counted from one), given whether
/// it was taken: done when taken, another offer after a pause while fewer
/// than [`CONTROL_PUSH_ATTEMPTS`] were made, else `control ring full`.
pub fn control_push_step(attempt: u32, pushed: bool) -> (r: PushStep)
    requires
        1 <= attempt <= CONTROL_PUSH_ATTEMPTS,
    ensures
        pushed ==> r == PushStep::Sent,
        !pushed && attempt < CONTROL_PUSH_ATTEMPTS ==> r == PushStep::RetryAfterPause,
        !pushed && attempt == CONTROL_PUSH_ATTEMPTS ==> (r matches PushStep::GaveUp(e) && e@ == control_ring_full_message()),
{
    if pushed {
        PushStep::Sent
    } else if attempt < CONTROL_PUSH_ATTEMPTS {
        PushStep::RetryAfterPause
    } else {
        PushStep::GaveUp(crate::text::string_of("control ring full"))
    }
}

/// Offers an encoded control command to the bridge once; `control ring
/// full` when the ring has no room. The region is borrowed exclusively
/// here, so the bridge cannot drain the ring meanwhile and a second offer
/// would find it just as full: the pauses and further offers of
/// [`control_push_step`] belong to a sender that shares the ring.
pub fn push_control(region: &mut SharedRegion, bytes: &[u8]) -> (r: Result<(), String>)
    requires
        old(region).control.wf(),
        bytes@.len() <= SLOT_PAYLOAD,
    ensures
        final(region).control.wf(),
        final(region).windows_heartbeat == old(region).windows_heartbeat,
        final(region).linux_heartbeat == old(region).linux_heartbeat,
        final(region).capture == old(region).capture,
        old(region).control.queue().len() < RING_CAPACITY ==> r is Ok
            && final(region).control.queue() == old(region).control.queue().push(bytes@),
        old(region).control.queue().len() >= RING_CAPACITY ==> (r matches Err(e) && e@ == control_ring_full_message())
            && final(region).control == old(region).control,
{
    if region.control.try_push(bytes) {
        Ok(())
    } else {
        Err(crate::text::string_of("control ring full"))
    }
}

/// Asks the bridge to stop every in-flight run.
pub fn send_stop_loop(region: &mut SharedRegion) -> (r: Result<(), String>)
    requires
        old(region).control.wf(),
    ensures
        final(region).control.wf(),
        final(region).capture == old(region).capture,
        old(region).control.queue().len() < RING_CAPACITY ==> r is Ok
            && final(region).control.queue() == old(region).control.queue().push(bincode_standard_u32(STOP_LOOP_VARIANT)),
        old(region).control.queue().len() >= RING_CAPACITY ==> (r matches Err(e) && e@ == control_ring_full_message())
            && final(region).control == old(region).control,
{
    let bytes = encode_u32(STOP_LOOP_VARIANT);
    push_control(region, bytes.as_slice())
}

/// Offer number `attempt` (counted from one) of the stop command to the
/// bridge, for a sender that shares the ring with it: one push, then the
/// step [`control_push_step`] gives for it. Between a `RetryAfterPause` and
/// the next offer the sender pauses and lets the bridge drain the ring;
/// after [`CONTROL_PUSH_ATTEMPTS`] offers it gives up with `control ring
/// full`.
pub fn offer_stop_loop(region: &mut SharedRegion, attempt: u32) -> (r: PushStep)
    requires
        old(region).control.wf(),
        1 <= attempt <= CONTROL_PUSH_ATTEMPTS,
    ensures
        final(region).control.wf(),
        final(region).capture == old(region).capture,
        old(region).control.queue().len() < RING_CAPACITY ==> r == PushStep::Sent
            && final(region).control.queue() == old(region).control.queue().push(bincode_standard_u32(STOP_LOOP_VARIANT)),
        old(region).control.queue().len() >= RING_CAPACITY ==> final(region).control == old(region).control && (
        if attempt < CONTROL_PUSH_ATTEMPTS {
            r == PushStep::RetryAfterPause
        } else {
            r matches PushStep::GaveUp(e) && e@ == control_ring_full_message()
        }),
{
    let bytes = encode_u32(STOP_LOOP_VARIANT);
    let pushed = region.control.try_push(bytes.as_slice());
    control_push_step(attempt, pushed)
}


/// The queue after pushing `msgs` in order onto `q`, as
/// [`RingBuffer::try_push`] states each push.
pub open spec fn pushed_all(q: Seq<Seq<u8>>, msgs: Seq<Seq<u8>>) -> Seq<Seq<u8>>
    decreases msgs.len(),
{
    if msgs.len() == 0 {
        q
    } else {
        pushed_all(q, msgs.drop_last()).push(msgs.last())
    }
}

/// The queue after `i` pops, as [`RingBuffer::try_pop`] states each pop.
pub open spec fn popped(q: Seq<Seq<u8>>, i: nat) -> Seq<Seq<u8>>
    decreases i,
{
    if i == 0 {
        q
    } else {
        popped(q, (i - 1) as nat).drop_first()
    }
}

proof fn lemma_pushed_all(msgs: Seq<Seq<u8>>)
    ensures
        pushed_all(Seq::empty(), msgs) == msgs,
    decreases msgs.len(),
{
    if msgs.len() > 0 {
        lemma_pushed_all(msgs.drop_last());
        assert(msgs.drop_last().push(msgs.last()) =~= msgs);
    }
}

proof fn lemma_popped(q: Seq<Seq<u8>>, i: nat)
    requires
        i <= q.len(),
    ensures
        popped(q, i) == q.skip(i as int),
    decreases i,
{
    if i > 0 {
        lemma_popped(q, (i - 1) as nat);
        assert(q.skip(i - 1).drop_first() =~= q.skip(i as int));
    }
}

/// The ring is first in, first out: after messages are pushed in order onto
/// an empty ring, each pop takes the next of them in the order they were
/// pushed, and once all are taken the ring is empty.
pub proof fn lemma_ring_fifo(msgs: Seq<Seq<u8>>)
    ensures
        forall|i: nat| i < msgs.len() ==> (#[trigger] popped(pushed_all(Seq::empty(), msgs), i)).len() > 0
            && popped(pushed_all(Seq::empty(), msgs), i)[0] == msgs[i as int],
        popped(pushed_all(Seq::empty(), msgs), msgs.len()).len() == 0,
{
    lemma_pushed_all(msgs);
    assert forall|i: nat| i < msgs.len() implies (#[trigger] popped(pushed_all(Seq::empty(), msgs), i)).len() > 0
        && popped(pushed_all(Seq::empty(), msgs), i)[0] == msgs[i as int] by {
        lemma_popped(msgs, i);
    }
    lemma_popped(msgs, msgs.len());
}

} // verus!
