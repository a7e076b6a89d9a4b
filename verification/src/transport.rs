//! Shared-memory audio transport: protocol header and SPSC ring buffer.
//!
//! A producer process publishes fixed-rate mono frames into a named
//! shared-memory region; a consumer process (the virtual-device driver)
//! drains them at its own clock. The region starts with a fixed-layout
//! [`Header`] stamping the protocol identity, followed by the sample
//! store: `capacity_frames * channels` 32-bit samples, interleaved by
//! frame. One slot is always kept empty, so the usable capacity is
//! `capacity_frames - 1` frames.
//!
//! Samples are carried as their raw 32-bit patterns (`u32`); the stamped
//! `format` says how the consumer interprets them (`0` meaning 32-bit
//! float). The all-zero pattern is silence. Carrying bit patterns keeps
//! the transport bit-exact end to end and keeps its reasoning free of
//! floating-point arithmetic.

use vstd::prelude::*;

verus! {

/// Magic number identifying the virtual-microphone shared memory.
pub const CRISPY_MAGIC: u32 = 0x43525350;

/// Protocol version.
pub const PROTOCOL_VERSION: u32 = 1;

/// Sample rate in Hz.
pub const SAMPLE_RATE: u32 = 48000;

/// Number of channels (mono).
pub const CHANNELS: u32 = 1;

/// Sample format (0 = 32-bit float).
pub const SAMPLE_FORMAT: u32 = 0;

/// Ring buffer capacity in frames: 200 ms at 48 kHz, to absorb jitter.
pub const CAPACITY_FRAMES: u32 = 9600;

/// Size of the fixed header layout in bytes: six `u32` identity fields,
/// two `u32` indices, three `u64` counters.
pub const HEADER_BYTES: usize = 56;

/// Header at the start of the shared-memory region.
///
/// The identity fields (`magic` through `capacity_frames`) are set once
/// at creation and immutable thereafter. `write_index` is advanced only
/// by the writer, `read_index` only by the reader; the counters are
/// advisory telemetry.
pub struct Header {
    /// Magic number for validation.
    pub magic: u32,
    /// Protocol version.
    pub version: u32,
    /// Sample rate in Hz.
    pub sample_rate: u32,
    /// Number of channels.
    pub channels: u32,
    /// Sample format (0 = 32-bit float).
    pub format: u32,
    /// Ring buffer capacity in frames.
    pub capacity_frames: u32,
    /// Next frame slot the writer will fill.
    pub write_index: u32,
    /// Next frame slot the reader will drain.
    pub read_index: u32,
    /// Times the reader found fewer frames than it needed.
    pub underrun_count: u64,
    /// Times the writer found the buffer full.
    pub overrun_count: u64,
    /// Frames ever accepted from the writer, modulo 2^64.
    pub sequence: u64,
}

impl Header {
    /// The header [`init`](Header::init) returns, as a spec-level value.
    pub open spec fn init_spec() -> Header {
        Header {
            magic: CRISPY_MAGIC,
            version: PROTOCOL_VERSION,
            sample_rate: SAMPLE_RATE,
            channels: CHANNELS,
            format: SAMPLE_FORMAT,
            capacity_frames: CAPACITY_FRAMES,
            write_index: 0,
            read_index: 0,
            underrun_count: 0,
            overrun_count: 0,
            sequence: 0,
        }
    }

    /// A fresh header: zeroed state, stamped protocol constants.
    pub fn init() -> (h: Header)
        ensures
            h == Header::init_spec(),
    {
        Header {
            magic: CRISPY_MAGIC,
            version: PROTOCOL_VERSION,
            sample_rate: SAMPLE_RATE,
            channels: CHANNELS,
            format: SAMPLE_FORMAT,
            capacity_frames: CAPACITY_FRAMES,
            write_index: 0,
            read_index: 0,
            underrun_count: 0,
            overrun_count: 0,
            sequence: 0,
        }
    }

    /// True exactly when magic and version match the expected constants,
    /// regardless of every other field. A consumer must check this right
    /// after mapping and never proceed on failure.
    pub fn validate(&self) -> (ok: bool)
        ensures
            ok == (self.magic == CRISPY_MAGIC && self.version == PROTOCOL_VERSION),
    {
        self.magic == CRISPY_MAGIC && self.version == PROTOCOL_VERSION
    }
}

/// Total size in bytes of the shared-memory region: the header followed
/// by `CAPACITY_FRAMES * CHANNELS` 4-byte samples.
pub fn shared_memory_size() -> (size: usize)
    ensures
        size == HEADER_BYTES + CAPACITY_FRAMES * CHANNELS * 4,
{
    HEADER_BYTES + (CAPACITY_FRAMES as usize) * (CHANNELS as usize) * 4
}

/// The slot `steps` frames past `start` in a ring of `cap` slots, for
/// `start < cap` and `steps <= cap`, so the position wraps at most once.
pub open spec fn slot_at(start: int, steps: int, cap: int) -> int {
    if start + steps < cap {
        start + steps
    } else {
        start + steps - cap
    }
}

/// How many forward steps lead from `start` to `pos` in a ring of `cap`
/// slots; the inverse of [`slot_at`] for positions inside the ring.
pub open spec fn steps_between(start: int, pos: int, cap: int) -> int {
    if pos >= start {
        pos - start
    } else {
        pos + cap - start
    }
}

/// `n` frames of silence.
pub open spec fn silence(n: int) -> Seq<u32> {
    Seq::new(n as nat, |i: int| 0u32)
}

/// How many frames a write offering `offered` frames is accepted for when
/// `queued` frames are already in a ring of `cap` slots: whatever fits in
/// the `cap - 1 - queued` free usable slots; the rest is dropped.
pub open spec fn accepted_count(queued: int, offered: int, cap: int) -> int {
    vstd::math::min(offered, cap - 1 - queued)
}

/// How many real frames a read asking for `wanted` frames obtains when
/// `queued` frames are in the ring: the shortfall becomes silence.
pub open spec fn delivered_count(queued: int, wanted: int) -> int {
    vstd::math::min(wanted, queued)
}

/// The shared-memory region in its owned form: the header followed by the
/// sample store. The writer appends at `write_index`, the reader drains
/// at `read_index`, and the slot before `read_index` is never filled, so
/// at most `capacity_frames - 1` frames are queued at once.
///
/// Across the process boundary the two sides hold separate views of one
/// region; in this owned model a single value holds the region, and the
/// two roles are its method groups — `write` and `fill_level` belong to
/// the producer, `read`, `fill_level` and the two counters to the
/// consumer. Each side mutates only its own index, which is what lets
/// the real region work without locks.
pub struct SharedMemory {
    /// Control block at the start of the region.
    pub header: Header,
    /// `capacity_frames` sample slots, one frame each.
    pub samples: Vec<u32>,
}

impl SharedMemory {
    /// Capacity of the ring in frames.
    pub open spec fn cap(self) -> int {
        self.header.capacity_frames as int
    }

    /// Structural invariant: the store matches the stamped capacity and
    /// both indices point at a slot. Established by the constructors and
    /// preserved by every operation.
    pub open spec fn wf(self) -> bool {
        &&& self.cap() >= 1
        &&& self.samples@.len() == self.cap()
        &&& (self.header.write_index as int) < self.cap()
        &&& (self.header.read_index as int) < self.cap()
    }

    /// Frames queued but not yet read.
    pub open spec fn occupied(self) -> int {
        steps_between(
            self.header.read_index as int,
            self.header.write_index as int,
            self.cap(),
        )
    }

    /// Frames the writer can still append before the buffer is full.
    pub open spec fn available(self) -> int {
        self.cap() - 1 - self.occupied()
    }

    /// The queued frames, oldest first.
    pub open spec fn contents(self) -> Seq<u32> {
        Seq::new(
            self.occupied() as nat,
            |j: int| self.samples@[slot_at(self.header.read_index as int, j, self.cap())],
        )
    }

    /// The identity fields stamped at creation are the same in both
    /// states; `write` and `read` never touch them.
    pub open spec fn same_identity(self, other: SharedMemory) -> bool {
        &&& other.header.magic == self.header.magic
        &&& other.header.version == self.header.version
        &&& other.header.sample_rate == self.header.sample_rate
        &&& other.header.channels == self.header.channels
        &&& other.header.format == self.header.format
        &&& other.header.capacity_frames == self.header.capacity_frames
    }

    /// A fresh region with the protocol's fixed capacity.
    pub fn new() -> (shm: SharedMemory)
        ensures
            shm.wf(),
            shm.header == Header::init_spec(),
            shm.contents() == Seq::<u32>::empty(),
    {
        SharedMemory::with_capacity(CAPACITY_FRAMES)
    }

    /// A fresh region with the given capacity, for callers that size the
    /// ring themselves. The state is zeroed and the identity stamped as
    /// [`Header::init`] stamps it, except for `capacity_frames`.
    pub fn with_capacity(capacity_frames: u32) -> (shm: SharedMemory)
        requires
            capacity_frames >= 1,
        ensures
            shm.wf(),
            shm.header == (Header { capacity_frames, ..Header::init_spec() }),
            shm.contents() == Seq::<u32>::empty(),
    {
        let mut header = Header::init();
        header.capacity_frames = capacity_frames;
        let samples = vec![0u32; capacity_frames as usize];
        let shm = SharedMemory { header, samples };
        proof {
            assert(shm.contents() =~= Seq::<u32>::empty());
        }
        shm
    }

    /// Frames currently queued: both sides use this as their fill gauge.
    /// It is always strictly below the stamped capacity.
    pub fn fill_level(&self) -> (level: u32)
        requires
            self.wf(),
        ensures
            level as int == self.occupied(),
            level < self.header.capacity_frames,
    {
        let w = self.header.write_index;
        let r = self.header.read_index;
        if w >= r {
            w - r
        } else {
            self.header.capacity_frames - (r - w)
        }
    }

    /// Times the reader came up short; cumulative, never reset.
    pub fn underrun_count(&self) -> (count: u64)
        ensures
            count == self.header.underrun_count,
    {
        self.header.underrun_count
    }

    /// Times the writer found the buffer full; cumulative, never reset.
    pub fn overrun_count(&self) -> (count: u64)
        ensures
            count == self.header.overrun_count,
    {
        self.header.overrun_count
    }

    /// Append as many of `frames` as fit, in order, and return how many
    /// were accepted. A full buffer drops the excess (the producer's
    /// backpressure is drop-newest) and counts one overrun when nothing
    /// at all was accepted; a partial write is a normal result, not an
    /// error.
    #[verifier::loop_isolation(false)]
    pub fn write(&mut self, frames: &[u32]) -> (accepted: usize)
        requires
            old(self).wf(),
        ensures
            final(self).wf(),
            old(self).same_identity(*final(self)),
            accepted as int == vstd::math::min(frames@.len() as int, old(self).available()),
            accepted as int == accepted_count(
                old(self).contents().len() as int,
                frames@.len() as int,
                old(self).cap(),
            ),
            final(self).contents() == old(self).contents() + frames@.take(accepted as int),
            final(self).header.read_index == old(self).header.read_index,
            final(self).header.underrun_count == old(self).header.underrun_count,
            accepted == 0 ==> {
                &&& final(self).header.overrun_count
                    == old(self).header.overrun_count.wrapping_add(1)
                &&& final(self).header.write_index == old(self).header.write_index
                &&& final(self).header.sequence == old(self).header.sequence
            },
            accepted > 0 ==> {
                &&& final(self).header.overrun_count == old(self).header.overrun_count
                &&& final(self).header.sequence == old(self).header.sequence.wrapping_add(
                    accepted as u64,
                )
            },
    {
        let w = self.header.write_index;
        let r = self.header.read_index;
        let cap = self.header.capacity_frames;

        let avail: u32 = if w >= r {
            cap - (w - r) - 1
        } else {
            r - w - 1
        };

        let to_write: usize = if frames.len() < avail as usize {
            frames.len()
        } else {
            avail as usize
        };

        if to_write == 0 {
            self.header.overrun_count = self.header.overrun_count.wrapping_add(1);
            proof {
                assert(self.contents() =~= old(self).contents() + frames@.take(0));
            }
            return 0;
        }

        let ghost pre = *old(self);
        let mut i: usize = 0;
        let mut idx: usize = w as usize;
        while i < to_write
            invariant
                0 <= i <= to_write,
                self.header == pre.header,
                self.samples@.len() == cap as int,
                idx as int == slot_at(w as int, i as int, cap as int),
                forall|k: int|
                    0 <= k < cap as int && steps_between(w as int, k, cap as int) >= i
                        ==> self.samples@[k] == pre.samples@[k],
                forall|k: int|
                    0 <= k < cap as int && steps_between(w as int, k, cap as int) < i
                        ==> self.samples@[k] == frames@[steps_between(w as int, k, cap as int)],
            decreases to_write - i,
        {
            self.samples[idx] = frames[i];
            i = i + 1;
            idx = idx + 1;
            if idx == cap as usize {
                idx = 0;
            }
        }

        self.header.write_index = idx as u32;
        self.header.sequence = self.header.sequence.wrapping_add(to_write as u64);

        proof {
            assert(self.contents() =~= pre.contents() + frames@.take(to_write as int));
        }
        to_write
    }

    /// Fill `out` from the queue: the oldest queued frames first, then
    /// silence for whatever is missing — the consumer must never see
    /// stale data past the horizon. Returns how many real frames were
    /// delivered; a short read counts one underrun.
    #[verifier::loop_isolation(false)]
    pub fn read(&mut self, out: &mut Vec<u32>) -> (got: usize)
        requires
            old(self).wf(),
        ensures
            final(self).wf(),
            old(self).same_identity(*final(self)),
            got as int == vstd::math::min(old(out)@.len() as int, old(self).occupied()),
            got as int == delivered_count(
                old(self).contents().len() as int,
                old(out)@.len() as int,
            ),
            final(out)@.len() == old(out)@.len(),
            final(out)@ == old(self).contents().take(got as int)
                + silence(old(out)@.len() - got),
            final(self).contents() == old(self).contents().skip(got as int),
            final(self).samples@ == old(self).samples@,
            final(self).header.write_index == old(self).header.write_index,
            final(self).header.overrun_count == old(self).header.overrun_count,
            final(self).header.sequence == old(self).header.sequence,
            got < old(out)@.len() ==> final(self).header.underrun_count
                == old(self).header.underrun_count.wrapping_add(1),
            got == old(out)@.len() ==> final(self).header.underrun_count
                == old(self).header.underrun_count,
    {
        let w = self.header.write_index;
        let r = self.header.read_index;
        let cap = self.header.capacity_frames;

        let occupied: u32 = if w >= r {
            w - r
        } else {
            cap - (r - w)
        };

        let to_read: usize = if out.len() < occupied as usize {
            out.len()
        } else {
            occupied as usize
        };

        let ghost pre = *old(self);
        let ghost out_pre = *old(out);

        if to_read < out.len() {
            self.header.underrun_count = self.header.underrun_count.wrapping_add(1);
        }
        let ghost hdr = self.header;

        let mut i: usize = to_read;
        while i < out.len()
            invariant
                to_read <= i <= out@.len(),
                out@.len() == out_pre@.len(),
                self.header == hdr,
                self.samples@ == pre.samples@,
                forall|k: int| 0 <= k < to_read ==> out@[k] == out_pre@[k],
                forall|k: int| to_read <= k < i ==> out@[k] == 0u32,
            decreases out@.len() - i,
        {
            out[i] = 0;
            i = i + 1;
        }

        if to_read == 0 {
            proof {
                assert(self.contents() =~= pre.contents().skip(0));
                assert(out@ =~= pre.contents().take(0) + silence(out@.len() - 0));
            }
            return 0;
        }

        let mut i: usize = 0;
        let mut idx: usize = r as usize;
        while i < to_read
            invariant
                0 <= i <= to_read,
                self.header == hdr,
                self.samples@ == pre.samples@,
                out@.len() == out_pre@.len(),
                idx as int == slot_at(r as int, i as int, cap as int),
                forall|k: int| 0 <= k < i ==> out@[k] == pre.contents()[k],
                forall|k: int| i <= k < to_read ==> out@[k] == out_pre@[k],
                forall|k: int| to_read <= k < out@.len() ==> out@[k] == 0u32,
            decreases to_read - i,
        {
            let sample = self.samples[idx];
            out[i] = sample;
            i = i + 1;
            idx = idx + 1;
            if idx == cap as usize {
                idx = 0;
            }
        }

        self.header.read_index = idx as u32;

        proof {
            assert(self.contents() =~= pre.contents().skip(to_read as int));
            assert(out@ =~= pre.contents().take(to_read as int)
                + silence(out@.len() - to_read as int));
        }
        to_read
    }
}

/// The fill gauge, the queue and the capacity agree: in every
/// well-formed state the queued frames number `occupied()`, which stays
/// within `[0, capacity_frames - 1]`. Since every operation both demands
/// and re-establishes `wf()`, this bounds `fill_level()` over any call
/// sequence.
pub proof fn lemma_capacity_bound(shm: SharedMemory)
    requires
        shm.wf(),
    ensures
        shm.contents().len() == shm.occupied(),
        0 <= shm.occupied() <= shm.cap() - 1,
{
}

/// Lossless round-trip: frames written into an empty buffer and read
/// straight back, with no intervening write, come out bit-identical and
/// in order, and leave the buffer empty again. The hypotheses are what
/// `write` and then `read` ensure of the three states they connect.
pub proof fn lemma_lossless_round_trip(
    pre: SharedMemory,
    mid: SharedMemory,
    post: SharedMemory,
    frames: Seq<u32>,
    accepted: int,
    out: Seq<u32>,
    got: int,
)
    requires
        pre.wf(),
        mid.wf(),
        pre.contents().len() == 0,
        frames.len() <= pre.available(),
        // the write step, as `write` ensures it:
        accepted == vstd::math::min(frames.len() as int, pre.available()),
        mid.contents() == pre.contents() + frames.take(accepted),
        // the read step asking for `frames.len()` frames, as `read` ensures it:
        got == vstd::math::min(frames.len() as int, mid.occupied()),
        out == mid.contents().take(got) + silence(frames.len() - got),
        post.contents() == mid.contents().skip(got),
    ensures
        accepted == frames.len(),
        got == frames.len(),
        out == frames,
        post.contents().len() == 0,
{
    lemma_capacity_bound(mid);
    assert(mid.contents() =~= frames);
    assert(out =~= frames);
    assert(post.contents() =~= Seq::<u32>::empty());
}

/// Overrun accounting: a write attempted against a full buffer (occupied
/// at its `capacity_frames - 1` ceiling) accepts nothing, counts exactly
/// one overrun, and leaves the queue — and so the fill level — saturated.
/// The hypotheses are what `write` ensures of the two states it connects.
pub proof fn lemma_overrun_accounting(
    pre: SharedMemory,
    post: SharedMemory,
    frames: Seq<u32>,
    accepted: int,
)
    requires
        pre.wf(),
        post.wf(),
        pre.occupied() == pre.cap() - 1,
        // the write step, as `write` ensures it:
        accepted == vstd::math::min(frames.len() as int, pre.available()),
        post.contents() == pre.contents() + frames.take(accepted),
        post.header.capacity_frames == pre.header.capacity_frames,
        accepted == 0 ==> post.header.overrun_count == pre.header.overrun_count.wrapping_add(1),
    ensures
        accepted == 0,
        post.header.overrun_count == pre.header.overrun_count.wrapping_add(1),
        post.contents() == pre.contents(),
        post.occupied() == post.cap() - 1,
{
    lemma_capacity_bound(pre);
    lemma_capacity_bound(post);
    assert(post.contents() =~= pre.contents());
}

/// Underrun accounting and silence substitution: a read asking for more
/// frames than are queued delivers every queued frame, in order, followed
/// by exactly the missing number of zero frames, counts exactly one
/// underrun, and leaves the buffer empty. The hypotheses are what `read`
/// ensures of the two states it connects.
pub proof fn lemma_underrun_substitution(
    pre: SharedMemory,
    post: SharedMemory,
    wanted: int,
    out: Seq<u32>,
    got: int,
)
    requires
        pre.wf(),
        post.wf(),
        pre.occupied() < wanted,
        // the read step asking for `wanted` frames, as `read` ensures it:
        got == vstd::math::min(wanted, pre.occupied()),
        out == pre.contents().take(got) + silence(wanted - got),
        post.contents() == pre.contents().skip(got),
        got < wanted ==> post.header.underrun_count == pre.header.underrun_count.wrapping_add(1),
    ensures
        got == pre.occupied(),
        out == pre.contents() + silence(wanted - pre.occupied()),
        forall|k: int| got <= k < wanted ==> out[k] == 0u32,
        post.header.underrun_count == pre.header.underrun_count.wrapping_add(1),
        post.contents().len() == 0,
{
    lemma_capacity_bound(pre);
    lemma_capacity_bound(post);
    assert(out =~= pre.contents() + silence(wanted - pre.occupied()));
    assert(post.contents() =~= Seq::<u32>::empty());
}

/// One interaction with the ring: a producer call offering some frames,
/// or a consumer call asking for some number of frames.
pub enum RingOp {
    /// `write` called with these frames.
    Produce(Seq<u32>),
    /// `read` called with a buffer of this many frames.
    Consume(nat),
}

/// The queue left by running `ops`, oldest first, against an initially
/// empty ring of `cap` slots. Each step is the transformation that
/// `write` and `read` ensure of `contents()`.
pub open spec fn queue_after(ops: Seq<RingOp>, cap: int) -> Seq<u32>
    decreases ops.len(),
{
    if ops.len() == 0 {
        Seq::empty()
    } else {
        let queued = queue_after(ops.drop_last(), cap);
        match ops.last() {
            RingOp::Produce(frames) => queued + frames.take(
                accepted_count(queued.len() as int, frames.len() as int, cap),
            ),
            RingOp::Consume(wanted) => queued.skip(
                delivered_count(queued.len() as int, wanted as int),
            ),
        }
    }
}

/// Every sample the ring accepted from the producer over `ops`, in order.
pub open spec fn accepted_stream(ops: Seq<RingOp>, cap: int) -> Seq<u32>
    decreases ops.len(),
{
    if ops.len() == 0 {
        Seq::empty()
    } else {
        let queued = queue_after(ops.drop_last(), cap);
        let prior = accepted_stream(ops.drop_last(), cap);
        match ops.last() {
            RingOp::Produce(frames) => prior + frames.take(
                accepted_count(queued.len() as int, frames.len() as int, cap),
            ),
            RingOp::Consume(_) => prior,
        }
    }
}

/// Every real (non-silence) sample the ring delivered to the consumer
/// over `ops`, in order.
pub open spec fn delivered_stream(ops: Seq<RingOp>, cap: int) -> Seq<u32>
    decreases ops.len(),
{
    if ops.len() == 0 {
        Seq::empty()
    } else {
        let queued = queue_after(ops.drop_last(), cap);
        let prior = delivered_stream(ops.drop_last(), cap);
        match ops.last() {
            RingOp::Produce(_) => prior,
            RingOp::Consume(wanted) => prior + queued.take(
                delivered_count(queued.len() as int, wanted as int),
            ),
        }
    }
}

/// Wraparound correctness and conservation: over any sequence of writes
/// and reads — any chunk sizes, any number of index wraps — the real
/// samples delivered to the consumer, followed by what is still queued,
/// are exactly the samples accepted from the producer, in order and
/// bit-identical. In particular every accepted sample is delivered
/// exactly once, and the totals match once the queue is drained.
pub proof fn lemma_fifo_conservation(ops: Seq<RingOp>, cap: int)
    ensures
        delivered_stream(ops, cap) + queue_after(ops, cap) == accepted_stream(ops, cap),
    decreases ops.len(),
{
    if ops.len() == 0 {
        assert(delivered_stream(ops, cap) + queue_after(ops, cap)
            =~= accepted_stream(ops, cap));
    } else {
        let prior_ops = ops.drop_last();
        lemma_fifo_conservation(prior_ops, cap);
        let queued = queue_after(prior_ops, cap);
        match ops.last() {
            RingOp::Produce(_) => {
                assert(delivered_stream(ops, cap) + queue_after(ops, cap)
                    =~= accepted_stream(ops, cap));
            },
            RingOp::Consume(wanted) => {
                let d = delivered_count(queued.len() as int, wanted as int);
                assert(queued.take(d) + queued.skip(d) =~= queued);
                assert(delivered_stream(ops, cap) + queue_after(ops, cap)
                    =~= accepted_stream(ops, cap));
            },
        }
    }
}

} // verus!

