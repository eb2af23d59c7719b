//! One published service endpoint: a fixed-capacity ring of queued messages
//! plus a bitmask of execution contexts parked awaiting delivery.
//!
//! All state changes happen inside kernel system-call handling with exclusive
//! access to the endpoint, so none of the operations lock or block; parking a
//! context only records intent, and whether the thread yields is the outside
//! scheduler's decision.

use vstd::prelude::*;

use crate::message::{IpcError, Message, MessageEnvelope, ServiceId};

verus! {

/// Width of one queue slot in bytes: a tag word plus seven payload words.
/// A backing region of `n * SLOT_BYTES` bytes holds exactly `n` slots.
pub const SLOT_BYTES: usize = 32;

/// Number of schedulable thread slots per process: one ready bit per context.
pub const CONTEXT_COUNT: usize = 32;

/// One slot of the receive ring: either free, or one buffered message
/// together with its sender and destination context.
#[derive(Clone, Copy, Debug, PartialEq, Eq, Structural)]
#[allow(inconsistent_fields)]
pub enum QueuedMessage {
    Empty,
    Scalar { sender: usize, context: usize, msg: crate::message::ScalarMessage },
    Move { sender: usize, context: usize, msg: crate::message::MemoryMessage },
    ImmutableBorrow { sender: usize, context: usize, msg: crate::message::MemoryMessage },
    MutableBorrow { sender: usize, context: usize, msg: crate::message::MemoryMessage },
}

impl QueuedMessage {
    /// The envelope and destination context a non-empty slot stands for.
    pub open spec fn entry_view(self) -> (MessageEnvelope, usize)
        recommends
            self !is Empty,
    {
        match self {
            QueuedMessage::Empty => arbitrary(),
            QueuedMessage::Scalar { sender, context, msg } => (
                MessageEnvelope { sender, message: Message::Scalar(msg) },
                context,
            ),
            QueuedMessage::Move { sender, context, msg } => (
                MessageEnvelope { sender, message: Message::Move(msg) },
                context,
            ),
            QueuedMessage::ImmutableBorrow { sender, context, msg } => (
                MessageEnvelope { sender, message: Message::ImmutableBorrow(msg) },
                context,
            ),
            QueuedMessage::MutableBorrow { sender, context, msg } => (
                MessageEnvelope { sender, message: Message::MutableBorrow(msg) },
                context,
            ),
        }
    }

    /// The slot that buffers `envelope` for delivery to `context`.
    pub open spec fn slot_view(envelope: MessageEnvelope, context: usize) -> QueuedMessage {
        match envelope.message {
            Message::Scalar(msg) => QueuedMessage::Scalar { sender: envelope.sender, context, msg },
            Message::Move(msg) => QueuedMessage::Move { sender: envelope.sender, context, msg },
            Message::ImmutableBorrow(msg) => QueuedMessage::ImmutableBorrow {
                sender: envelope.sender,
                context,
                msg,
            },
            Message::MutableBorrow(msg) => QueuedMessage::MutableBorrow {
                sender: envelope.sender,
                context,
                msg,
            },
        }
    }
}

/// A slot buffers exactly what was handed to it: converting an envelope into
/// a slot and back reproduces the sender, the payload (scalar arguments or
/// memory descriptor, mode included) and the destination context unchanged.
pub proof fn lemma_slot_roundtrip(envelope: MessageEnvelope, context: usize)
    ensures
        QueuedMessage::slot_view(envelope, context) !is Empty,
        QueuedMessage::slot_view(envelope, context).entry_view() == (envelope, context),
{
}

/// While scanning a ready mask upward, `m >> c << c == m` records that every
/// bit below position `c` is clear. One more clear bit extends the record; a
/// mask whose thirty-two lowest bits are clear is zero.
proof fn lemma_bit_scan_step(m: u32, c: u32, d: u32)
    by (bit_vector)
    requires
        d == c + 1,
        c < 32,
        m >> c << c == m,
        m & (1u32 << c) == 0,
    ensures
        d < 32 ==> m >> d << d == m,
        d == 32 ==> m == 0,
{
}

/// If every bit of `m` below position `c` is clear, then any single bit
/// below `c` is clear.
proof fn lemma_bit_below_scan(m: u32, c: u32, j: u32)
    by (bit_vector)
    requires
        j < c,
        c < 32,
        m >> c << c == m,
    ensures
        m & (1u32 << j) == 0,
{
}

/// Setting bit `b` leaves a mask whose bit `j` is set iff it was set before
/// or `j` is `b`.
proof fn lemma_bit_set(m: u32, b: u32, j: u32)
    by (bit_vector)
    requires
        b < 32,
        j < 32,
    ensures
        (m | (1u32 << b)) & (1u32 << j) != 0 <==> (m & (1u32 << j) != 0 || j == b),
{
}

/// Clearing bit `b` leaves a mask whose bit `j` is set iff it was set before
/// and `j` is not `b`.
proof fn lemma_bit_clear(m: u32, b: u32, j: u32)
    by (bit_vector)
    requires
        b < 32,
        j < 32,
    ensures
        (m & !(1u32 << b)) & (1u32 << j) != 0 <==> (m & (1u32 << j) != 0 && j != b),
{
}

/// The pending sequence after buffering the messages of `ms` one by one, in
/// order: exactly what a run of successful `queue_message` calls leaves,
/// since each appends one entry at the back.
pub open spec fn enqueue_all(
    s: Seq<(MessageEnvelope, usize)>,
    ms: Seq<(MessageEnvelope, usize)>,
) -> Seq<(MessageEnvelope, usize)>
    decreases ms.len(),
{
    if ms.len() == 0 {
        s
    } else {
        enqueue_all(s.push(ms[0]), ms.drop_first())
    }
}

/// Buffering appends: the pending sequence after enqueueing `ms` on top of
/// `s` is `s` followed by `ms`.
proof fn lemma_enqueue_all_appends(s: Seq<(MessageEnvelope, usize)>, ms: Seq<(MessageEnvelope, usize)>)
    ensures
        enqueue_all(s, ms) == s + ms,
    decreases ms.len(),
{
    if ms.len() == 0 {
        assert(s + ms =~= s);
    } else {
        lemma_enqueue_all_appends(s.push(ms[0]), ms.drop_first());
        assert(s.push(ms[0]) + ms.drop_first() =~= s + ms);
    }
}

/// First-in, first-out. Enqueues on an otherwise-idle endpoint (nothing
/// pending) build the pending sequence `ms` itself, and after any number `k`
/// of dequeues — each of which, by `take_next_message`'s contract, returns
/// the front of the pending sequence and leaves the rest — the next dequeue
/// returns `ms[k]`. Delivery order is enqueue order, independent of each
/// message's destination context.
pub proof fn lemma_fifo(ms: Seq<(MessageEnvelope, usize)>)
    ensures
        enqueue_all(Seq::empty(), ms) == ms,
        forall|k: int|
            0 <= k < ms.len() ==> #[trigger] ms.skip(k)[0] == ms[k] && ms.skip(k).drop_first()
                == ms.skip(k + 1),
{
    lemma_enqueue_all_appends(Seq::empty(), ms);
    assert(Seq::empty() + ms =~= ms);
    assert forall|k: int|
        0 <= k < ms.len() implies #[trigger] ms.skip(k)[0] == ms[k] && ms.skip(k).drop_first()
        == ms.skip(k + 1) by {
        assert(ms.skip(k).drop_first() =~= ms.skip(k + 1));
    }
}

/// One service endpoint: identity, receive ring and ready-context mask.
pub struct Server {
    /// The service this endpoint answers for.
    pub sid: ServiceId,
    /// The process that registered the service.
    pub pid: u8,
    /// Removal cursor: the slot the next dequeue reads.
    pub queue_head: usize,
    /// Insertion cursor: the slot the next enqueue writes.
    pub queue_tail: usize,
    /// The receive ring, fixed length since creation.
    pub queue: Vec<QueuedMessage>,
    /// Bit `i` is set iff context `i` is parked awaiting a message.
    pub ready_contexts: u32,
}

impl Server {
    /// Number of slots in the receive ring.
    pub open spec fn capacity(self) -> int {
        self.queue.len() as int
    }

    /// Ring position of the `i`-th pending message, counting from the
    /// removal cursor.
    pub open spec fn slot_index(self, i: int) -> int
        recommends
            0 <= i < self.capacity(),
    {
        if self.queue_head + i < self.capacity() {
            self.queue_head + i
        } else {
            self.queue_head + i - self.capacity()
        }
    }

    /// How many messages are buffered. The cursors alone cannot tell a full
    /// ring from an empty one, so the slot under the removal cursor breaks
    /// the tie.
    pub open spec fn pending_len(self) -> int {
        if self.capacity() == 0 {
            0
        } else if self.queue_head == self.queue_tail {
            if self.queue[self.queue_head as int] is Empty {
                0
            } else {
                self.capacity()
            }
        } else if self.queue_tail > self.queue_head {
            self.queue_tail - self.queue_head
        } else {
            self.queue_tail - self.queue_head + self.capacity()
        }
    }

    /// The ring is well formed: cursors in range, and walking from the
    /// removal cursor meets exactly the pending messages, then free slots.
    pub open spec fn wf(self) -> bool {
        &&& self.capacity() == 0 ==> self.queue_head == 0 && self.queue_tail == 0
        &&& self.capacity() > 0 ==> self.queue_head < self.capacity() && self.queue_tail
            < self.capacity()
        &&& forall|i: int|
            0 <= i < self.capacity() ==> (#[trigger] self.queue[self.slot_index(i)] is Empty
                <==> self.pending_len() <= i)
    }

    /// The buffered messages in delivery order: each an envelope paired with
    /// its destination context.
    pub open spec fn pending(self) -> Seq<(MessageEnvelope, usize)> {
        Seq::new(self.pending_len() as nat, |i: int| self.queue[self.slot_index(i)].entry_view())
    }

    /// Whether context `context` is parked awaiting a message.
    pub open spec fn is_ready(self, context: usize) -> bool
        recommends
            context < CONTEXT_COUNT,
    {
        self.ready_contexts & (1u32 << (context as u32)) != 0
    }

    /// Publishes a service endpoint into the identity slot `new`, over a
    /// backing region of `queue_size` bytes supplied by the caller. The
    /// region is cut into `queue_size / SLOT_BYTES` slots, a remainder left
    /// unused; all slots start free, both cursors at the first slot, and no
    /// context parked. Creation over an occupied identity fails with
    /// `AlreadyExists` and leaves the resident endpoint untouched.
    pub fn init(
        new: &mut Option<Server>,
        pid: u8,
        sid: ServiceId,
        queue_size: usize,
    ) -> (r: Result<(), IpcError>)
        ensures
            (*old(new)) is Some ==> r == Err::<(), IpcError>(IpcError::AlreadyExists)
                && *final(new) == *old(new),
            (*old(new)) is None ==> r == Ok::<(), IpcError>(()) && ((*final(new)) matches Some(s)
                && s.wf()
                && s.sid == sid
                && s.pid == pid
                && s.capacity() == queue_size as int / SLOT_BYTES as int
                && s.pending() == Seq::<(MessageEnvelope, usize)>::empty()
                && s.ready_contexts == 0),
    {
        if new.is_some() {
            return Err(IpcError::AlreadyExists);
        }
        let count = queue_size / SLOT_BYTES;
        let mut queue: Vec<QueuedMessage> = Vec::new();
        let mut i: usize = 0;
        while i < count
            invariant
                i == queue.len(),
                i <= count,
                forall|j: int| 0 <= j < i ==> queue[j] is Empty,
            decreases count - i,
        {
            queue.push(QueuedMessage::Empty);
            i = i + 1;
        }
        let server = Server { sid, pid, queue_head: 0, queue_tail: 0, queue, ready_contexts: 0 };
        proof {
            assert(server.pending() =~= Seq::<(MessageEnvelope, usize)>::empty());
        }
        *new = Some(server);
        Ok(())
    }

    /// Appends `envelope`, addressed to `context`, at the insertion cursor
    /// and advances the cursor one slot, wrapping at the ring's end. This is
    /// the buffering path, taken only when no context is parked. A full ring
    /// — the slot under the insertion cursor still occupied — is reported as
    /// `QueueFull` with nothing mutated; the caller must surface it to the
    /// remote sender as backpressure, not retry here.
    pub fn queue_message(&mut self, envelope: MessageEnvelope, context: usize) -> (r: Result<
        (),
        IpcError,
    >)
        requires
            old(self).wf(),
        ensures
            final(self).wf(),
            old(self).pending().len() < old(self).capacity() ==> ({
                &&& r == Ok::<(), IpcError>(())
                &&& final(self).pending() == old(self).pending().push((envelope, context))
                &&& final(self).ready_contexts == old(self).ready_contexts
                &&& final(self).sid == old(self).sid
                &&& final(self).pid == old(self).pid
                &&& final(self).capacity() == old(self).capacity()
            }),
            old(self).pending().len() >= old(self).capacity() ==> ({
                &&& r == Err::<(), IpcError>(IpcError::QueueFull)
                &&& *final(self) == *old(self)
            }),
    {
        let cap = self.queue.len();
        if cap == 0 {
            return Err(IpcError::QueueFull);
        }
        let tail = self.queue_tail;
        let ghost s0 = *self;
        let ghost n = s0.pending_len();
        let ghost i_t: int = if tail >= s0.queue_head {
            tail - s0.queue_head
        } else {
            tail - s0.queue_head + cap
        };
        proof {
            assert(s0.slot_index(i_t) == tail as int);
            assert(s0.queue[s0.slot_index(i_t)] is Empty <==> n <= i_t);
        }
        if !matches!(self.queue[tail], QueuedMessage::Empty) {
            proof {
                assert(n == cap);
            }
            return Err(IpcError::QueueFull);
        }
        proof {
            assert(i_t == n);
            assert(n < cap);
        }
        let slot = match envelope.message {
            Message::Scalar(msg) => QueuedMessage::Scalar { sender: envelope.sender, context, msg },
            Message::Move(msg) => QueuedMessage::Move { sender: envelope.sender, context, msg },
            Message::ImmutableBorrow(msg) => QueuedMessage::ImmutableBorrow {
                sender: envelope.sender,
                context,
                msg,
            },
            Message::MutableBorrow(msg) => QueuedMessage::MutableBorrow {
                sender: envelope.sender,
                context,
                msg,
            },
        };
        proof {
            assert(slot == QueuedMessage::slot_view(envelope, context));
            lemma_slot_roundtrip(envelope, context);
        }
        self.queue[tail] = slot;
        self.queue_tail = if tail + 1 == cap {
            0
        } else {
            tail + 1
        };
        proof {
            let s1 = *self;
            assert(s0.slot_index(0) == s0.queue_head as int);
            assert(s0.queue[s0.slot_index(0)] is Empty <==> n <= 0);
            if s1.queue_head == s1.queue_tail {
                assert(n + 1 == cap);
                assert(s1.queue[s1.queue_head as int] !is Empty);
            }
            assert(s1.pending_len() == n + 1);
            assert forall|i: int| 0 <= i < cap implies (#[trigger] s1.queue[s1.slot_index(i)]
                is Empty <==> s1.pending_len() <= i) by {
                assert(s1.slot_index(i) == s0.slot_index(i));
                if i != n {
                    assert(s0.slot_index(i) != tail as int);
                    assert(s0.queue[s0.slot_index(i)] is Empty <==> n <= i);
                }
            }
            assert(s1.wf());
            assert forall|k: int| 0 <= k < n implies s1.pending()[k] == s0.pending()[k] by {
                assert(s0.slot_index(k) != tail as int);
            }
            assert(s1.pending() =~= s0.pending().push((envelope, context)));
        }
        Ok(())
    }

    /// Removes the message under the removal cursor, frees its slot and
    /// advances the cursor one slot, wrapping at the ring's end; the slot is
    /// handed back as the public envelope paired with its destination
    /// context. An empty queue yields `None` and mutates nothing. Delivery
    /// order is enqueue order — no reordering by destination context or
    /// message kind.
    pub fn take_next_message(&mut self) -> (r: Option<(MessageEnvelope, usize)>)
        requires
            old(self).wf(),
        ensures
            final(self).wf(),
            old(self).pending().len() == 0 ==> r is None && *final(self) == *old(self),
            old(self).pending().len() > 0 ==> ({
                &&& r == Some(old(self).pending()[0])
                &&& final(self).pending() == old(self).pending().drop_first()
                &&& final(self).ready_contexts == old(self).ready_contexts
                &&& final(self).sid == old(self).sid
                &&& final(self).pid == old(self).pid
                &&& final(self).capacity() == old(self).capacity()
            }),
    {
        let cap = self.queue.len();
        if cap == 0 {
            return None;
        }
        let head = self.queue_head;
        let ghost s0 = *self;
        let ghost n = s0.pending_len();
        proof {
            assert(s0.slot_index(0) == head as int);
            assert(s0.queue[s0.slot_index(0)] is Empty <==> n <= 0);
        }
        let slot = self.queue[head];
        let result: (MessageEnvelope, usize) = match slot {
            QueuedMessage::Empty => {
                return None;
            },
            QueuedMessage::Scalar { sender, context, msg } => (
                MessageEnvelope { sender, message: Message::Scalar(msg) },
                context,
            ),
            QueuedMessage::Move { sender, context, msg } => (
                MessageEnvelope { sender, message: Message::Move(msg) },
                context,
            ),
            QueuedMessage::ImmutableBorrow { sender, context, msg } => (
                MessageEnvelope { sender, message: Message::ImmutableBorrow(msg) },
                context,
            ),
            QueuedMessage::MutableBorrow { sender, context, msg } => (
                MessageEnvelope { sender, message: Message::MutableBorrow(msg) },
                context,
            ),
        };
        proof {
            assert(n > 0);
            assert(result == slot.entry_view());
        }
        self.queue[head] = QueuedMessage::Empty;
        self.queue_head = if head + 1 == cap {
            0
        } else {
            head + 1
        };
        proof {
            let s1 = *self;
            if n < cap {
                assert(s0.slot_index(n) == s0.queue_tail as int);
            }
            assert(s1.pending_len() == n - 1);
            assert forall|i: int| 0 <= i < cap implies (#[trigger] s1.queue[s1.slot_index(i)]
                is Empty <==> s1.pending_len() <= i) by {
                if i < cap - 1 {
                    assert(s1.slot_index(i) == s0.slot_index(i + 1));
                    assert(s0.slot_index(i + 1) != head as int);
                    assert(s0.queue[s0.slot_index(i + 1)] is Empty <==> n <= i + 1);
                } else {
                    assert(s1.slot_index(i) == head as int);
                }
            }
            assert(s1.wf());
            assert forall|k: int| 0 <= k < n - 1 implies s1.pending()[k] == s0.pending()[k + 1] by {
                assert(s1.slot_index(k) == s0.slot_index(k + 1));
                assert(s0.slot_index(k + 1) != head as int);
            }
            assert(s1.pending() =~= s0.pending().drop_first());
        }
        Some(result)
    }

    /// Claims the lowest-indexed parked context and clears its ready bit:
    /// the rendezvous fast path asks here before buffering anything. Returns
    /// `None` exactly when no context is parked, which is normal operation,
    /// not an error. Selection is deliberately biased toward lower-indexed
    /// contexts rather than rotating fairly.
    pub fn take_available_context(&mut self) -> (r: Option<usize>)
        ensures
            r is None <==> old(self).ready_contexts == 0,
            r is None ==> *final(self) == *old(self),
            r matches Some(c) ==> c < CONTEXT_COUNT && old(self).is_ready(c) && (forall|j: usize|
                j < c ==> !old(self).is_ready(j)) && final(self).ready_contexts == (
            old(self).ready_contexts & !(1u32 << (c as u32))) && (forall|j: usize|
                j < CONTEXT_COUNT ==> (#[trigger] final(self).is_ready(j) <==> old(self).is_ready(j)
                    && j != c)),
            final(self).sid == old(self).sid,
            final(self).pid == old(self).pid,
            final(self).queue_head == old(self).queue_head,
            final(self).queue_tail == old(self).queue_tail,
            final(self).queue == old(self).queue,
    {
        if self.ready_contexts == 0 {
            return None;
        }
        let mask = self.ready_contexts;
        proof {
            assert(mask >> 0u32 << 0u32 == mask) by (bit_vector);
        }
        let mut ctx: u32 = 0;
        while ctx < 32
            invariant
                *self == *old(self),
                mask == old(self).ready_contexts,
                mask != 0,
                ctx <= 32,
                ctx < 32 ==> mask >> ctx << ctx == mask,
                ctx == 32 ==> false,
            decreases 32 - ctx,
        {
            if mask & (1u32 << ctx) != 0 {
                self.ready_contexts = mask & !(1u32 << ctx);
                proof {
                    assert forall|j: usize| j < ctx as usize implies !old(self).is_ready(j) by {
                        lemma_bit_below_scan(mask, ctx, j as u32);
                    }
                    assert forall|j: usize|
                        j < CONTEXT_COUNT implies (#[trigger] self.is_ready(j) <==> old(
                        self,
                    ).is_ready(j) && j != ctx as usize) by {
                        lemma_bit_clear(mask, ctx, j as u32);
                    }
                }
                return Some(ctx as usize);
            }
            proof {
                lemma_bit_scan_step(mask, ctx, (ctx + 1) as u32);
            }
            ctx = ctx + 1;
        }
        None
    }

    /// Records that context `context` is parked on a blocking receive. Only
    /// the matching ready bit changes; the queue is untouched.
    pub fn park_context(&mut self, context: usize)
        requires
            context < CONTEXT_COUNT,
        ensures
            final(self).ready_contexts == old(self).ready_contexts | (1u32 << (context as u32)),
            forall|c: usize|
                c < CONTEXT_COUNT ==> (#[trigger] final(self).is_ready(c) <==> old(self).is_ready(c)
                    || c == context),
            final(self).sid == old(self).sid,
            final(self).pid == old(self).pid,
            final(self).queue_head == old(self).queue_head,
            final(self).queue_tail == old(self).queue_tail,
            final(self).queue == old(self).queue,
    {
        self.ready_contexts = self.ready_contexts | (1u32 << (context as u32));
        proof {
            assert forall|c: usize|
                c < CONTEXT_COUNT implies (#[trigger] self.is_ready(c) <==> old(self).is_ready(c)
                || c == context) by {
                lemma_bit_set(old(self).ready_contexts, context as u32, c as u32);
            }
        }
    }
}

} // verus!
