//! One broadcast room: a unique identifier, the set of subscriber addresses,
//! and a bounded multi-consumer fan-out channel. Every published frame is
//! appended to the room's history; each cursor tracks its own read position
//! independently. A cursor that falls more than the buffer capacity behind
//! loses the oldest unread frames (drop-oldest) rather than blocking the
//! publisher.
use vstd::prelude::*;

verus! {

/// How many published frames the fan-out channel retains for slow cursors.
pub const CHANNEL_CAPACITY: usize = 11;

/// A bounded multi-consumer fan-out channel. The channel's full publication
/// history is a sequence of frames; only the most recent `CHANNEL_CAPACITY`
/// of them are retained for cursors that lag behind.
pub struct Channel {
    buffer: Vec<String>,
    start: u64,
}

/// An independent receive cursor on one room's channel: the next history
/// index this subscriber will read, together with the key of the room the
/// cursor is attached to.
#[derive(Clone, Copy, PartialEq, Eq, Structural, Debug)]
pub struct Cursor {
    pub(crate) room: u128,
    pub(crate) pos: u64,
}

impl Cursor {
    /// The key of the room this cursor is attached to.
    pub closed spec fn room_key(self) -> u128 {
        self.room
    }

    /// The next history index this cursor will read.
    pub closed spec fn pos(self) -> int {
        self.pos as int
    }

    /// The key of the room this cursor is attached to.
    pub fn room(&self) -> (k: u128)
        ensures
            k == self.room_key(),
    {
        self.room
    }
}

/// The history index a cursor at position `p` reads next: its own position,
/// or the oldest retained index if the cursor has lagged behind it.
pub open spec fn recv_index(ch: Channel, p: int) -> int {
    if p >= ch.first() {
        p
    } else {
        ch.first()
    }
}

/// What one publication does to a channel: the frame is appended to the
/// history, earlier retained frames keep their places, and the oldest one is
/// dropped exactly when the buffer was full. Publication is refused only at
/// the machine limit of the history counter.
pub open spec fn publish_post(c1: Channel, c2: Channel, m: Seq<char>, accepted: bool) -> bool {
    &&& c2.wf()
    &&& (accepted <==> c1.hist_len() < u64::MAX)
    &&& accepted ==> {
        &&& c2.hist_len() == c1.hist_len() + 1
        &&& c2.msg_at(c1.hist_len()) == m
        &&& c2.first() == if c1.hist_len() - c1.first() < CHANNEL_CAPACITY {
            c1.first()
        } else {
            c1.first() + 1
        }
        &&& forall|i: int| c2.first() <= i < c1.hist_len() ==> c2.msg_at(i) == c1.msg_at(i)
    }
    &&& !accepted ==> c2 == c1
}

/// What one receive does to a cursor on channel `ch`: nothing is returned
/// once the cursor has seen the whole history; otherwise the frame at
/// `recv_index` is returned and the cursor moves just past it.
pub open spec fn recv_post(ch: Channel, c1: Cursor, c2: Cursor, r: Option<String>) -> bool {
    &&& c2.room_key() == c1.room_key()
    &&& c1.pos() >= ch.hist_len() ==> (r is None && c2.pos() == c1.pos())
    &&& c1.pos() < ch.hist_len() ==> {
        let i = recv_index(ch, c1.pos());
        &&& (r matches Some(m) && m@ == ch.msg_at(i))
        &&& c2.pos() == i + 1
    }
}

impl Channel {
    /// The oldest history index still retained.
    pub closed spec fn first(self) -> int {
        self.start as int
    }

    /// How many frames have ever been published on this channel.
    pub closed spec fn hist_len(self) -> int {
        self.start + self.buffer@.len()
    }

    /// The frame published at history index `i`, for retained indices
    /// (`first() <= i < hist_len()`).
    pub closed spec fn msg_at(self, i: int) -> Seq<char> {
        self.buffer@[i - self.start]@
    }

    /// At most `CHANNEL_CAPACITY` frames are retained, and the history
    /// length fits the cursor positions' range.
    pub closed spec fn wf(self) -> bool {
        &&& self.buffer@.len() <= CHANNEL_CAPACITY
        &&& self.start + self.buffer@.len() <= u64::MAX
        &&& self.buffer@.len() == 0 ==> self.start == 0
    }

    /// A fresh channel with an empty history.
    pub fn new() -> (c: Channel)
        ensures
            c.wf(),
            c.hist_len() == 0,
            c.first() == 0,
    {
        Channel { buffer: Vec::new(), start: 0 }
    }

    /// A new cursor on this channel for the room under `room`: it starts at
    /// the end of the history, so it observes only frames published after
    /// the attachment.
    pub fn attach(&self, room: u128) -> (c: Cursor)
        requires
            self.wf(),
        ensures
            c.room_key() == room,
            c.pos() == self.hist_len(),
    {
        Cursor { room, pos: self.start + self.buffer.len() as u64 }
    }

    /// Publishes one frame: appends it to the history, dropping the oldest
    /// retained frame when the buffer is full. Publication only fails at the
    /// machine limit of the history counter.
    pub fn publish(&mut self, msg: String) -> (accepted: bool)
        requires
            old(self).wf(),
        ensures
            publish_post(*old(self), *final(self), msg@, accepted),
    {
        if self.start >= u64::MAX - (self.buffer.len() as u64) {
            return false;
        }
        if self.buffer.len() == CHANNEL_CAPACITY {
            self.buffer.remove(0);
            self.start = self.start + 1;
        }
        self.buffer.push(msg);
        true
    }

    /// Receives the next frame for `c`: nothing if the cursor has seen the
    /// whole history, otherwise the frame at the cursor's position — or, if
    /// that frame was dropped, the oldest retained one, skipping what was
    /// lost to the lag.
    pub fn recv(&self, c: &mut Cursor) -> (r: Option<String>)
        requires
            self.wf(),
        ensures
            recv_post(*self, *old(c), *final(c), r),
    {
        if c.pos >= self.start + self.buffer.len() as u64 {
            return None;
        }
        if c.pos < self.start {
            c.pos = self.start;
        }
        proof {
            assert(c.pos - self.start < self.buffer@.len());
        }
        let idx = (c.pos - self.start) as usize;
        let msg = self.buffer[idx].clone();
        c.pos = c.pos + 1;
        Some(msg)
    }

    /// Receives everything the cursor has yet to read: exactly the frames
    /// from its receive index to the history end, in publish order. This is
    /// the delivery guarantee in one piece — a cursor attached before some
    /// publications observes all of them that its lag has not dropped, in
    /// the order they were published, and nothing from before its
    /// attachment.
    pub fn drain(&self, c: &mut Cursor) -> (msgs: Vec<String>)
        requires
            self.wf(),
        ensures
            final(c).room_key() == old(c).room_key(),
            old(c).pos() >= self.hist_len() ==> msgs@.len() == 0 && final(c).pos() == old(
                c,
            ).pos(),
            old(c).pos() < self.hist_len() ==> {
                let start = recv_index(*self, old(c).pos());
                &&& final(c).pos() == self.hist_len()
                &&& msgs@.len() == self.hist_len() - start
                &&& forall|j: int|
                    0 <= j < msgs@.len() ==> msgs@[j]@ == self.msg_at(start + j)
            },
    {
        let mut msgs: Vec<String> = Vec::new();
        let total = self.start + self.buffer.len() as u64;
        if c.pos >= total {
            return msgs;
        }
        if c.pos < self.start {
            c.pos = self.start;
        }
        let ghost start = c.pos as int;
        while c.pos < total
            invariant
                self.wf(),
                total == self.hist_len(),
                c.room_key() == old(c).room_key(),
                self.first() <= start <= c.pos() <= self.hist_len(),
                msgs@.len() == c.pos() - start,
                forall|j: int| 0 <= j < msgs@.len() ==> msgs@[j]@ == self.msg_at(start + j),
            decreases self.hist_len() - c.pos(),
        {
            match self.recv(c) {
                Some(m) => msgs.push(m),
                None => {
                    proof {
                        assert(false);
                    }
                },
            }
        }
        msgs
    }
}

/// Law: frames are observed in publish order. Whatever a cursor receives
/// next after reading the frame at `recv_index(ch, p)` stands strictly later
/// in the history.
pub proof fn lemma_in_order_delivery(ch: Channel, p: int)
    ensures
        recv_index(ch, recv_index(ch, p) + 1) > recv_index(ch, p),
{
}

/// Law: nothing inside the retained window is skipped. A cursor positioned
/// anywhere in the window receives exactly the frame at its own position, so
/// a cursor attached before a publication receives it (in order) as long as
/// it has not lagged out of the window.
pub proof fn lemma_window_complete(ch: Channel, q: int)
    requires
        ch.first() <= q,
    ensures
        recv_index(ch, q) == q,
{
}

/// Law: a cursor attached after a publication never observes it. The cursor
/// starts at the history end of its attachment time, and what it reads never
/// falls below that position.
pub proof fn lemma_no_replay(ch: Channel, p: int, i: int)
    requires
        i < p,
    ensures
        recv_index(ch, p) > i,
{
}

/// Law: a lagging cursor loses exactly the frames that fell out of the
/// retained window — it resumes at the oldest retained frame, and the window
/// never holds more than `CHANNEL_CAPACITY` frames.
pub proof fn lemma_lag_drops_oldest(ch: Channel, p: int)
    requires
        ch.wf(),
        p < ch.first(),
    ensures
        recv_index(ch, p) == ch.first(),
        ch.hist_len() - ch.first() <= CHANNEL_CAPACITY,
{
}

/// Law: a cursor standing at the history end when a frame is published
/// receives exactly that frame next.
pub proof fn lemma_publish_then_recv(c1: Channel, c2: Channel, m: Seq<char>, p: int)
    requires
        c1.wf(),
        publish_post(c1, c2, m, true),
        p == c1.hist_len(),
    ensures
        recv_index(c2, p) == p,
        c2.msg_at(p) == m,
{
}

/// A broadcast room: its unique key, the addresses attached to it, and its
/// fan-out channel.
pub struct Room {
    id: u128,
    subs: Vec<String>,
    channel: Channel,
}

impl Room {
    /// The room's key.
    pub closed spec fn id(self) -> u128 {
        self.id
    }

    /// The subscriber addresses, in attachment order.
    pub closed spec fn subs_seq(self) -> Seq<Seq<char>> {
        self.subs@.map_values(|s: String| s@)
    }

    /// Whether `addr` is among the subscriber addresses.
    pub open spec fn has_sub(self, addr: Seq<char>) -> bool {
        exists|i: int| 0 <= i < self.subs_seq().len() && self.subs_seq()[i] == addr
    }

    /// The room's fan-out channel.
    pub closed spec fn channel(self) -> Channel {
        self.channel
    }

    /// The channel is well formed and no address appears twice.
    pub closed spec fn wf(self) -> bool {
        &&& self.channel.wf()
        &&& forall|i: int, j: int|
            0 <= i < j < self.subs@.len() ==> self.subs@[i]@ != self.subs@[j]@
    }

    /// A fresh room under `id`, with `initial_subscriber` attached and an
    /// empty channel.
    pub fn new(id: u128, initial_subscriber: String) -> (r: Room)
        ensures
            r.wf(),
            r.id() == id,
            r.subs_seq() =~= seq![initial_subscriber@],
            r.channel().hist_len() == 0,
            r.channel().first() == 0,
    {
        let mut subs: Vec<String> = Vec::new();
        subs.push(initial_subscriber);
        Room { id, subs, channel: Channel::new() }
    }

    /// Adds `addr` to the subscriber set; an address already attached is
    /// kept once (insertion is idempotent, and subscribers are never
    /// removed).
    pub fn add_subscriber(&mut self, addr: String)
        requires
            old(self).wf(),
        ensures
            final(self).wf(),
            final(self).id() == old(self).id(),
            final(self).channel() == old(self).channel(),
            old(self).has_sub(addr@) ==> final(self).subs_seq() == old(self).subs_seq(),
            !old(self).has_sub(addr@) ==> final(self).subs_seq() =~= old(self).subs_seq().push(
                addr@,
            ),
            final(self).has_sub(addr@),
    {
        let n = self.subs.len();
        let mut i: usize = 0;
        while i < n
            invariant
                *self == *old(self),
                self.wf(),
                n == self.subs@.len(),
                0 <= i <= n,
                forall|j: int| 0 <= j < i ==> self.subs@[j]@ != addr@,
            decreases n - i,
        {
            let same = {
                let here = self.subs[i].clone();
                here == addr
            };
            if same {
                proof {
                    assert(self.subs_seq()[i as int] == addr@);
                }
                return ;
            }
            i = i + 1;
        }
        self.subs.push(addr);
        proof {
            assert(self.subs_seq()[old(self).subs@.len() as int] == addr@);
        }
    }

    /// How many addresses are attached to this room.
    pub fn sub_count(&self) -> (n: usize)
        ensures
            n == self.subs_seq().len(),
    {
        self.subs.len()
    }

    /// A new cursor on this room's channel, starting at the end of the
    /// history.
    pub fn new_cursor(&self) -> (c: Cursor)
        requires
            self.wf(),
        ensures
            c.room_key() == self.id(),
            c.pos() == self.channel().hist_len(),
    {
        self.channel.attach(self.id)
    }

    /// Publishes one frame on this room's channel.
    pub fn publish(&mut self, msg: String) -> (accepted: bool)
        requires
            old(self).wf(),
        ensures
            final(self).wf(),
            final(self).id() == old(self).id(),
            final(self).subs_seq() == old(self).subs_seq(),
            publish_post(old(self).channel(), final(self).channel(), msg@, accepted),
    {
        self.channel.publish(msg)
    }

    /// Receives the next frame on this room's channel for cursor `c`.
    pub fn recv(&self, c: &mut Cursor) -> (r: Option<String>)
        requires
            self.wf(),
        ensures
            recv_post(self.channel(), *old(c), *final(c), r),
    {
        self.channel.recv(c)
    }
}

} // verus!
