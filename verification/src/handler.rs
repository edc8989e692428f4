//! The per-connection handlers' decision logic. A connection runs one or two
//! pumps; each pump's step is a function from the registry state and one
//! socket event to the next registry state and a signal. The caller performs
//! the socket I/O, keeps the registry behind its lock, and pairs the
//! broadcaster's two pumps so that whichever stops first cancels the other.
use vstd::prelude::*;
use crate::protocol::{
    invalid_notice, is_forwarded, lower_of, process_frame, spec_command_of, FrameDisposition,
};
use crate::registry::{attach_post, live_spec, parsed_uuid, uuid_str_of, Registry};
use crate::room::{publish_post, Cursor, Room};
use vstd::string::StringExecFns;

verus! {

/// Whether a pump keeps running after one step.
#[derive(Clone, Copy, PartialEq, Eq, Structural, Debug)]
pub enum PumpSignal {
    Continue,
    Stop,
}

/// One observation of the broadcaster's socket: a text frame, or the end of
/// the stream (the socket closed, failed, or yielded a non-text frame).
pub enum SocketEvent {
    Frame(String),
    Closed,
}

/// The join notice published when a broadcast starts.
pub open spec fn join_notice(id: Seq<char>, addr: Seq<char>) -> Seq<char> {
    "Broadcast "@ + id + " started. "@ + addr + " joined."@
}

/// The reply sent to a subscriber whose first frame names no live room.
pub open spec fn refusal_notice() -> Seq<char> {
    "Broadcast doesn't exist!"@
}

/// Builds the join notice for a new broadcast.
fn build_join_notice(id: &str, addr: &str) -> (r: String)
    ensures
        r@ == join_notice(id@, addr@),
{
    let mut s = String::from_str("Broadcast ");
    s.append(id);
    s.append(" started. ");
    s.append(addr);
    s.append(" joined.");
    proof {
        assert(s@ =~= join_notice(id@, addr@));
    }
    s
}

/// What one step of the broadcaster's inbound pump does to the rooms: the
/// terminate command stops the pump and publishes nothing; any other frame
/// keeps it running and publishes, on the broadcaster's own room, the frame
/// itself if recognized and the fixed invalid notice otherwise.
pub open spec fn inbound_step_post(
    pre: Map<u128, Room>,
    post: Map<u128, Room>,
    key: u128,
    frame: Seq<char>,
    s: PumpSignal,
) -> bool {
    let cmd = spec_command_of(lower_of(frame));
    &&& (s is Stop <==> cmd is End)
    &&& (cmd is End ==> post == pre)
    &&& (!pre.contains_key(key) ==> post == pre)
    &&& (!(cmd is End) && pre.contains_key(key) ==> {
        let old_room = pre[key];
        let new_room = post[key];
        let published = if is_forwarded(cmd) {
            frame
        } else {
            invalid_notice()
        };
        &&& post == pre.insert(key, new_room)
        &&& new_room.id() == old_room.id()
        &&& new_room.subs_seq() == old_room.subs_seq()
        &&& publish_post(
            old_room.channel(),
            new_room.channel(),
            published,
            old_room.channel().hist_len() < u64::MAX,
        )
    })
}

/// Initializes a broadcaster connection: registers a fresh room with the
/// broadcaster's address as first subscriber, attaches the broadcaster's own
/// receive cursor, and publishes the join notice (self-observable, since the
/// broadcaster listens to its own channel). Returns the room's textual id
/// and the cursor.
pub fn broadcaster_init(reg: &mut Registry, addr: String) -> (r: (String, Cursor))
    requires
        old(reg).wf(),
    ensures
        final(reg).wf(),
        (parsed_uuid(r.0@) matches Some(k) && {
            let room = final(reg).rooms_map()[k];
            &&& r.0@ == uuid_str_of(k)
            &&& final(reg).rooms_map() == old(reg).rooms_map().insert(k, room)
            &&& room.wf()
            &&& room.id() == k
            &&& room.subs_seq() =~= seq![addr@]
            &&& room.channel().first() == 0
            &&& room.channel().hist_len() == 1
            &&& room.channel().msg_at(0) == join_notice(r.0@, addr@)
            &&& r.1.room_key() == k
            &&& r.1.pos() == 0
        }),
{
    let id = reg.create_and_register(addr.clone());
    let ghost map1 = reg.rooms_map();
    proof {
        let k = parsed_uuid(id@)->Some_0;
        assert(map1[k].subs_seq()[0] == addr@);
    }
    let cursor = match reg.attach_subscriber(id.as_str(), addr.clone()) {
        Ok(c) => c,
        Err(_) => unreached(),
    };
    let notice = build_join_notice(id.as_str(), addr.as_str());
    let key = cursor.room();
    let _ = reg.publish(key, notice);
    proof {
        let k = parsed_uuid(id@)->Some_0;
        assert(reg.rooms_map() =~= old(reg).rooms_map().insert(k, reg.rooms_map()[k]));
    }
    (id, cursor)
}

/// One step of the broadcaster's inbound pump on a received text frame: the
/// frame goes through the command protocol and the result is published on
/// the broadcaster's room, except for the terminate command, which stops the
/// pump without being published.
pub fn broadcaster_step(reg: &mut Registry, key: u128, frame: String) -> (s: PumpSignal)
    requires
        old(reg).wf(),
    ensures
        final(reg).wf(),
        inbound_step_post(old(reg).rooms_map(), final(reg).rooms_map(), key, frame@, s),
{
    match process_frame(frame) {
        FrameDisposition::Halt => PumpSignal::Stop,
        FrameDisposition::Publish(m) => {
            let _ = reg.publish(key, m);
            PumpSignal::Continue
        },
    }
}

/// One step of the broadcaster's inbound pump on a socket event: the end of
/// the stream stops the pump (its partner pump is then cancelled by the
/// caller); a text frame is handled by the command protocol.
pub fn broadcaster_handle_event(reg: &mut Registry, key: u128, event: SocketEvent) -> (s:
    PumpSignal)
    requires
        old(reg).wf(),
    ensures
        final(reg).wf(),
        event is Closed ==> s is Stop && final(reg).rooms_map() == old(reg).rooms_map(),
        (event matches SocketEvent::Frame(f) ==> inbound_step_post(
            old(reg).rooms_map(),
            final(reg).rooms_map(),
            key,
            f@,
            s,
        )),
{
    match event {
        SocketEvent::Closed => PumpSignal::Stop,
        SocketEvent::Frame(f) => broadcaster_step(reg, key, f),
    }
}

/// The subscriber's one-shot handshake on its first text frame: if the frame
/// names a live room, the subscriber's address is attached to it and a new
/// receive cursor on the room's channel is returned; otherwise the
/// connection is refused with the fixed rejection notice and no room is
/// touched.
pub fn subscriber_handshake(reg: &mut Registry, first_frame: &str, addr: String) -> (r: Result<
    Cursor,
    String,
>)
    requires
        old(reg).wf(),
    ensures
        final(reg).wf(),
        !live_spec(old(reg).rooms_map(), first_frame@) ==> (r matches Err(m) && m@
            == refusal_notice() && final(reg).rooms_map() == old(reg).rooms_map()),
        live_spec(old(reg).rooms_map(), first_frame@) ==> (r matches Ok(c) && attach_post(
            old(reg).rooms_map(),
            final(reg).rooms_map(),
            first_frame@,
            addr@,
            c,
        )),
{
    match reg.attach_subscriber(first_frame, addr) {
        Ok(c) => Ok(c),
        Err(_) => Err(String::from_str("Broadcast doesn't exist!")),
    }
}

} // verus!
