//! The room registry: the process-wide mapping from room key to room. It is
//! the single source of truth for live broadcast sessions; the caller guards
//! it with one lock and keeps the critical sections to the map operations
//! here, never an I/O wait.
use vstd::prelude::*;
use crate::room::{recv_post, Cursor, Room};
use std::collections::HashMap;

verus! {

/// The key that `uuid::Uuid::parse_str` reads out of a text, if any; a
/// function of the text's characters alone.
pub uninterp spec fn parsed_uuid(s: Seq<char>) -> Option<u128>;

/// The hyphenated textual form of a room key, as `uuid::Uuid` renders it; a
/// function of the key alone.
pub uninterp spec fn uuid_str_of(k: u128) -> Seq<char>;

/// Relies on `uuid::Uuid::parse_str` (and `Uuid::as_u128`): reads a room key
/// out of a textual identifier, or fails on malformed text.
#[verifier::external_body]
fn parse_room_key(s: &str) -> (r: Option<u128>)
    ensures
        r == parsed_uuid(s@),
{
    match uuid::Uuid::parse_str(s) {
        Ok(u) => Some(u.as_u128()),
        Err(_) => None,
    }
}

/// Relies on `uuid::Uuid::new_v4` (and `Uuid::as_u128`): a randomly
/// generated key. Nothing is promised of the value.
#[verifier::external_body]
fn fresh_room_key() -> (k: u128)
{
    uuid::Uuid::new_v4().as_u128()
}

/// Relies on `uuid::Uuid::to_string` (via `Uuid::from_u128`): renders the
/// key in its hyphenated form, which `uuid::Uuid::parse_str` parses back to
/// the same key.
#[verifier::external_body]
fn format_room_key(k: u128) -> (r: String)
    ensures
        r@ == uuid_str_of(k),
        parsed_uuid(r@) == Some(k),
{
    uuid::Uuid::from_u128(k).to_string()
}

/// Whether the text `s` names a live room of `m`: it parses as a key that
/// `m` holds. Fails closed on malformed text.
pub open spec fn live_spec(m: Map<u128, Room>, s: Seq<char>) -> bool {
    parsed_uuid(s) matches Some(k) && m.contains_key(k)
}

/// What attaching `addr` to the room named by `id` does: the room gains the
/// address (once — attachment is idempotent and subscribers are never
/// removed), its channel is untouched, every other room is untouched, and
/// the new cursor starts at the end of the room's history.
pub open spec fn attach_post(
    pre: Map<u128, Room>,
    post: Map<u128, Room>,
    id: Seq<char>,
    addr: Seq<char>,
    c: Cursor,
) -> bool {
    parsed_uuid(id) matches Some(k) && {
        let old_room = pre[k];
        let new_room = post[k];
        &&& c.room_key() == k
        &&& c.pos() == old_room.channel().hist_len()
        &&& post == pre.insert(k, new_room)
        &&& new_room.id() == k
        &&& new_room.channel() == old_room.channel()
        &&& new_room.has_sub(addr)
        &&& (old_room.has_sub(addr) ==> new_room.subs_seq() == old_room.subs_seq())
        &&& (!old_room.has_sub(addr) ==> new_room.subs_seq() =~= old_room.subs_seq().push(addr))
    }
}

/// Every registered room is well formed and keyed by its own id.
pub open spec fn rooms_wf(m: Map<u128, Room>) -> bool {
    forall|k: u128| #[trigger] m.contains_key(k) ==> m[k].wf() && m[k].id() == k
}

/// Returned where a subscriber names a room that is not registered.
#[derive(Clone, Copy, PartialEq, Eq, Structural, Debug)]
pub struct NotFound;

/// The mapping from room key to room.
///
/// Rooms are never removed once registered, and subscriber addresses are
/// never pruned on disconnect, so the registry grows for the lifetime of the
/// process. That leak is deliberate: trimming either would need an explicit
/// decision on the rooms' lifecycle, and the contracts here state the
/// grow-only behavior rather than hiding it.
pub struct Registry {
    rooms: HashMap<u128, Room>,
}

impl Registry {
    /// The registered rooms.
    pub closed spec fn rooms_map(self) -> Map<u128, Room> {
        self.rooms@
    }

    /// Every registered room is well formed and keyed by its own id.
    pub open spec fn wf(self) -> bool {
        rooms_wf(self.rooms_map())
    }

    /// An empty registry.
    pub fn new() -> (r: Registry)
        ensures
            r.wf(),
            r.rooms_map() == Map::<u128, Room>::empty(),
    {
        Registry { rooms: HashMap::new() }
    }

    /// Whether the text `id` names a live room. Fails closed: false on
    /// malformed text and on unknown keys, never an error.
    pub fn is_live(&self, id: &str) -> (r: bool)
        ensures
            r == live_spec(self.rooms_map(), id@),
    {
        match parse_room_key(id) {
            None => false,
            Some(k) => self.rooms.contains_key(&k),
        }
    }

    /// Builds a new room with a fresh fan-out channel and the initiating
    /// address as first subscriber, registers it under a fresh key, and
    /// returns the key's textual form. Always succeeds.
    pub fn create_and_register(&mut self, initial_subscriber: String) -> (id: String)
        requires
            old(self).wf(),
        ensures
            final(self).wf(),
            (parsed_uuid(id@) matches Some(k) && {
                let room = final(self).rooms_map()[k];
                &&& id@ == uuid_str_of(k)
                &&& final(self).rooms_map() == old(self).rooms_map().insert(k, room)
                &&& room.wf()
                &&& room.id() == k
                &&& room.subs_seq() =~= seq![initial_subscriber@]
                &&& room.channel().hist_len() == 0
                &&& room.channel().first() == 0
            }),
    {
        let k = fresh_room_key();
        let room = Room::new(k, initial_subscriber);
        let id = format_room_key(k);
        self.rooms.insert(k, room);
        proof {
            assert forall|j: u128| #[trigger] self.rooms@.contains_key(j) implies self.rooms@[j].wf()
                && self.rooms@[j].id() == j by {
                if j != k {
                    assert(old(self).rooms@.contains_key(j));
                }
            }
        }
        id
    }

    /// Atomically looks the room up and attaches `addr` to it, returning a
    /// new receive cursor that starts at the end of the room's history.
    /// Fails with `NotFound` exactly when `id` names no live room.
    pub fn attach_subscriber(&mut self, id: &str, addr: String) -> (r: Result<Cursor, NotFound>)
        requires
            old(self).wf(),
        ensures
            final(self).wf(),
            !live_spec(old(self).rooms_map(), id@) ==> r is Err && final(self).rooms_map()
                == old(self).rooms_map(),
            live_spec(old(self).rooms_map(), id@) ==> (r matches Ok(c) && attach_post(
                old(self).rooms_map(),
                final(self).rooms_map(),
                id@,
                addr@,
                c,
            )),
    {
        match parse_room_key(id) {
            None => Err(NotFound),
            Some(k) => {
                match self.rooms.remove(&k) {
                    None => {
                        proof {
                            assert(self.rooms@ =~= old(self).rooms@);
                        }
                        Err(NotFound)
                    },
                    Some(mut room) => {
                        room.add_subscriber(addr);
                        let cursor = room.new_cursor();
                        self.rooms.insert(k, room);
                        proof {
                            assert(self.rooms@ =~= old(self).rooms@.insert(k, self.rooms@[k]));
                            assert forall|j: u128| #[trigger]
                                self.rooms@.contains_key(j) implies self.rooms@[j].wf()
                                && self.rooms@[j].id() == j by {
                                if j != k {
                                    assert(old(self).rooms@.contains_key(j));
                                }
                            }
                        }
                        Ok(cursor)
                    },
                }
            },
        }
    }

    /// Publishes one frame on the channel of the room under `key`; every
    /// cursor attached to that room observes it. A frame published to an
    /// unregistered key is dropped.
    pub fn publish(&mut self, key: u128, msg: String) -> (accepted: bool)
        requires
            old(self).wf(),
        ensures
            final(self).wf(),
            !old(self).rooms_map().contains_key(key) ==> !accepted && final(self).rooms_map()
                == old(self).rooms_map(),
            old(self).rooms_map().contains_key(key) ==> {
                let old_room = old(self).rooms_map()[key];
                let new_room = final(self).rooms_map()[key];
                &&& final(self).rooms_map() == old(self).rooms_map().insert(key, new_room)
                &&& new_room.id() == old_room.id()
                &&& new_room.subs_seq() == old_room.subs_seq()
                &&& crate::room::publish_post(
                    old_room.channel(),
                    new_room.channel(),
                    msg@,
                    accepted,
                )
            },
    {
        match self.rooms.remove(&key) {
            None => {
                proof {
                    assert(self.rooms@ =~= old(self).rooms@);
                }
                false
            },
            Some(mut room) => {
                let accepted = room.publish(msg);
                self.rooms.insert(key, room);
                proof {
                    assert(self.rooms@ =~= old(self).rooms@.insert(key, self.rooms@[key]));
                    assert forall|j: u128| #[trigger] self.rooms@.contains_key(j) implies self.rooms@[j].wf()
                        && self.rooms@[j].id() == j by {
                        if j != key {
                            assert(old(self).rooms@.contains_key(j));
                        }
                    }
                }
                accepted
            },
        }
    }

    /// How many addresses are attached to the room under `key`, if it is
    /// registered.
    pub fn subscriber_count(&self, key: u128) -> (n: Option<usize>)
        ensures
            self.rooms_map().contains_key(key) ==> (n matches Some(c) && c
                == self.rooms_map()[key].subs_seq().len()),
            !self.rooms_map().contains_key(key) ==> n is None,
    {
        match self.rooms.get(&key) {
            None => None,
            Some(room) => Some(room.sub_count()),
        }
    }

    /// Receives the next frame for cursor `c` from its room's channel.
    /// Nothing is returned when the cursor has seen the whole history (or
    /// its room is not registered).
    pub fn recv(&self, c: &mut Cursor) -> (r: Option<String>)
        requires
            self.wf(),
        ensures
            !self.rooms_map().contains_key(old(c).room_key()) ==> r is None && *final(c) == *old(
                c,
            ),
            self.rooms_map().contains_key(old(c).room_key()) ==> recv_post(
                self.rooms_map()[old(c).room_key()].channel(),
                *old(c),
                *final(c),
                r,
            ),
    {
        let key = c.room();
        match self.rooms.get(&key) {
            None => None,
            Some(room) => room.recv(c),
        }
    }
}

/// Law: after a fresh room is registered under key `k`, a text names a live
/// room exactly when it parses to `k` or already named a live room before.
pub proof fn lemma_creation_liveness(m: Map<u128, Room>, k: u128, room: Room, s: Seq<char>)
    ensures
        live_spec(m.insert(k, room), s) <==> (parsed_uuid(s) == Some(k) || live_spec(m, s)),
{
}

/// Law: in a registry holding exactly one room, under key `k`, a text names
/// a live room exactly when it parses to `k`; any other identifier, and any
/// malformed text, is refused.
pub proof fn lemma_fresh_registry_liveness(k: u128, room: Room, s: Seq<char>)
    ensures
        live_spec(Map::<u128, Room>::empty().insert(k, room), s) <==> parsed_uuid(s) == Some(k),
{
}

} // verus!
