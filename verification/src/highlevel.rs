//! The broadcast side: the connection registry, the onboarding step for new
//! event-stream connections, the per-change broadcast step, and the wire
//! format of event-stream frames.
//!
//! Each registry entry carries a ghost record of the snapshot it was greeted
//! with and of every frame handed to its channel since. Well-formedness
//! states the ordering guarantee: a subscriber's first frame is its snapshot,
//! and later frames follow in broadcast order.

use vstd::prelude::*;
use vstd::seq_lib::lemma_seq_contains;
use vstd::seq_lib::lemma_seq_contains_after_push;

use crate::access_control::{spec_auth_addr, spec_auth_token, AccessControl, AccessInfo, BindAddr};
use crate::channel::{sender_clone, sender_try_send};
use crate::errors::Error;
use crate::lowlevel::{EventChunkSender, NewEventStreamConnection};
use crate::session::{spec_uuid_text, uuid_text};
use crate::types::{AccessToken, ConnectionKey, SessionKey};
use crate::util::{push_all, to_vec};

verus! {

/// The type of a connection event: either a connect with a sink for
/// messages to the connected client, or a disconnection.
pub enum ConnectionEventType {
    /// A connection event, carrying a sender for the new connection.
    Connect(EventChunkSender),
    /// A disconnection event.
    Disconnect,
}

/// State associated with connection or disconnection.
pub struct ConnectionEvent {
    /// The type of connection for this event.
    pub typ: ConnectionEventType,
    /// Identifier of the session (one per browser).
    pub session_key: SessionKey,
    /// Identifier of the connection (one per tab).
    pub connection_key: ConnectionKey,
    /// The path that the connection requested.
    pub path: Vec<u8>,
}

/// One registered connection: its identity, its channel, and the ghost
/// record of everything handed to it.
pub struct RegistryEntry {
    /// Identifier of the connection.
    pub connection_key: ConnectionKey,
    /// Identifier of the owning session.
    pub session_key: SessionKey,
    /// The connection's channel.
    pub tx: EventChunkSender,
    /// The path the connection requested.
    pub path: Vec<u8>,
    /// The snapshot frame this connection was greeted with.
    pub snapshot: Ghost<Seq<u8>>,
    /// Every frame handed to this connection, in order.
    pub sent: Ghost<Seq<Seq<u8>>>,
}

/// The connection registry: every live event-stream connection.
pub struct Registry {
    entries: Vec<RegistryEntry>,
}

impl Registry {
    /// Number of live connections.
    pub closed spec fn count(&self) -> int {
        self.entries.len() as int
    }

    /// The connection key of entry `i`.
    pub closed spec fn key_at(&self, i: int) -> u32 {
        self.entries[i].connection_key.0
    }

    /// The session of entry `i`.
    pub closed spec fn session_at(&self, i: int) -> SessionKey {
        self.entries[i].session_key
    }

    /// The requested path of entry `i`.
    pub closed spec fn path_at(&self, i: int) -> Seq<u8> {
        self.entries[i].path@
    }

    /// The snapshot frame entry `i` was greeted with.
    pub closed spec fn snapshot_at(&self, i: int) -> Seq<u8> {
        self.entries[i].snapshot@
    }

    /// Every frame handed to entry `i`, in order.
    pub closed spec fn sent_at(&self, i: int) -> Seq<Seq<u8>> {
        self.entries[i].sent@
    }

    /// Some entry carries connection key `k`.
    pub open spec fn spec_has_key(&self, k: u32) -> bool {
        exists|i: int| 0 <= i < self.count() && #[trigger] self.key_at(i) == k
    }

    /// Entry `i` is in good standing: its first frame was its snapshot.
    pub open spec fn entry_ok(&self, i: int) -> bool {
        &&& self.sent_at(i).len() >= 1
        &&& self.sent_at(i)[0] == self.snapshot_at(i)
    }

    /// Well-formedness: connection keys are unique and every entry was
    /// greeted with its snapshot before anything else.
    pub open spec fn wf(&self) -> bool {
        &&& forall|a: int, b: int|
            0 <= a < b < self.count() ==> #[trigger] self.key_at(a) != #[trigger] self.key_at(b)
        &&& forall|i: int| 0 <= i < self.count() ==> #[trigger] self.entry_ok(i)
    }

    /// An empty registry.
    pub fn new() -> (r: Self)
        ensures
            r.count() == 0,
            r.wf(),
    {
        Registry { entries: Vec::new() }
    }

    /// Is connection `k` registered?
    pub fn has_key(&self, k: u32) -> (r: bool)
        ensures
            r == self.spec_has_key(k),
    {
        let n = self.entries.len();
        let mut i: usize = 0;
        while i < n
            invariant
                n == self.entries@.len(),
                0 <= i <= n,
                forall|j: int| 0 <= j < i ==> #[trigger] self.key_at(j) != k,
            decreases n - i,
        {
            if self.entries[i].connection_key.0 == k {
                assert(self.key_at(i as int) == k);
                return true;
            }
            i += 1;
        }
        false
    }
}

/// Greet a new event-stream connection and register it.
///
/// The snapshot frame is offered to the connection's channel first; only
/// when the channel accepted it (and the connection key is new) is the
/// connection added to the registry, so a registered subscriber's first
/// frame is always its snapshot. The returned connect event is for the
/// connection-events stream; the caller publishes it.
pub fn handle_new_connection(
    reg: &mut Registry,
    conn: NewEventStreamConnection,
    snapshot_frame: &Vec<u8>,
) -> (r: (ConnectionEvent, bool))
    requires
        old(reg).wf(),
    ensures
        final(reg).wf(),
        r.0.typ is Connect,
        r.0.session_key == conn.session_key,
        r.0.connection_key == conn.connection_key,
        r.0.path@ == conn.path@,
        if r.1 {
            &&& !old(reg).spec_has_key(conn.connection_key.0)
            &&& final(reg).count() == old(reg).count() + 1
            &&& forall|i: int|
                0 <= i < old(reg).count() ==> {
                    &&& #[trigger] final(reg).key_at(i) == old(reg).key_at(i)
                    &&& final(reg).session_at(i) == old(reg).session_at(i)
                    &&& final(reg).path_at(i) == old(reg).path_at(i)
                    &&& final(reg).snapshot_at(i) == old(reg).snapshot_at(i)
                    &&& final(reg).sent_at(i) == old(reg).sent_at(i)
                }
            &&& final(reg).key_at(old(reg).count()) == conn.connection_key.0
            &&& final(reg).session_at(old(reg).count()) == conn.session_key
            &&& final(reg).path_at(old(reg).count()) == conn.path@
            &&& final(reg).snapshot_at(old(reg).count()) == snapshot_frame@
            &&& final(reg).sent_at(old(reg).count()) == seq![snapshot_frame@]
        } else {
            &&& final(reg).count() == old(reg).count()
            &&& forall|i: int|
                0 <= i < old(reg).count() ==> {
                    &&& #[trigger] final(reg).key_at(i) == old(reg).key_at(i)
                    &&& final(reg).session_at(i) == old(reg).session_at(i)
                    &&& final(reg).path_at(i) == old(reg).path_at(i)
                    &&& final(reg).snapshot_at(i) == old(reg).snapshot_at(i)
                    &&& final(reg).sent_at(i) == old(reg).sent_at(i)
                }
        },
{
    let mut conn = conn;
    let event_tx = sender_clone(&conn.chunk_sender);
    let evt = ConnectionEvent {
        typ: ConnectionEventType::Connect(event_tx),
        session_key: conn.session_key,
        connection_key: conn.connection_key,
        path: to_vec(conn.path.as_slice()),
    };
    if reg.has_key(conn.connection_key.0) {
        return (evt, false);
    }
    let accepted = sender_try_send(&mut conn.chunk_sender, to_vec(snapshot_frame.as_slice()));
    if !accepted {
        return (evt, false);
    }
    let ghost oldreg = *reg;
    let ghost first_sent: Seq<Seq<u8>> = seq![snapshot_frame@];
    let entry = RegistryEntry {
        connection_key: conn.connection_key,
        session_key: conn.session_key,
        tx: conn.chunk_sender,
        path: conn.path,
        snapshot: Ghost(snapshot_frame@),
        sent: Ghost(first_sent),
    };
    reg.entries.push(entry);
    proof {
        assert forall|i: int| 0 <= i < reg.count() implies #[trigger] reg.entry_ok(i) by {
            if i < oldreg.count() {
                assert(oldreg.entry_ok(i));
                assert(reg.sent_at(i) == oldreg.sent_at(i));
                assert(reg.snapshot_at(i) == oldreg.snapshot_at(i));
            } else {
                assert(reg.sent_at(i) == seq![snapshot_frame@]);
            }
        }
        assert forall|a: int, b: int| 0 <= a < b < reg.count() implies #[trigger] reg.key_at(a)
            != #[trigger] reg.key_at(b) by {
            if b < oldreg.count() {
                assert(oldreg.key_at(a) != oldreg.key_at(b));
            } else {
                assert(reg.key_at(a) == oldreg.key_at(a));
                assert(!oldreg.spec_has_key(conn.connection_key.0));
            }
        }
    }
    (evt, true)
}

/// Broadcast one formatted frame to every registered connection.
///
/// Each connection's channel is offered the frame; the survivors stay
/// registered with the frame appended to their record, and each connection
/// whose channel refused (full buffer or dropped receiver) is removed within
/// this very pass, with exactly one disconnect event for it in the returned
/// list. The two ghost sequences list, in increasing order, the old indices
/// of the survivors and of the evicted.
pub fn broadcast_frame(reg: &mut Registry, frame: &Vec<u8>) -> (r: (
    Vec<ConnectionEvent>,
    Ghost<Seq<int>>,
    Ghost<Seq<int>>,
))
    requires
        old(reg).wf(),
    ensures
        final(reg).wf(),
        ({
            let evicted = r.0;
            let kept = r.1@;
            let gone = r.2@;
            &&& kept.len() == final(reg).count()
            &&& forall|a: int, b: int|
                0 <= a < b < kept.len() ==> #[trigger] kept[a] < #[trigger] kept[b]
            &&& forall|a: int, b: int|
                0 <= a < b < gone.len() ==> #[trigger] gone[a] < #[trigger] gone[b]
            &&& forall|m: int|
                0 <= m < old(reg).count() ==> (kept.contains(m) || gone.contains(m))
            &&& forall|m: int| #[trigger] kept.contains(m) ==> 0 <= m < old(reg).count()
            &&& forall|m: int| #[trigger] gone.contains(m) ==> 0 <= m < old(reg).count()
            &&& forall|m: int| !(kept.contains(m) && #[trigger] gone.contains(m))
            &&& forall|i: int|
                0 <= i < kept.len() ==> {
                    &&& #[trigger] final(reg).key_at(i) == old(reg).key_at(kept[i])
                    &&& final(reg).session_at(i) == old(reg).session_at(kept[i])
                    &&& final(reg).path_at(i) == old(reg).path_at(kept[i])
                    &&& final(reg).snapshot_at(i) == old(reg).snapshot_at(kept[i])
                    &&& final(reg).sent_at(i) == old(reg).sent_at(kept[i]).push(frame@)
                }
            &&& evicted@.len() == gone.len()
            &&& forall|j: int|
                0 <= j < gone.len() ==> {
                    &&& (#[trigger] evicted@[j]).typ is Disconnect
                    &&& evicted@[j].connection_key.0 == old(reg).key_at(gone[j])
                    &&& evicted@[j].session_key == old(reg).session_at(gone[j])
                    &&& evicted@[j].path@ == old(reg).path_at(gone[j])
                }
        }),
{
    proof {
        broadcast use lemma_seq_contains_after_push, lemma_seq_contains;

    }
    let ghost origv = reg.entries@;
    let mut pending: Vec<RegistryEntry> = Vec::new();
    core::mem::swap(&mut pending, &mut reg.entries);

    let mut keptv: Vec<RegistryEntry> = Vec::new();
    let mut evicted: Vec<ConnectionEvent> = Vec::new();
    let ghost mut kept_idx: Seq<int> = Seq::empty();
    let ghost mut gone_idx: Seq<int> = Seq::empty();
    let n = pending.len();
    let mut j: usize = 0;
    while j < n
        invariant
            n == origv.len(),
            0 <= j <= n,
            pending@ == origv.subrange(j as int, n as int),
            kept_idx.len() == keptv@.len(),
            gone_idx.len() == evicted@.len(),
            forall|a: int, b: int|
                0 <= a < b < kept_idx.len() ==> #[trigger] kept_idx[a] < #[trigger] kept_idx[b],
            forall|a: int, b: int|
                0 <= a < b < gone_idx.len() ==> #[trigger] gone_idx[a] < #[trigger] gone_idx[b],
            forall|m: int| #[trigger] kept_idx.contains(m) ==> 0 <= m < j,
            forall|m: int| #[trigger] gone_idx.contains(m) ==> 0 <= m < j,
            forall|m: int| 0 <= m < j ==> (kept_idx.contains(m) || gone_idx.contains(m)),
            forall|m: int| !(kept_idx.contains(m) && #[trigger] gone_idx.contains(m)),
            forall|i: int|
                0 <= i < kept_idx.len() ==> {
                    &&& 0 <= #[trigger] kept_idx[i] < n
                    &&& keptv@[i].connection_key == origv[kept_idx[i]].connection_key
                    &&& keptv@[i].session_key == origv[kept_idx[i]].session_key
                    &&& keptv@[i].path@ == origv[kept_idx[i]].path@
                    &&& keptv@[i].snapshot@ == origv[kept_idx[i]].snapshot@
                    &&& keptv@[i].sent@ == origv[kept_idx[i]].sent@.push(frame@)
                },
            forall|i: int|
                0 <= i < gone_idx.len() ==> {
                    &&& 0 <= #[trigger] gone_idx[i] < n
                    &&& (#[trigger] evicted@[i]).typ is Disconnect
                    &&& evicted@[i].connection_key == origv[gone_idx[i]].connection_key
                    &&& evicted@[i].session_key == origv[gone_idx[i]].session_key
                    &&& evicted@[i].path@ == origv[gone_idx[i]].path@
                },
        decreases n - j,
    {
        let mut entry = pending.remove(0);
        proof {
            assert(origv.subrange(j as int, n as int).remove(0) =~= origv.subrange(
                j + 1,
                n as int,
            ));
        }
        let ok = sender_try_send(&mut entry.tx, to_vec(frame.as_slice()));
        if ok {
            proof {
                broadcast use lemma_seq_contains_after_push, lemma_seq_contains;

                entry.sent@ = entry.sent@.push(frame@);
                let oldk = kept_idx;
                kept_idx = kept_idx.push(j as int);
                assert forall|a: int, b: int| 0 <= a < b < kept_idx.len() implies #[trigger]
                    kept_idx[a] < #[trigger] kept_idx[b] by {
                    if b == kept_idx.len() - 1 {
                        assert(oldk.contains(oldk[a]));
                    }
                }
            }
            keptv.push(entry);
        } else {
            let evt = ConnectionEvent {
                typ: ConnectionEventType::Disconnect,
                session_key: entry.session_key,
                connection_key: entry.connection_key,
                path: entry.path,
            };
            proof {
                broadcast use lemma_seq_contains_after_push, lemma_seq_contains;

                let oldg = gone_idx;
                gone_idx = gone_idx.push(j as int);
                assert forall|a: int, b: int| 0 <= a < b < gone_idx.len() implies #[trigger]
                    gone_idx[a] < #[trigger] gone_idx[b] by {
                    if b == gone_idx.len() - 1 {
                        assert(oldg.contains(oldg[a]));
                    }
                }
            }
            evicted.push(evt);
        }
        j += 1;
    }
    core::mem::swap(&mut keptv, &mut reg.entries);
    proof {
        broadcast use lemma_seq_contains_after_push, lemma_seq_contains;

        assert forall|i: int| 0 <= i < kept_idx.len() implies {
            &&& 0 <= #[trigger] kept_idx[i] < old(reg).count()
            &&& reg.key_at(i) == old(reg).key_at(kept_idx[i])
            &&& reg.session_at(i) == old(reg).session_at(kept_idx[i])
            &&& reg.path_at(i) == old(reg).path_at(kept_idx[i])
            &&& reg.snapshot_at(i) == old(reg).snapshot_at(kept_idx[i])
            &&& reg.sent_at(i) == old(reg).sent_at(kept_idx[i]).push(frame@)
        } by {}
        assert forall|j2: int| 0 <= j2 < gone_idx.len() implies {
            &&& (#[trigger] evicted@[j2]).typ is Disconnect
            &&& evicted@[j2].connection_key.0 == old(reg).key_at(gone_idx[j2])
            &&& evicted@[j2].session_key == old(reg).session_at(gone_idx[j2])
            &&& evicted@[j2].path@ == old(reg).path_at(gone_idx[j2])
        } by {
            assert(0 <= gone_idx[j2] < origv.len());
            assert(evicted@[j2].connection_key == origv[gone_idx[j2]].connection_key);
            assert(evicted@[j2].session_key == origv[gone_idx[j2]].session_key);
            assert(evicted@[j2].path@ == origv[gone_idx[j2]].path@);
            assert(old(reg).key_at(gone_idx[j2]) == origv[gone_idx[j2]].connection_key.0);
        }
        assert forall|i: int| 0 <= i < reg.count() implies #[trigger] reg.entry_ok(i) by {
            let k = kept_idx[i];
            assert(kept_idx.contains(k));
            assert(old(reg).entry_ok(k));
            assert(reg.sent_at(i) == origv[k].sent@.push(frame@));
        }
        assert forall|a: int, b: int| 0 <= a < b < reg.count() implies #[trigger] reg.key_at(a)
            != #[trigger] reg.key_at(b) by {
            let ka = kept_idx[a];
            let kb = kept_idx[b];
            assert(ka < kb);
            assert(old(reg).key_at(ka) != old(reg).key_at(kb));
        }
    }
    (evicted, Ghost(kept_idx), Ghost(gone_idx))
}

/// Law (initial snapshot): in a well-formed registry, every registered
/// subscriber's first frame is the snapshot it was greeted with when it was
/// onboarded, ordered before every broadcast frame it received.
pub proof fn lemma_first_frame_is_snapshot(reg: &Registry, i: int)
    requires
        reg.wf(),
        0 <= i < reg.count(),
    ensures
        reg.sent_at(i).len() >= 1,
        reg.sent_at(i)[0] == reg.snapshot_at(i),
{
    assert(reg.entry_ok(i));
}

/// The bytes of `event: `.
pub open spec fn spec_event_field() -> Seq<u8> {
    seq![0x65u8, 0x76u8, 0x65u8, 0x6eu8, 0x74u8, 0x3au8, 0x20u8]
}

/// The bytes of `data: `.
pub open spec fn spec_data_field() -> Seq<u8> {
    seq![0x64u8, 0x61u8, 0x74u8, 0x61u8, 0x3au8, 0x20u8]
}

/// The wire form of one event-stream frame: with an event name,
/// `event: <name>\ndata: <json>\n\n`; without, `data: <json>\n\n`.
pub open spec fn spec_event_frame(name: Option<Seq<u8>>, json: Seq<u8>) -> Seq<u8> {
    match name {
        Some(n) => spec_event_field() + n + seq![0x0au8] + spec_data_field() + json + seq![
            0x0au8,
            0x0au8,
        ],
        None => spec_data_field() + json + seq![0x0au8, 0x0au8],
    }
}

/// Format one event-stream frame from the serialized state.
pub fn create_event_source_msg(json: &[u8], event_name: Option<&Vec<u8>>) -> (r: Vec<u8>)
    ensures
        match event_name {
            Some(n) => r@ == spec_event_frame(Some(n@), json@),
            None => r@ == spec_event_frame(None, json@),
        },
{
    let mut out: Vec<u8> = Vec::new();
    match event_name {
        Some(n) => {
            push_all(&mut out, &[0x65, 0x76, 0x65, 0x6e, 0x74, 0x3a, 0x20]);
            push_all(&mut out, n.as_slice());
            out.push(0x0a);
            push_all(&mut out, &[0x64, 0x61, 0x74, 0x61, 0x3a, 0x20]);
            push_all(&mut out, json);
            out.push(0x0a);
            out.push(0x0a);
            proof {
                assert(out@ =~= spec_event_frame(Some(n@), json@));
            }
        },
        None => {
            push_all(&mut out, &[0x64, 0x61, 0x74, 0x61, 0x3a, 0x20]);
            push_all(&mut out, json);
            out.push(0x0a);
            out.push(0x0a);
            proof {
                assert(out@ =~= spec_event_frame(None, json@));
            }
        },
    }
    out
}

/// Generate a random token: the text of a fresh random 128-bit identifier.
pub fn generate_valid_token() -> (r: Vec<u8>)
    ensures
        exists|k: u128| r@ == spec_uuid_text(k),
{
    let key = SessionKey::new();
    let r = uuid_text(&key);
    proof {
        assert(r@ == spec_uuid_text(key.0));
    }
    r
}

/// Return access control information for a given token and JWT secret; the
/// bind address may be any address, since a token is set.
pub fn generate_auth_with_token(addr: BindAddr, secret: Vec<u8>, token: Vec<u8>) -> (r: Result<
    AccessControl,
    Error,
>)
    ensures
        r matches Ok(a) && spec_auth_addr(&a) == addr && spec_auth_token(&a) == Some(token@)
            && crate::access_control::spec_auth_secret(&a) == secret@,
{
    let tok = AccessToken::PreSharedToken(token);
    match AccessInfo::new(addr, tok, secret) {
        Ok(info) => Ok(AccessControl::WithToken(info)),
        Err(e) => Err(e),
    }
}

/// Generate a random token and return access control information gated on
/// it.
pub fn generate_random_auth(addr: BindAddr, secret: Vec<u8>) -> (r: Result<AccessControl, Error>)
    ensures
        r matches Ok(a) && spec_auth_addr(&a) == addr && spec_auth_token(&a) is Some
            && crate::access_control::spec_auth_secret(&a) == secret@,
{
    generate_auth_with_token(addr, secret, generate_valid_token())
}

} // verus!
