//! The in-memory session store: a concurrent map from session id to
//! session record, with creation, removal, and time-based pruning.
//!
//! The store is the process's only long-lived shared mutable state. It is
//! backed by scc's concurrent hash map; the verified methods hold the map
//! exclusively, so their contracts speak of plain sequential mutation of
//! the map's contents.

use vstd::prelude::*;
use vstd::set_lib::lemma_len_subset;

use crate::ids::fresh_id;

verus! {

/// The default session lifetime: one hour, in milliseconds.
pub const DEFAULT_SESSION_DURATION_MS: i64 = 3_600_000;

/// One live session: a random id bound to a logged-in user, with its own
/// expiry. Sessions live only in the store and are lost on restart by
/// design.
#[derive(Clone, Copy, Debug, PartialEq, Eq, Structural)]
pub struct SessionRecord {
    pub session_id: u128,
    pub user_id: u128,
    pub created_at: i64,
    pub expires_at: i64,
}

/// A failure of the session store itself. Flows map these to their own
/// error kinds.
#[derive(Clone, Copy, Debug, PartialEq, Eq, Structural)]
pub enum SessionError {
    /// The freshly generated id already existed: an operational anomaly,
    /// not retried, since the id space makes collisions exceptional.
    DuplicateSessionId,
    /// The id to remove was absent: the store is out of sync with the
    /// caller.
    SessionNotFound,
}

#[verifier::external_type_specification]
#[verifier::external_body]
#[verifier::reject_recursive_types(K)]
#[verifier::reject_recursive_types(V)]
#[verifier::reject_recursive_types(H)]
pub struct ExSccHashMap<K, V, H>(scc::HashMap<K, V, H>)
where
    H: std::hash::BuildHasher,
;

/// The backing concurrent map.
pub type SessionHashMap = scc::HashMap<u128, SessionRecord>;

/// The empty session table.
pub open spec fn no_sessions() -> Map<u128, SessionRecord> {
    Map::empty()
}

/// What the backing map holds, keyed by session id.
pub uninterp spec fn session_contents(m: SessionHashMap) -> Map<u128, SessionRecord>;

/// Relies on scc::HashMap::new: the new map is empty.
#[verifier::external_body]
fn session_map_new() -> (r: SessionHashMap)
    ensures
        session_contents(r) == no_sessions(),
{
    scc::HashMap::new()
}

/// Relies on scc::HashMap::insert: the pair is added if and only if the
/// key is not already present; on a duplicate key the map is unchanged
/// and the pair is handed back as the error.
#[verifier::external_body]
fn session_map_insert(
    m: &mut SessionHashMap,
    session_id: u128,
    record: SessionRecord,
) -> (r: Result<(), ()>)
    ensures
        match r {
            Ok(_) => !session_contents(*old(m)).contains_key(session_id)
                && session_contents(*final(m)) == session_contents(*old(m)).insert(
                session_id,
                record,
            ),
            Err(_) => session_contents(*old(m)).contains_key(session_id) && session_contents(
                *final(m),
            ) == session_contents(*old(m)),
        },
{
    match m.insert(session_id, record) {
        Ok(()) => Ok(()),
        Err(_) => Err(()),
    }
}

/// Relies on scc::HashMap::remove: the pair is removed and returned if
/// the key exists; otherwise the map is unchanged and `None` comes back.
#[verifier::external_body]
fn session_map_remove(
    m: &mut SessionHashMap,
    session_id: u128,
) -> (r: Option<SessionRecord>)
    ensures
        match r {
            Some(record) => session_contents(*old(m)).contains_key(session_id) && record
                == session_contents(*old(m))[session_id] && session_contents(*final(m))
                == session_contents(*old(m)).remove(session_id),
            None => !session_contents(*old(m)).contains_key(session_id) && session_contents(
                *final(m),
            ) == session_contents(*old(m)),
        },
{
    m.remove(&session_id).map(|kv| kv.1)
}

/// Relies on scc::HashMap::len: the number of entries held.
#[verifier::external_body]
fn session_map_len(m: &SessionHashMap) -> (r: usize)
    ensures
        r == session_contents(*m).dom().len(),
{
    m.len()
}

/// The sessions of `m` that have not expired by `now`.
pub open spec fn live_sessions(m: Map<u128, SessionRecord>, now: i64) -> Map<u128, SessionRecord> {
    Map::new(
        |sid: u128| m.contains_key(sid) && m[sid].expires_at >= now,
        |sid: u128| m[sid],
    )
}

fn session_is_live(record: &SessionRecord, now: i64) -> (r: bool)
    ensures
        r == (record.expires_at >= now),
{
    record.expires_at >= now
}

/// Relies on scc::HashMap::retain: under exclusive access every entry is
/// visited exactly once, and exactly the entries rejected by the
/// predicate are removed. The predicate keeps the entries that have not
/// expired by `now`.
#[verifier::external_body]
fn session_map_retain_live(m: &mut SessionHashMap, now: i64)
    ensures
        session_contents(*final(m)) == live_sessions(session_contents(*old(m)), now),
{
    m.retain(|_, record| session_is_live(record, now));
}

/// The store of all live sessions, authoritative and exclusive owner of
/// them. At most one session exists per session id; a user may hold any
/// number of concurrent sessions.
pub struct SessionStore {
    map: SessionHashMap,
}

impl SessionStore {
    /// The sessions currently held, keyed by session id.
    pub closed spec fn sessions(self) -> Map<u128, SessionRecord> {
        session_contents(self.map)
    }

    /// Well-formed store: finitely many sessions, and each record carries
    /// the id it is keyed by.
    pub closed spec fn wf(self) -> bool {
        &&& self.sessions().dom().finite()
        &&& forall|sid: u128|
            self.sessions().contains_key(sid) ==> (#[trigger] self.sessions()[sid]).session_id
                == sid
    }

    pub fn new() -> (r: SessionStore)
        ensures
            r.wf(),
            r.sessions() == no_sessions(),
    {
        SessionStore { map: session_map_new() }
    }

    /// The number of sessions currently held.
    pub fn session_count(&self) -> (r: usize)
        ensures
            r == self.sessions().dom().len(),
    {
        session_map_len(&self.map)
    }

    /// Inserts a session under a caller-chosen id: the deterministic core
    /// of session creation. Succeeds if and only if the id is not already
    /// in use; on success the record is present with `created_at = now`
    /// and `expires_at = now + valid_for`.
    pub fn create_with_id(
        &mut self,
        session_id: u128,
        user_id: u128,
        now: i64,
        valid_for: i64,
    ) -> (r: Result<u128, SessionError>)
        requires
            old(self).wf(),
            0 <= valid_for,
            now + valid_for <= i64::MAX,
        ensures
            final(self).wf(),
            match r {
                Ok(sid) => {
                    &&& sid == session_id
                    &&& !old(self).sessions().contains_key(session_id)
                    &&& final(self).sessions() == old(self).sessions().insert(
                        session_id,
                        (SessionRecord {
                            session_id,
                            user_id,
                            created_at: now,
                            expires_at: (now + valid_for) as i64,
                        }),
                    )
                },
                Err(e) => {
                    &&& e == SessionError::DuplicateSessionId
                    &&& old(self).sessions().contains_key(session_id)
                    &&& final(self).sessions() == old(self).sessions()
                },
            },
    {
        let record = SessionRecord { session_id, user_id, created_at: now, expires_at: now + valid_for };
        match session_map_insert(&mut self.map, session_id, record) {
            Ok(_) => Ok(session_id),
            Err(_) => Err(SessionError::DuplicateSessionId),
        }
    }

    /// Creates a session under a freshly generated random id, valid for
    /// `valid_for_ms` milliseconds (one hour when absent). Whatever id
    /// was drawn: on success that id was free and the record is present
    /// under it; on the exceptional collision the store is unchanged.
    pub fn create(&mut self, user_id: u128, now: i64, valid_for_ms: Option<i64>) -> (r: Result<
        u128,
        SessionError,
    >)
        requires
            old(self).wf(),
            match valid_for_ms {
                Some(v) => 0 <= v && now + v <= i64::MAX,
                None => now + DEFAULT_SESSION_DURATION_MS <= i64::MAX,
            },
        ensures
            final(self).wf(),
            match r {
                Ok(sid) => {
                    &&& !old(self).sessions().contains_key(sid)
                    &&& final(self).sessions() == old(self).sessions().insert(
                        sid,
                        (SessionRecord {
                            session_id: sid,
                            user_id,
                            created_at: now,
                            expires_at: (now + (match valid_for_ms {
                                Some(v) => v,
                                None => DEFAULT_SESSION_DURATION_MS,
                            })) as i64,
                        }),
                    )
                },
                Err(e) => {
                    &&& e == SessionError::DuplicateSessionId
                    &&& final(self).sessions() == old(self).sessions()
                },
            },
    {
        let session_id = fresh_id();
        let valid_for = match valid_for_ms {
            Some(v) => v,
            None => DEFAULT_SESSION_DURATION_MS,
        };
        self.create_with_id(session_id, user_id, now, valid_for)
    }

    /// Removes a session. Succeeds, returning the id and the number of
    /// sessions left, if and only if the id was present; a second removal
    /// of the same id fails with `SessionNotFound`.
    pub fn remove(&mut self, session_id: u128) -> (r: Result<(u128, usize), SessionError>)
        requires
            old(self).wf(),
        ensures
            final(self).wf(),
            match r {
                Ok((sid, remaining)) => {
                    &&& sid == session_id
                    &&& old(self).sessions().contains_key(session_id)
                    &&& final(self).sessions() == old(self).sessions().remove(session_id)
                    &&& remaining == final(self).sessions().dom().len()
                },
                Err(e) => {
                    &&& e == SessionError::SessionNotFound
                    &&& !old(self).sessions().contains_key(session_id)
                    &&& final(self).sessions() == old(self).sessions()
                },
            },
    {
        let count_before = session_map_len(&self.map);
        match session_map_remove(&mut self.map, session_id) {
            Some(_) => {
                proof {
                    assert(session_contents(self.map).dom() =~= old(
                        self,
                    ).sessions().dom().remove(session_id));
                }
                Ok((session_id, count_before - 1))
            },
            None => Err(SessionError::SessionNotFound),
        }
    }

    /// Removes every session that has expired by `now`, and nothing else.
    /// Returns how many were pruned and how many remain; the two add up
    /// to the count before the call.
    pub fn prune_expired(&mut self, now: i64) -> (r: (usize, usize))
        requires
            old(self).wf(),
        ensures
            final(self).wf(),
            final(self).sessions() == live_sessions(old(self).sessions(), now),
            forall|sid: u128|
                old(self).sessions().contains_key(sid) && (#[trigger] old(
                    self,
                ).sessions()[sid]).expires_at < now ==> !final(self).sessions().contains_key(sid),
            forall|sid: u128|
                old(self).sessions().contains_key(sid) && (#[trigger] old(
                    self,
                ).sessions()[sid]).expires_at >= now ==> final(self).sessions().contains_key(sid)
                    && final(self).sessions()[sid] == old(self).sessions()[sid],
            r.1 == final(self).sessions().dom().len(),
            r.0 + r.1 == old(self).sessions().dom().len(),
    {
        let count_before = session_map_len(&self.map);
        session_map_retain_live(&mut self.map, now);
        let count_after = session_map_len(&self.map);
        proof {
            assert(session_contents(self.map).dom() <= old(self).sessions().dom());
            lemma_len_subset(session_contents(self.map).dom(), old(self).sessions().dom());
        }
        (count_before - count_after, count_after)
    }
}

/// A well-formed store holds finitely many sessions: with this, callers
/// can derive the count arithmetic of `remove` and `prune_expired` (one
/// fewer after a removal; pruned and remaining summing to the total).
pub proof fn lemma_wf_sessions_finite(store: SessionStore)
    requires
        store.wf(),
    ensures
        store.sessions().dom().finite(),
{
}

/// Removing a freshly created session succeeds exactly once: right after
/// a creation under a previously absent id the id is present (so the
/// first removal succeeds and, by `remove`'s contract, returns the id),
/// and right after that removal the id is absent (so a second removal
/// fails with `SessionNotFound`).
pub proof fn lemma_remove_succeeds_exactly_once(
    m: Map<u128, SessionRecord>,
    session_id: u128,
    record: SessionRecord,
)
    requires
        !m.contains_key(session_id),
    ensures
        m.insert(session_id, record).contains_key(session_id),
        !m.insert(session_id, record).remove(session_id).contains_key(session_id),
{
}

/// The store's contents after the given session records are created in
/// turn, each under its own id.
pub open spec fn insert_all(
    m: Map<u128, SessionRecord>,
    records: Seq<SessionRecord>,
) -> Map<u128, SessionRecord>
    decreases records.len(),
{
    if records.len() == 0 {
        m
    } else {
        insert_all(m, records.drop_last()).insert(records.last().session_id, records.last())
    }
}

/// No insert is lost, for any number of creations: when session records
/// with pairwise-distinct ids, none already present, are created in
/// turn, every one of them is present afterwards, each under its own id,
/// nothing else appears, and the store grows by exactly their number.
pub proof fn lemma_distinct_creates_all_present(
    m: Map<u128, SessionRecord>,
    records: Seq<SessionRecord>,
)
    requires
        m.dom().finite(),
        forall|i: int|
            0 <= i < records.len() ==> !m.contains_key((#[trigger] records[i]).session_id),
        forall|i: int, j: int|
            0 <= i < j < records.len() ==> (#[trigger] records[i]).session_id != (
            #[trigger] records[j]).session_id,
    ensures
        forall|k: u128|
            #[trigger] insert_all(m, records).contains_key(k) <==> m.contains_key(k) || exists|
                i: int,
            | 0 <= i < records.len() && (#[trigger] records[i]).session_id == k,
        forall|i: int|
            0 <= i < records.len() ==> insert_all(m, records)[(#[trigger] records[i]).session_id]
                == records[i],
        insert_all(m, records).dom().finite(),
        insert_all(m, records).dom().len() == m.dom().len() + records.len(),
    decreases records.len(),
{
    if records.len() > 0 {
        let prefix = records.drop_last();
        let last = records.last();
        assert(forall|i: int| 0 <= i < prefix.len() ==> #[trigger] prefix[i] == records[i]);
        lemma_distinct_creates_all_present(m, prefix);
        let before = insert_all(m, prefix);
        assert(!before.contains_key(last.session_id));
        assert(insert_all(m, records) == before.insert(last.session_id, last));
        assert(insert_all(m, records).dom() =~= before.dom().insert(last.session_id));
        assert forall|i: int|
            0 <= i < records.len() implies insert_all(m, records)[(
        #[trigger] records[i]).session_id] == records[i] by {
            if i < records.len() - 1 {
                assert(prefix[i] == records[i]);
                assert(before[records[i].session_id] == records[i]);
                assert(records[i].session_id != last.session_id);
            }
        }
        assert forall|k: u128| #[trigger]
            insert_all(m, records).contains_key(k) <==> m.contains_key(k) || exists|i: int|
                0 <= i < records.len() && (#[trigger] records[i]).session_id == k by {
            if m.contains_key(k) {
                assert(before.contains_key(k));
            }
            if exists|i: int| 0 <= i < records.len() && (#[trigger] records[i]).session_id == k {
                let i = choose|i: int|
                    0 <= i < records.len() && (#[trigger] records[i]).session_id == k;
                if i < records.len() - 1 {
                    assert(prefix[i] == records[i]);
                    assert(before.contains_key(k));
                } else {
                    assert(k == last.session_id);
                }
            }
            if insert_all(m, records).contains_key(k) {
                if k == last.session_id {
                    assert(0 <= records.len() - 1 < records.len() && (records[records.len()
                        - 1]).session_id == k);
                } else {
                    assert(before.contains_key(k));
                    if !m.contains_key(k) {
                        let i = choose|i: int|
                            0 <= i < prefix.len() && (#[trigger] prefix[i]).session_id == k;
                        assert(records[i].session_id == k);
                    }
                }
            }
        }
    }
}

/// Pruning never drops a live entry, however creations interleave with
/// it: pruning after a creation whose record is still live is the same as
/// pruning first and inserting the new record afterwards.
pub proof fn lemma_prune_keeps_fresh_creation(
    m: Map<u128, SessionRecord>,
    session_id: u128,
    record: SessionRecord,
    now: i64,
)
    requires
        record.expires_at >= now,
    ensures
        live_sessions(m.insert(session_id, record), now) == live_sessions(m, now).insert(
            session_id,
            record,
        ),
{
    assert(live_sessions(m.insert(session_id, record), now) =~= live_sessions(m, now).insert(
        session_id,
        record,
    ));
}

} // verus!
