//! The records of the live sessions, and the handle through which one
//! request reads and writes its own record.

use crate::ids::{fresh_id, is_random_id};
use std::collections::HashMap;
use vstd::hash_map::StringHashMap;
use vstd::prelude::*;
use vstd::std_specs::hash::*;

verus! {

/// What a session record holds: its values, each the JSON text of what was
/// stored, and its flags.
pub struct Record {
    pub data: Map<Seq<char>, Seq<char>>,
    pub destroy: bool,
    pub update: bool,
    pub storable: bool,
    pub longterm: bool,
}

/// The record of a session that was just created.
pub open spec fn fresh_record() -> Record {
    Record { data: Map::empty(), destroy: false, update: false, storable: false, longterm: false }
}

/// The record after `value` was stored under `key`: unchanged, dirty flag
/// included, where the key already holds that text.
pub open spec fn record_set(r: Record, key: Seq<char>, value: Seq<char>) -> Record {
    if r.data.contains_key(key) && r.data[key] == value {
        r
    } else {
        Record { data: r.data.insert(key, value), update: true, ..r }
    }
}

/// The record after `key` was removed: always dirty.
pub open spec fn record_remove(r: Record, key: Seq<char>) -> Record {
    Record { data: r.data.remove(key), update: true, ..r }
}

/// The record after `key` was taken out and handed to the caller: as before
/// where the key is absent.
pub open spec fn record_take(r: Record, key: Seq<char>) -> Record {
    Record { data: r.data.remove(key), ..r }
}

/// The text under `key`, if any.
pub open spec fn record_get(r: Record, key: Seq<char>) -> Option<Seq<char>> {
    if r.data.contains_key(key) {
        Some(r.data[key])
    } else {
        None
    }
}

/// Storing the same text under the same key twice is storing it once: the
/// second call leaves the record as the first left it, and does not raise the
/// dirty flag again once it was lowered.
pub proof fn law_set_twice(r: Record, key: Seq<char>, value: Seq<char>)
    ensures
        record_set(record_set(r, key, value), key, value) == record_set(r, key, value),
        record_set(Record { update: false, ..record_set(r, key, value) }, key, value) == (Record {
            update: false,
            ..record_set(r, key, value)
        }),
        record_get(record_set(r, key, value), key) == Some(value),
{
}

/// Taking a key that is present yields its text and leaves the key absent;
/// taking one that is absent yields nothing and leaves the record as it was.
pub proof fn law_take(r: Record, key: Seq<char>)
    ensures
        r.data.contains_key(key) ==> record_get(r, key) == Some(r.data[key]) && !record_take(
            r,
            key,
        ).data.contains_key(key),
        !r.data.contains_key(key) ==> record_get(r, key) is None && record_take(r, key) == r,
{
    if !r.data.contains_key(key) {
        assert(r.data.remove(key) =~= r.data);
    }
}

/// The state of one session, held by the server.
pub struct SessionData {
    pub data: StringHashMap<String>,
    pub destroy: bool,
    pub update: bool,
    pub storable: bool,
    pub longterm: bool,
}

impl View for SessionData {
    type V = Record;

    open spec fn view(&self) -> Record {
        Record {
            data: self.data@.map_values(|s: String| s@),
            destroy: self.destroy,
            update: self.update,
            storable: self.storable,
            longterm: self.longterm,
        }
    }
}

impl SessionData {
    /// An empty record with every flag down.
    pub fn new() -> (r: Self)
        ensures
            r@ == fresh_record(),
    {
        let r = SessionData {
            data: StringHashMap::new(),
            destroy: false,
            update: false,
            storable: false,
            longterm: false,
        };
        assert(r@.data =~= Map::empty());
        r
    }
}

/// The registry of the live sessions, by identifier.
pub struct SessionStore {
    pub inner: HashMap<u128, SessionData>,
    /// Whether a durable backend stands behind the registry.
    pub persistent: bool,
}

impl SessionStore {
    /// Whether a record lives under `id`.
    pub open spec fn contains(&self, id: u128) -> bool {
        self.inner@.contains_key(id)
    }

    /// An empty registry.
    pub fn new(persistent: bool) -> (r: Self)
        ensures
            r.inner@ == Map::<u128, SessionData>::empty(),
            r.persistent == persistent,
    {
        SessionStore { inner: HashMap::new(), persistent }
    }

    /// Whether a durable backend stands behind the registry.
    pub fn is_persistent(&self) -> (r: bool)
        ensures
            r == self.persistent,
    {
        self.persistent
    }

    /// Whether a record lives under `id`.
    pub fn contains_id(&self, id: u128) -> (r: bool)
        ensures
            r == self.contains(id),
    {
        broadcast use group_hash_axioms;

        self.inner.contains_key(&id)
    }

    /// Accepts a candidate identifier exactly when no record lives under it.
    pub fn pick_id(&self, candidate: u128) -> (r: Option<u128>)
        ensures
            r == (if self.contains(candidate) {
                None::<u128>
            } else {
                Some(candidate)
            }),
    {
        if self.contains_id(candidate) {
            None
        } else {
            Some(candidate)
        }
    }

    /// Draws random identifiers, at most `tries`, and returns the first that
    /// is free. None comes back only where every one drawn was taken.
    pub fn generate_id(&self, tries: usize) -> (r: Option<u128>)
        ensures
            r matches Some(id) ==> is_random_id(id) && !self.contains(id),
            tries == 0 ==> r is None,
            r is None && tries > 0 ==> exists|id: u128| is_random_id(id) && #[trigger] self.contains(id),
    {
        let mut left: usize = tries;
        while left > 0
            invariant
                left <= tries,
                left < tries ==> exists|id: u128| is_random_id(id) && #[trigger] self.contains(id),
            decreases left,
        {
            let candidate = fresh_id();
            let picked = self.pick_id(candidate);
            if picked.is_some() {
                return picked;
            }
            assert(is_random_id(candidate) && self.contains(candidate));
            left = left - 1;
        }
        None
    }

    /// Puts a fresh record under an identifier that is free.
    pub fn insert_fresh(&mut self, id: u128)
        requires
            !old(self).contains(id),
        ensures
            created(*old(self), *final(self), id),
    {
        broadcast use group_hash_axioms;

        self.inner.insert(id, SessionData::new());
        assert(self.inner@.remove(id) =~= old(self).inner@);
    }

    /// The session of a request: the inbound identifier where a record lives
    /// under it, else a fresh record under a new identifier. `None` where
    /// `tries` random identifiers were all taken; the registry is then as
    /// before.
    pub fn resolve_or_create(&mut self, inbound: Option<u128>, tries: usize) -> (r: Option<u128>)
        ensures
            final(self).persistent == old(self).persistent,
            match r {
                Some(id) => if known(*old(self), inbound) {
                    inbound == Some(id) && final(self).inner@ == old(self).inner@
                } else {
                    created(*old(self), *final(self), id)
                },
                None => !known(*old(self), inbound) && final(self).inner@ == old(self).inner@,
            },
            known(*old(self), inbound) ==> r is Some,
            !known(*old(self), inbound) && tries == 0 ==> r is None,
            !known(*old(self), inbound) ==> (r matches Some(id) ==> is_random_id(id)),
            r is None && tries > 0 ==> exists|id: u128| is_random_id(id) && #[trigger] old(self).contains(id),
    {
        if let Some(id) = inbound {
            if self.contains_id(id) {
                return Some(id);
            }
        }
        match self.generate_id(tries) {
            Some(id) => {
                self.insert_fresh(id);
                Some(id)
            },
            None => None,
        }
    }
}

/// Whether the inbound identifier names a live record.
pub open spec fn known(store: SessionStore, inbound: Option<u128>) -> bool {
    inbound matches Some(id) && store.contains(id)
}

/// Whether `after` is `before` with one more record, fresh, under `id`, which
/// was free.
pub open spec fn created(before: SessionStore, after: SessionStore, id: u128) -> bool {
    &&& !before.contains(id)
    &&& after.contains(id)
    &&& after.inner@[id]@ == fresh_record()
    &&& after.inner@.remove(id) == before.inner@
    &&& after.persistent == before.persistent
}

/// The handle of one request: the registry and the identifier of the
/// request's session. Every operation goes through the record that lives
/// under the identifier; where none lives there, it changes nothing and
/// yields nothing.
pub struct AxumSession {
    pub store: SessionStore,
    pub id: u128,
}

/// What an operation with the effect `after` on a record leaves of a
/// handle: its own record changed, where it has one, and nothing else.
pub open spec fn applied(before: AxumSession, now: AxumSession, after: Option<Record>) -> bool {
    &&& now.id == before.id
    &&& now.store.persistent == before.store.persistent
    &&& now.store.inner@.dom() == before.store.inner@.dom()
    &&& now.store.inner@.remove(now.id) == before.store.inner@.remove(before.id)
    &&& now.record() == after
}

impl AxumSession {
    /// The record of this session, if it still lives.
    pub open spec fn record(&self) -> Option<Record> {
        if self.store.contains(self.id) {
            Some(self.store.inner@[self.id]@)
        } else {
            None
        }
    }

    /// The handle of a request that came with the identifier `inbound`, or
    /// with none: see `SessionStore::resolve_or_create`. Where no identifier
    /// could be had, the registry comes back unchanged.
    pub fn new(store: SessionStore, inbound: Option<u128>, tries: usize) -> (r: Result<AxumSession, SessionStore>)
        ensures
            match r {
                Ok(s) => {
                    &&& s.store.persistent == store.persistent
                    &&& s.store.contains(s.id)
                    &&& if known(store, inbound) {
                        inbound == Some(s.id) && s.store.inner@ == store.inner@
                    } else {
                        created(store, s.store, s.id)
                    }
                },
                Err(back) => {
                    &&& !known(store, inbound)
                    &&& back.inner@ == store.inner@
                    &&& back.persistent == store.persistent
                },
            },
            known(store, inbound) ==> r is Ok,
            !known(store, inbound) && tries == 0 ==> r is Err,
            !known(store, inbound) ==> (r matches Ok(s) ==> is_random_id(s.id)),
            r is Err && tries > 0 ==> exists|id: u128| is_random_id(id) && #[trigger] store.contains(id),
    {
        let mut store = store;
        match store.resolve_or_create(inbound, tries) {
            Some(id) => Ok(AxumSession { store, id }),
            None => Err(store),
        }
    }

    fn take(&mut self) -> (r: Option<SessionData>)
        ensures
            final(self).id == old(self).id,
            final(self).store.persistent == old(self).store.persistent,
            final(self).store.inner@ == old(self).store.inner@.remove(old(self).id),
            match r {
                Some(d) => old(self).store.contains(old(self).id) && old(self).store.inner@[old(self).id] == d,
                None => !old(self).store.contains(old(self).id),
            },
    {
        broadcast use group_hash_axioms;

        self.store.inner.remove(&self.id)
    }

    fn put(&mut self, d: SessionData)
        requires
            !old(self).store.contains(old(self).id),
        ensures
            final(self).id == old(self).id,
            final(self).store.persistent == old(self).store.persistent,
            final(self).store.inner@ == old(self).store.inner@.insert(old(self).id, d),
    {
        broadcast use group_hash_axioms;

        self.store.inner.insert(self.id, d);
    }

    /// Asks for the session to be removed when the response is written. The
    /// record stays until then.
    pub fn destroy(&mut self)
        ensures
            applied(
                *old(self),
                *final(self),
                match old(self).record() {
                    Some(r) => Some(Record { destroy: true, ..r }),
                    None => None,
                },
            ),
    {
        match self.take() {
            Some(mut d) => {
                d.destroy = true;
                self.put(d);
                proof {
                    lemma_put_back(*old(self), *self);
                }
            },
            None => {
                proof {
                    lemma_untouched(*old(self), *self);
                }
            },
        }
    }

    /// Chooses the extended expiry class, or the ordinary one. Marks the
    /// record dirty.
    pub fn set_longterm(&mut self, longterm: bool)
        ensures
            applied(
                *old(self),
                *final(self),
                match old(self).record() {
                    Some(r) => Some(Record { longterm: longterm, update: true, ..r }),
                    None => None,
                },
            ),
    {
        match self.take() {
            Some(mut d) => {
                d.longterm = longterm;
                d.update = true;
                self.put(d);
                proof {
                    lemma_put_back(*old(self), *self);
                }
            },
            None => {
                proof {
                    lemma_untouched(*old(self), *self);
                }
            },
        }
    }

    /// Says whether the session may be kept under the opt-in policy. Marks
    /// the record dirty.
    pub fn set_store(&mut self, storable: bool)
        ensures
            applied(
                *old(self),
                *final(self),
                match old(self).record() {
                    Some(r) => Some(Record { storable: storable, update: true, ..r }),
                    None => None,
                },
            ),
    {
        match self.take() {
            Some(mut d) => {
                d.storable = storable;
                d.update = true;
                self.put(d);
                proof {
                    lemma_put_back(*old(self), *self);
                }
            },
            None => {
                proof {
                    lemma_untouched(*old(self), *self);
                }
            },
        }
    }

    /// The JSON text stored under `key`, for the caller to read a value from.
    pub fn get(&self, key: &str) -> (r: Option<String>)
        ensures
            text_of(r) == (match self.record() {
                Some(rec) => record_get(rec, key@),
                None => None,
            }),
    {
        broadcast use group_hash_axioms;

        match self.store.inner.get(&self.id) {
            Some(d) => match d.data.get(key) {
                Some(s) => Some(s.clone()),
                None => None,
            },
            None => None,
        }
    }

    /// Takes the JSON text stored under `key` out of the record and returns
    /// it. With no such key the record is as before.
    pub fn get_remove(&mut self, key: &str) -> (r: Option<String>)
        ensures
            text_of(r) == (match old(self).record() {
                Some(rec) => record_get(rec, key@),
                None => None,
            }),
            applied(
                *old(self),
                *final(self),
                match old(self).record() {
                    Some(rec) => Some(record_take(rec, key@)),
                    None => None,
                },
            ),
    {
        match self.take() {
            Some(mut d) => {
                let found = match d.data.get(key) {
                    Some(s) => Some(s.clone()),
                    None => None,
                };
                d.data.remove(key);
                let ghost before = old(self).store.inner@[self.id]@;
                assert(d@.data =~= before.data.remove(key@));
                self.put(d);
                proof {
                    lemma_put_back(*old(self), *self);
                }
                found
            },
            None => {
                proof {
                    lemma_untouched(*old(self), *self);
                }
                None
            },
        }
    }

    /// Stores the JSON text `value` under `key`. Where the key already holds
    /// that text nothing is written and the dirty flag stays as it is.
    pub fn set(&mut self, key: &str, value: String)
        ensures
            applied(
                *old(self),
                *final(self),
                match old(self).record() {
                    Some(rec) => Some(record_set(rec, key@, value@)),
                    None => None,
                },
            ),
    {
        match self.take() {
            Some(mut d) => {
                let same = match d.data.get(key) {
                    Some(s) => *s == value,
                    None => false,
                };
                if !same {
                    d.data.insert(key.to_owned(), value);
                    d.update = true;
                    let ghost before = old(self).store.inner@[self.id]@;
                    assert(d@.data =~= before.data.insert(key@, value@));
                }
                self.put(d);
                proof {
                    lemma_put_back(*old(self), *self);
                }
            },
            None => {
                proof {
                    lemma_untouched(*old(self), *self);
                }
            },
        }
    }

    /// Removes `key` from the record. Marks the record dirty whether or not
    /// the key was there.
    pub fn remove(&mut self, key: &str)
        ensures
            applied(
                *old(self),
                *final(self),
                match old(self).record() {
                    Some(rec) => Some(record_remove(rec, key@)),
                    None => None,
                },
            ),
    {
        match self.take() {
            Some(mut d) => {
                d.update = true;
                d.data.remove(key);
                let ghost before = old(self).store.inner@[self.id]@;
                assert(d@.data =~= before.data.remove(key@));
                self.put(d);
                proof {
                    lemma_put_back(*old(self), *self);
                }
            },
            None => {
                proof {
                    lemma_untouched(*old(self), *self);
                }
            },
        }
    }

    /// Empties the record's values in memory. Returns whether a durable
    /// backend stands behind the registry: the caller then clears it too, and
    /// reports its failure.
    pub fn clear_all(&mut self) -> (r: bool)
        ensures
            r == old(self).store.persistent,
            applied(
                *old(self),
                *final(self),
                match old(self).record() {
                    Some(rec) => Some(Record { data: Map::empty(), ..rec }),
                    None => None,
                },
            ),
    {
        match self.take() {
            Some(mut d) => {
                d.data.clear();
                assert(d@.data =~= Map::empty());
                self.put(d);
                proof {
                    lemma_put_back(*old(self), *self);
                }
            },
            None => {
                proof {
                    lemma_untouched(*old(self), *self);
                }
            },
        }
        self.store.is_persistent()
    }

    /// Settles the session when its response is written. Returns the destroy
    /// and storable flags, which decide the fields of the response; a record
    /// that was asked to be destroyed leaves the registry now. Without a
    /// record both flags are down.
    pub fn finish(&mut self) -> (r: (bool, bool))
        ensures
            final(self).id == old(self).id,
            final(self).store.persistent == old(self).store.persistent,
            r == (match old(self).record() {
                Some(rec) => (rec.destroy, rec.storable),
                None => (false, false),
            }),
            final(self).store.inner@ == (if r.0 {
                old(self).store.inner@.remove(old(self).id)
            } else {
                old(self).store.inner@
            }),
    {
        match self.take() {
            Some(d) => {
                let flags = (d.destroy, d.storable);
                if !flags.0 {
                    self.put(d);
                    assert(self.store.inner@ =~= old(self).store.inner@);
                }
                flags
            },
            None => {
                proof {
                    lemma_untouched(*old(self), *self);
                }
                (false, false)
            },
        }
    }

    /// How many sessions exist: what the durable backend counted, where one
    /// stands behind the registry (0 where it could not say), else the number
    /// of records in memory.
    pub fn count(&self, stored: Option<i64>) -> (r: i64)
        ensures
            r == session_count(self.store.persistent, stored, self.store.inner@.len()),
    {
        if self.store.is_persistent() {
            match stored {
                Some(n) => n,
                None => 0,
            }
        } else {
            let n: u64 = self.store.inner.len() as u64;
            if n > 0x7fff_ffff_ffff_ffff {
                i64::MAX
            } else {
                n as i64
            }
        }
    }
}

/// The count that a handle reports. A registry larger than `i64` can say is
/// reported as `i64::MAX`.
pub open spec fn session_count(persistent: bool, stored: Option<i64>, live: nat) -> int {
    if persistent {
        match stored {
            Some(n) => n as int,
            None => 0,
        }
    } else if live > i64::MAX {
        i64::MAX as int
    } else {
        live as int
    }
}

/// The text of an optional string.
pub open spec fn text_of(r: Option<String>) -> Option<Seq<char>> {
    match r {
        Some(s) => Some(s@),
        None => None,
    }
}

proof fn lemma_put_back(before: AxumSession, now: AxumSession)
    requires
        now.id == before.id,
        before.store.contains(before.id),
        exists|d: SessionData| now.store.inner@ == before.store.inner@.remove(before.id).insert(before.id, d),
    ensures
        now.store.inner@.dom() == before.store.inner@.dom(),
        now.store.inner@.remove(now.id) == before.store.inner@.remove(before.id),
        now.store.contains(now.id),
{
    assert(now.store.inner@.dom() =~= before.store.inner@.dom());
    assert(now.store.inner@.remove(now.id) =~= before.store.inner@.remove(before.id));
}

proof fn lemma_untouched(before: AxumSession, now: AxumSession)
    requires
        now.id == before.id,
        !before.store.contains(before.id),
        now.store.inner@ == before.store.inner@.remove(before.id),
    ensures
        now.store.inner@ == before.store.inner@,
{
    assert(now.store.inner@ =~= before.store.inner@);
}

} // verus!
