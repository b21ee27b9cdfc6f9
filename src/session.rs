//! The session store: a mapping from an opaque session identifier to the
//! session record of a logged-in user.
//!
//! Two backends share one contract, [`SessionManager`]: an in-memory map
//! that is lost on restart, and a persistent one whose records are loaded
//! from and written back to a file by the process that owns it.

use std::collections::HashMap;

use ahash::RandomState;
use vstd::prelude::*;

use crate::clock::now_millis;
use crate::keys::{is_alphanumeric_of_len, random_alphanumeric, SESSION_ID_LENGTH};
use crate::maps::{
    session_contents, sessions_contains, sessions_get, sessions_insert, sessions_keys,
    sessions_remove, sessions_retain_other_users, sessions_retain_unexpired, sessions_with_capacity,
};

verus! {

/// How many fresh identifiers are drawn before a collision with the ones
/// in use is reported as a storage error.
pub const MAX_KEY_ATTEMPTS: usize = 8;

/// One logged-in session. Times are milliseconds since the Unix epoch.
#[derive(Debug, PartialEq, Eq)]
pub struct Session {
    pub session_id: String,
    pub user_id: i64,
    pub created: i64,
    pub expires: i64,
}

impl Clone for Session {
    fn clone(&self) -> (r: Self)
        ensures
            r == *self,
    {
        Session {
            session_id: self.session_id.clone(),
            user_id: self.user_id,
            created: self.created,
            expires: self.expires,
        }
    }
}

impl Session {
    /// A session is expired from its expiry time on.
    pub open spec fn expired_at(&self, now: int) -> bool {
        now >= self.expires
    }

    pub fn is_expired(&self, now: i64) -> (r: bool)
        ensures
            r == self.expired_at(now as int),
    {
        now >= self.expires
    }

    /// Whether the session is still live at `now`: not expired.
    pub fn is_live(&self, now: i64) -> (r: bool)
        ensures
            r == !self.expired_at(now as int),
    {
        now < self.expires
    }

    /// Whether the session belongs to another user than `user_id`.
    pub fn belongs_to_other(&self, user_id: i64) -> (r: bool)
        ensures
            r == (self.user_id != user_id),
    {
        self.user_id != user_id
    }
}

/// Failure of a store to do its work.
#[derive(Debug, Clone, PartialEq, Eq)]
pub enum StorageError {
    /// Every freshly drawn key was already in use.
    KeyCollision,
    /// The backing storage could not be read or written.
    Io { message: String },
}

/// `x` held to the range of `i64`.
pub open spec fn clamp_i64(x: int) -> int {
    if x > i64::MAX {
        i64::MAX as int
    } else if x < i64::MIN {
        i64::MIN as int
    } else {
        x
    }
}

/// `time + span`, held to the range of `i64`.
pub fn saturating_offset(time: i64, span: i64) -> (r: i64)
    ensures
        r == clamp_i64(time + span),
{
    let sum: i128 = time as i128 + span as i128;
    if sum > i64::MAX as i128 {
        i64::MAX
    } else if sum < i64::MIN as i128 {
        i64::MIN
    } else {
        sum as i64
    }
}

/// Every record is stored under its own identifier.
pub open spec fn ids_match(m: Map<Seq<char>, Session>) -> bool {
    forall|k: Seq<char>| #[trigger] m.contains_key(k) ==> m[k].session_id@ == k
}

/// What a lookup of `id` in `m` finds.
pub open spec fn session_lookup(m: Map<Seq<char>, Session>, id: Seq<char>) -> Option<Session> {
    if m.contains_key(id) {
        Some(m[id])
    } else {
        None
    }
}

/// `after` is `before` with a new session of `user_id` added under an
/// identifier that was not in use, living `lifetime` milliseconds; or, when
/// no free identifier was found, `before` unchanged.
pub open spec fn session_created(
    before: Map<Seq<char>, Session>,
    after: Map<Seq<char>, Session>,
    user_id: i64,
    lifetime: int,
    r: Result<Session, StorageError>,
) -> bool {
    match r {
        Ok(s) => {
            &&& !before.contains_key(s.session_id@)
            &&& is_alphanumeric_of_len(s.session_id@, SESSION_ID_LENGTH as nat)
            &&& s.user_id == user_id
            &&& s.expires == clamp_i64(s.created + lifetime)
            &&& after == before.insert(s.session_id@, s)
        },
        Err(e) => after == before && e == StorageError::KeyCollision,
    }
}

/// `m` without the sessions that are expired at `now`.
pub open spec fn unexpired(m: Map<Seq<char>, Session>, now: int) -> Map<Seq<char>, Session> {
    m.restrict(m.dom().filter(|k: Seq<char>| !m[k].expired_at(now)))
}

/// `m` without the sessions of `user_id`.
pub open spec fn without_user(m: Map<Seq<char>, Session>, user_id: i64) -> Map<Seq<char>, Session> {
    m.restrict(m.dom().filter(|k: Seq<char>| m[k].user_id != user_id))
}

/// The store that a list of saved records gives at `now`: the unexpired
/// records under their identifiers, a later record replacing an earlier
/// one with the same identifier.
pub open spec fn restored(records: Seq<Session>, now: int) -> Map<Seq<char>, Session>
    decreases records.len(),
{
    if records.len() == 0 {
        Map::empty()
    } else {
        let m = restored(records.drop_last(), now);
        let r = records.last();
        if r.expired_at(now) {
            m
        } else {
            m.insert(r.session_id@, r)
        }
    }
}

/// A store whose records sit under their own identifiers holds no two
/// records with the same identifier; creating a session keeps that so, and
/// never hands out the identifier of a session that is held.
pub proof fn lemma_session_ids_unique(
    before: Map<Seq<char>, Session>,
    after: Map<Seq<char>, Session>,
    user_id: i64,
    lifetime: int,
    r: Result<Session, StorageError>,
)
    requires
        ids_match(before),
        session_created(before, after, user_id, lifetime, r),
    ensures
        ids_match(after),
        forall|k1: Seq<char>, k2: Seq<char>|
            after.contains_key(k1) && after.contains_key(k2) && #[trigger] after[k1].session_id@ == #[trigger] after[k2].session_id@
                ==> k1 == k2,
        match r {
            Ok(s) => forall|k: Seq<char>| #[trigger] before.contains_key(k) ==> before[k].session_id@ != s.session_id@,
            Err(_) => true,
        },
{
}

/// Looking up the identifier of a session just created for `user_id`
/// finds that session, and its user is `user_id`.
pub proof fn lemma_created_session_found(
    before: Map<Seq<char>, Session>,
    after: Map<Seq<char>, Session>,
    user_id: i64,
    lifetime: int,
    s: Session,
)
    requires
        session_created(before, after, user_id, lifetime, Ok(s)),
    ensures
        session_lookup(after, s.session_id@) == Some(s),
        s.user_id == user_id,
{
}

/// After a session identifier is invalidated, looking it up finds nothing.
pub proof fn lemma_invalidated_session_gone(before: Map<Seq<char>, Session>, session_id: Seq<char>)
    ensures
        session_lookup(before.remove(session_id), session_id) is None,
{
}

/// A restored store holds every record under its own identifier.
pub proof fn lemma_restored_ids_match(records: Seq<Session>, now: int)
    ensures
        ids_match(restored(records, now)),
    decreases records.len(),
{
    if records.len() > 0 {
        lemma_restored_ids_match(records.drop_last(), now);
    }
}

/// The contract shared by the session backends.
pub trait SessionManager {
    /// The sessions held, by identifier.
    spec fn sessions(&self) -> Map<Seq<char>, Session>;

    /// How long a new session lives, in milliseconds.
    spec fn lifetime(&self) -> int;

    /// Creates a session for `user_id` under a fresh identifier. Draws at
    /// most `MAX_KEY_ATTEMPTS` identifiers and fails with `KeyCollision`
    /// when all were taken, which cannot happen on an empty store.
    fn create_session(&mut self, user_id: i64) -> (r: Result<Session, StorageError>)
        requires
            ids_match(old(self).sessions()),
        ensures
            ids_match(final(self).sessions()),
            final(self).lifetime() == old(self).lifetime(),
            session_created(old(self).sessions(), final(self).sessions(), user_id, old(self).lifetime(), r),
            old(self).sessions().dom() =~= Set::<Seq<char>>::empty() ==> r is Ok,
    ;

    /// The session held under `session_id`, if any.
    fn get_session(&self, session_id: &str) -> (r: Option<Session>)
        ensures
            r == session_lookup(self.sessions(), session_id@),
    ;

    /// Removes the session held under `session_id`; does nothing if there
    /// is none.
    fn invalidate(&mut self, session_id: &str)
        requires
            ids_match(old(self).sessions()),
        ensures
            ids_match(final(self).sessions()),
            final(self).lifetime() == old(self).lifetime(),
            final(self).sessions() == old(self).sessions().remove(session_id@),
    ;

    /// Removes every session that is expired at `now`.
    fn remove_expired(&mut self, now: i64)
        requires
            ids_match(old(self).sessions()),
        ensures
            ids_match(final(self).sessions()),
            final(self).lifetime() == old(self).lifetime(),
            final(self).sessions() == unexpired(old(self).sessions(), now as int),
    ;

    /// Removes every session of `user_id`, as when the user revokes them.
    fn invalidate_user(&mut self, user_id: i64)
        requires
            ids_match(old(self).sessions()),
        ensures
            ids_match(final(self).sessions()),
            final(self).lifetime() == old(self).lifetime(),
            final(self).sessions() == without_user(old(self).sessions(), user_id),
    ;
}

/// Sessions held in memory only.
pub struct MemorySessionManager {
    sessions: HashMap<String, Session, RandomState>,
    lifetime_millis: i64,
}

impl MemorySessionManager {
    /// An empty store with room for `start_size` sessions, whose sessions
    /// live `lifetime_millis` milliseconds.
    pub fn new(start_size: usize, lifetime_millis: i64) -> (r: Self)
        ensures
            (r.sessions() == Map::<Seq<char>, Session>::empty()),
            ids_match(r.sessions()),
            r.lifetime() == lifetime_millis,
    {
        MemorySessionManager { sessions: sessions_with_capacity(start_size), lifetime_millis }
    }

    /// A store that holds the unexpired ones of `records` at `now`.
    pub fn from_records(records: Vec<Session>, lifetime_millis: i64, now: i64) -> (r: Self)
        ensures
            r.sessions() == restored(records@, now as int),
            ids_match(r.sessions()),
            r.lifetime() == lifetime_millis,
    {
        proof {
            lemma_restored_ids_match(records@, now as int);
        }
        let mut store = MemorySessionManager::new(records.len(), lifetime_millis);
        let mut i: usize = 0;
        while i < records.len()
            invariant
                0 <= i <= records@.len(),
                store.lifetime() == lifetime_millis,
                store.sessions() == restored(records@.take(i as int), now as int),
            decreases records@.len() - i,
        {
            let record = &records[i];
            if !record.is_expired(now) {
                sessions_insert(&mut store.sessions, record.session_id.clone(), record.clone());
            }
            assert(records@.take(i as int + 1).drop_last() == records@.take(i as int));
            i += 1;
        }
        assert(records@.take(records@.len() as int) == records@);
        store
    }

    /// Every session held, in no particular order.
    pub fn records(&self) -> (r: Vec<Session>)
        requires
            ids_match(self.sessions()),
        ensures
            r@.len() == self.sessions().len(),
            forall|i: int| 0 <= i < r@.len() ==> #[trigger] session_lookup(self.sessions(), r@[i].session_id@) == Some(r@[i]),
            forall|i: int, j: int| 0 <= i < j < r@.len() ==> r@[i].session_id@ != r@[j].session_id@,
    {
        let keys = sessions_keys(&self.sessions);
        let mut out: Vec<Session> = Vec::new();
        let mut i: usize = 0;
        while i < keys.len()
            invariant
                0 <= i <= keys@.len(),
                out@.len() == i,
                ids_match(self.sessions()),
                keys@.len() == self.sessions().len(),
                forall|j: int| 0 <= j < keys@.len() ==> self.sessions().contains_key(#[trigger] keys@[j]@),
                forall|a: int, b: int| 0 <= a < b < keys@.len() ==> keys@[a]@ != keys@[b]@,
                forall|j: int| 0 <= j < i ==> #[trigger] out@[j] == self.sessions()[keys@[j]@],
            decreases keys@.len() - i,
        {
            let key = &keys[i];
            assert(self.sessions().contains_key(keys@[i as int]@));
            match sessions_get(&self.sessions, key.as_str()) {
                Some(s) => out.push(s.clone()),
                None => {
                    assert(false);
                },
            }
            i += 1;
        }
        assert forall|i: int| 0 <= i < out@.len() implies #[trigger] session_lookup(self.sessions(), out@[i].session_id@) == Some(out@[i]) by {
            assert(self.sessions().contains_key(keys@[i]@));
        }
        assert forall|a: int, b: int| 0 <= a < b < out@.len() implies out@[a].session_id@ != out@[b].session_id@ by {
            assert(self.sessions().contains_key(keys@[a]@));
            assert(self.sessions().contains_key(keys@[b]@));
        }
        out
    }

    /// Adds a session of `user_id` created at `created` under `id`, when
    /// no held session uses `id`, and returns it; returns `None`, and
    /// changes nothing, when `id` is taken.
    pub fn insert_if_free(&mut self, id: String, user_id: i64, created: i64) -> (r: Option<Session>)
        requires
            ids_match(old(self).sessions()),
        ensures
            ids_match(final(self).sessions()),
            final(self).lifetime() == old(self).lifetime(),
            r is None <==> old(self).sessions().contains_key(id@),
            match r {
                Some(s) => {
                    &&& s.session_id@ == id@
                    &&& s.user_id == user_id
                    &&& s.created == created
                    &&& s.expires == clamp_i64(created + old(self).lifetime())
                    &&& final(self).sessions() == old(self).sessions().insert(id@, s)
                },
                None => final(self).sessions() == old(self).sessions(),
            },
    {
        if sessions_contains(&self.sessions, id.as_str()) {
            return None;
        }
        let expires = saturating_offset(created, self.lifetime_millis);
        let session = Session { session_id: id.clone(), user_id, created, expires };
        sessions_insert(&mut self.sessions, id, session.clone());
        Some(session)
    }
}

impl SessionManager for MemorySessionManager {
    closed spec fn sessions(&self) -> Map<Seq<char>, Session> {
        session_contents(self.sessions)
    }

    closed spec fn lifetime(&self) -> int {
        self.lifetime_millis as int
    }

    fn create_session(&mut self, user_id: i64) -> (r: Result<Session, StorageError>) {
        let created = now_millis();
        let mut attempt: usize = 0;
        while attempt < MAX_KEY_ATTEMPTS
            invariant
                attempt <= MAX_KEY_ATTEMPTS,
                self.sessions() == old(self).sessions(),
                self.lifetime() == old(self).lifetime(),
                ids_match(self.sessions()),
                attempt > 0 ==> !(old(self).sessions().dom() =~= Set::<Seq<char>>::empty()),
            decreases MAX_KEY_ATTEMPTS - attempt,
        {
            let id = random_alphanumeric(SESSION_ID_LENGTH);
            let ghost drawn = id@;
            match self.insert_if_free(id, user_id, created) {
                Some(s) => return Ok(s),
                None => {
                    assert(old(self).sessions().dom().contains(drawn));
                },
            }
            attempt += 1;
        }
        Err(StorageError::KeyCollision)
    }

    fn get_session(&self, session_id: &str) -> (r: Option<Session>) {
        match sessions_get(&self.sessions, session_id) {
            Some(s) => Some(s.clone()),
            None => None,
        }
    }

    fn invalidate(&mut self, session_id: &str) {
        sessions_remove(&mut self.sessions, session_id);
    }

    fn remove_expired(&mut self, now: i64) {
        sessions_retain_unexpired(&mut self.sessions, now);
    }

    fn invalidate_user(&mut self, user_id: i64) {
        sessions_retain_other_users(&mut self.sessions, user_id);
    }
}

/// Sessions held in memory and saved to a file, so that they survive a
/// restart. The owner of the store reads the file's records before the
/// store is made, and writes [`PersistentSessionManager::records`] back
/// whenever [`PersistentSessionManager::take_changed`] reports a change.
pub struct PersistentSessionManager {
    memory: MemorySessionManager,
    file: String,
    changed: bool,
}

impl PersistentSessionManager {
    /// Whether the sessions changed since the last save.
    pub closed spec fn spec_changed(&self) -> bool {
        self.changed
    }

    pub closed spec fn spec_file(&self) -> String {
        self.file
    }

    /// A store saved to `file` that holds the unexpired ones of `saved`,
    /// the records read from it, at `now`.
    pub fn open(file: String, saved: Vec<Session>, lifetime_millis: i64, now: i64) -> (r: Self)
        ensures
            r.sessions() == restored(saved@, now as int),
            ids_match(r.sessions()),
            r.lifetime() == lifetime_millis,
            r.spec_file() == file,
            !r.spec_changed(),
    {
        PersistentSessionManager {
            memory: MemorySessionManager::from_records(saved, lifetime_millis, now),
            file,
            changed: false,
        }
    }

    /// The file the sessions are saved to.
    pub fn file(&self) -> (r: &String)
        ensures
            *r == self.spec_file(),
    {
        &self.file
    }

    /// Every session held, in no particular order: what is to be saved.
    pub fn records(&self) -> (r: Vec<Session>)
        requires
            ids_match(self.sessions()),
        ensures
            r@.len() == self.sessions().len(),
            forall|i: int| 0 <= i < r@.len() ==> #[trigger] session_lookup(self.sessions(), r@[i].session_id@) == Some(r@[i]),
            forall|i: int, j: int| 0 <= i < j < r@.len() ==> r@[i].session_id@ != r@[j].session_id@,
    {
        self.memory.records()
    }

    /// Whether the sessions changed since the last call; the store then
    /// counts as saved.
    pub fn take_changed(&mut self) -> (r: bool)
        ensures
            r == old(self).spec_changed(),
            !final(self).spec_changed(),
            final(self).sessions() == old(self).sessions(),
            final(self).lifetime() == old(self).lifetime(),
            final(self).spec_file() == old(self).spec_file(),
    {
        let r = self.changed;
        self.changed = false;
        r
    }
}

impl SessionManager for PersistentSessionManager {
    closed spec fn sessions(&self) -> Map<Seq<char>, Session> {
        self.memory.sessions()
    }

    closed spec fn lifetime(&self) -> int {
        self.memory.lifetime()
    }

    fn create_session(&mut self, user_id: i64) -> (r: Result<Session, StorageError>) {
        let r = self.memory.create_session(user_id);
        if r.is_ok() {
            self.changed = true;
        }
        r
    }

    fn get_session(&self, session_id: &str) -> (r: Option<Session>) {
        self.memory.get_session(session_id)
    }

    fn invalidate(&mut self, session_id: &str) {
        self.memory.invalidate(session_id);
        self.changed = true;
    }

    fn remove_expired(&mut self, now: i64) {
        self.memory.remove_expired(now);
        self.changed = true;
    }

    fn invalidate_user(&mut self, user_id: i64) {
        self.memory.invalidate_user(user_id);
        self.changed = true;
    }
}

/// Which backend holds the sessions.
#[derive(Debug, Clone, PartialEq, Eq)]
pub enum SessionManagerConfig {
    /// In memory, with room for `start_size` sessions at first.
    Memory { start_size: usize },
    /// In memory and saved to `file`.
    File { file: String },
}

impl Default for SessionManagerConfig {
    fn default() -> (r: Self)
        ensures
            r == (SessionManagerConfig::Memory { start_size: 100 }),
    {
        SessionManagerConfig::Memory { start_size: 100 }
    }
}

/// How sessions are carried and how long they live.
#[derive(Debug, Clone, PartialEq, Eq)]
pub struct SessionConfig {
    /// The name of the session cookie.
    pub cookie_name: String,
    /// Whether the session identifier may come in a header too.
    pub allow_in_header: bool,
    /// How long a session lives, in seconds.
    pub session_lifetime: i64,
    /// How often expired sessions are swept out, in seconds.
    pub sweep_interval: i64,
}

/// Seconds in a day.
pub const SECONDS_PER_DAY: i64 = 86400;

impl Default for SessionConfig {
    /// A `session` cookie, also accepted in a header; sessions live a day
    /// and are swept every hour.
    fn default() -> (r: Self)
        ensures
            r.cookie_name@ == "session"@,
            r.allow_in_header,
            r.session_lifetime == SECONDS_PER_DAY,
            r.sweep_interval == 3600,
    {
        SessionConfig {
            cookie_name: "session".to_owned(),
            allow_in_header: true,
            session_lifetime: SECONDS_PER_DAY,
            sweep_interval: 3600,
        }
    }
}

impl SessionConfig {
    /// The session lifetime in milliseconds, held to the range of `i64`.
    pub fn lifetime_millis(&self) -> (r: i64)
        ensures
            r == clamp_i64(self.session_lifetime * 1000),
    {
        let millis: i128 = self.session_lifetime as i128 * 1000;
        if millis > i64::MAX as i128 {
            i64::MAX
        } else if millis < i64::MIN as i128 {
            i64::MIN
        } else {
            millis as i64
        }
    }
}

/// The backend and the settings of the session store.
#[derive(Debug, Clone, PartialEq, Eq)]
pub struct SessionConfigFull {
    pub manager: SessionManagerConfig,
    pub session_config: SessionConfig,
}

impl Default for SessionConfigFull {
    /// The default backend with the default settings.
    fn default() -> (r: Self)
        ensures
            r.manager == (SessionManagerConfig::Memory { start_size: 100 }),
            r.session_config.allow_in_header,
            r.session_config.session_lifetime == SECONDS_PER_DAY,
    {
        SessionConfigFull { manager: SessionManagerConfig::default(), session_config: SessionConfig::default() }
    }
}

/// The session store that the configuration selects.
pub enum SessionManagerType {
    Memory(MemorySessionManager),
    File(PersistentSessionManager),
}

impl SessionManagerType {
    /// The store that `manager` selects, whose sessions live as `config`
    /// says. A file-backed store holds the unexpired ones of `saved`, the
    /// records read from its file, at `now`; an in-memory one starts empty
    /// and ignores `saved`.
    pub fn new(manager: SessionManagerConfig, config: &SessionConfig, saved: Vec<Session>, now: i64) -> (r: Self)
        ensures
            r.lifetime() == clamp_i64(config.session_lifetime * 1000),
            ids_match(r.sessions()),
            match manager {
                SessionManagerConfig::Memory { .. } => r is Memory && r.sessions() == Map::<Seq<char>, Session>::empty(),
                SessionManagerConfig::File { file } => r matches SessionManagerType::File(p)
                    && p.spec_file() == file
                    && r.sessions() == restored(saved@, now as int),
            },
    {
        let lifetime = config.lifetime_millis();
        match manager {
            SessionManagerConfig::Memory { start_size } => SessionManagerType::Memory(MemorySessionManager::new(start_size, lifetime)),
            SessionManagerConfig::File { file } => SessionManagerType::File(PersistentSessionManager::open(file, saved, lifetime, now)),
        }
    }
}

impl SessionManager for SessionManagerType {
    open spec fn sessions(&self) -> Map<Seq<char>, Session> {
        match self {
            SessionManagerType::Memory(m) => m.sessions(),
            SessionManagerType::File(p) => p.sessions(),
        }
    }

    open spec fn lifetime(&self) -> int {
        match self {
            SessionManagerType::Memory(m) => m.lifetime(),
            SessionManagerType::File(p) => p.lifetime(),
        }
    }

    fn create_session(&mut self, user_id: i64) -> (r: Result<Session, StorageError>) {
        match self {
            SessionManagerType::Memory(m) => m.create_session(user_id),
            SessionManagerType::File(p) => p.create_session(user_id),
        }
    }

    fn get_session(&self, session_id: &str) -> (r: Option<Session>) {
        match self {
            SessionManagerType::Memory(m) => m.get_session(session_id),
            SessionManagerType::File(p) => p.get_session(session_id),
        }
    }

    fn invalidate(&mut self, session_id: &str) {
        match self {
            SessionManagerType::Memory(m) => m.invalidate(session_id),
            SessionManagerType::File(p) => p.invalidate(session_id),
        }
    }

    fn remove_expired(&mut self, now: i64) {
        match self {
            SessionManagerType::Memory(m) => m.remove_expired(now),
            SessionManagerType::File(p) => p.remove_expired(now),
        }
    }

    fn invalidate_user(&mut self, user_id: i64) {
        match self {
            SessionManagerType::Memory(m) => m.invalidate_user(user_id),
            SessionManagerType::File(p) => p.invalidate_user(user_id),
        }
    }
}

} // verus!
