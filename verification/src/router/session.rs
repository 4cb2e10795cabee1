//! The sessions the gateway knows, keyed by session id.

use vstd::prelude::*;
use vstd::string::*;

verus! {

/// A point in time: whole seconds since the Unix epoch and the nanoseconds
/// past that second (above 999,999,999 only during a leap second).
#[derive(Debug, Clone, Copy, PartialEq, Eq, Structural)]
pub struct Timestamp {
    pub secs: i64,
    pub nanos: u32,
}

/// Calls `chrono::Utc::now()` and keeps its `timestamp()` and
/// `timestamp_subsec_nanos()`. The clock decides the value; chrono documents
/// the nanoseconds as below 2,000,000,000.
#[verifier::external_body]
pub(crate) fn now() -> (r: Timestamp)
    ensures
        r.nanos < 2_000_000_000,
{
    let t = chrono::Utc::now();
    Timestamp { secs: t.timestamp(), nanos: t.timestamp_subsec_nanos() }
}

/// What a session was opened with.
#[derive(Debug)]
pub struct SessionConfig {
    pub platform: String,
    pub chat_id: String,
    pub user_id: String,
    pub model: Option<String>,
    pub max_turns: Option<u32>,
    pub toolsets: Option<Vec<String>>,
}

/// An open session.
#[derive(Debug)]
pub struct Session {
    pub session_id: String,
    pub config: SessionConfig,
    pub created_at: Timestamp,
    pub last_activity: Timestamp,
}

pub struct SessionConfigView {
    pub platform: Seq<char>,
    pub chat_id: Seq<char>,
    pub user_id: Seq<char>,
    pub model: Option<Seq<char>>,
    pub max_turns: Option<u32>,
    pub toolsets: Option<Seq<Seq<char>>>,
}

pub struct SessionView {
    pub session_id: Seq<char>,
    pub config: SessionConfigView,
    pub created_at: Timestamp,
    pub last_activity: Timestamp,
}

/// The views of a list of strings.
pub open spec fn strings_view(v: Seq<String>) -> Seq<Seq<char>> {
    Seq::new(v.len(), |i: int| v[i]@)
}

impl View for SessionConfig {
    type V = SessionConfigView;

    open spec fn view(&self) -> SessionConfigView {
        SessionConfigView {
            platform: self.platform@,
            chat_id: self.chat_id@,
            user_id: self.user_id@,
            model: match self.model {
                Some(m) => Some(m@),
                None => None,
            },
            max_turns: self.max_turns,
            toolsets: match self.toolsets {
                Some(t) => Some(strings_view(t@)),
                None => None,
            },
        }
    }
}

impl View for Session {
    type V = SessionView;

    open spec fn view(&self) -> SessionView {
        SessionView {
            session_id: self.session_id@,
            config: self.config@,
            created_at: self.created_at,
            last_activity: self.last_activity,
        }
    }
}

/// A copy of a list of strings.
pub fn clone_strings(v: &Vec<String>) -> (r: Vec<String>)
    ensures
        strings_view(r@) == strings_view(v@),
{
    let mut out: Vec<String> = Vec::new();
    let mut i: usize = 0;
    while i < v.len()
        invariant
            i <= v@.len(),
            out@.len() == i,
            forall|j: int| 0 <= j < i ==> (#[trigger] out@[j])@ == v@[j]@,
        decreases v@.len() - i,
    {
        out.push(v[i].clone());
        i = i + 1;
    }
    assert(strings_view(out@) =~= strings_view(v@));
    out
}

impl SessionConfig {
    /// A copy with the same view.
    pub fn clone_config(&self) -> (r: SessionConfig)
        ensures
            r@ == self@,
    {
        SessionConfig {
            platform: self.platform.clone(),
            chat_id: self.chat_id.clone(),
            user_id: self.user_id.clone(),
            model: match &self.model {
                Some(m) => Some(m.clone()),
                None => None,
            },
            max_turns: self.max_turns,
            toolsets: match &self.toolsets {
                Some(t) => Some(clone_strings(t)),
                None => None,
            },
        }
    }
}

impl Session {
    /// A copy with the same view.
    pub fn clone_session(&self) -> (r: Session)
        ensures
            r@ == self@,
    {
        Session {
            session_id: self.session_id.clone(),
            config: self.config.clone_config(),
            created_at: self.created_at,
            last_activity: self.last_activity,
        }
    }
}

/// `dashmap::DashMap`, the concurrent map the sessions live in.
#[verifier::external_type_specification]
#[verifier::external_body]
#[verifier::reject_recursive_types(K)]
#[verifier::reject_recursive_types(V)]
#[verifier::reject_recursive_types(S)]
pub struct ExDashMap<K, V, S>(dashmap::DashMap<K, V, S>);

/// The entries of a session map: each key with the view of its session.
pub uninterp spec fn dashmap_contents(m: dashmap::DashMap<String, Session>) -> Map<Seq<char>, SessionView>;

/// Calls `DashMap::new`: an empty map.
#[verifier::external_body]
fn dm_new() -> (r: dashmap::DashMap<String, Session>)
    ensures
        dashmap_contents(r).dom() == Set::<Seq<char>>::empty(),
        dashmap_contents(r).dom().finite(),
{
    dashmap::DashMap::new()
}

/// Calls `DashMap::insert`: the key now maps to the value, replacing any
/// earlier value; other entries stay.
#[verifier::external_body]
fn dm_insert(m: &mut dashmap::DashMap<String, Session>, key: String, value: Session)
    ensures
        dashmap_contents(*final(m)) == dashmap_contents(*old(m)).insert(key@, value@),
{
    m.insert(key, value);
}

/// Calls `DashMap::contains_key`: whether the key has an entry.
#[verifier::external_body]
fn dm_contains(m: &dashmap::DashMap<String, Session>, key: &str) -> (r: bool)
    ensures
        r == dashmap_contents(*m).contains_key(key@),
{
    m.contains_key(key)
}

/// Calls `DashMap::get` and copies the session found, if any.
#[verifier::external_body]
fn dm_get(m: &dashmap::DashMap<String, Session>, key: &str) -> (r: Option<Session>)
    ensures
        match r {
            Some(s) => dashmap_contents(*m).contains_key(key@) && dashmap_contents(*m)[key@] == s@,
            None => !dashmap_contents(*m).contains_key(key@),
        },
{
    match m.get(key) {
        Some(entry) => Some(entry.value().clone_session()),
        None => None,
    }
}

/// Calls `DashMap::remove`: the key no longer has an entry; other entries stay.
#[verifier::external_body]
fn dm_remove(m: &mut dashmap::DashMap<String, Session>, key: &str)
    ensures
        dashmap_contents(*final(m)) == dashmap_contents(*old(m)).remove(key@),
{
    m.remove(key);
}

/// Calls `DashMap::len`: the number of entries.
#[verifier::external_body]
fn dm_len(m: &dashmap::DashMap<String, Session>) -> (r: usize)
    ensures
        r == dashmap_contents(*m).len(),
{
    m.len()
}

/// Calls `DashMap::iter` and copies every entry: each key once, with its
/// session, in the order the shards are walked.
#[verifier::external_body]
fn dm_entries(m: &dashmap::DashMap<String, Session>) -> (r: Vec<(String, Session)>)
    ensures
        r@.len() == dashmap_contents(*m).len(),
        forall|i: int|
            0 <= i < r@.len() ==> dashmap_contents(*m).contains_key(#[trigger] r@[i].0@)
                && dashmap_contents(*m)[r@[i].0@] == r@[i].1@,
        forall|i: int, j: int| 0 <= i < r@.len() && 0 <= j < r@.len() && i != j ==> r@[i].0@ != r@[j].0@,
{
    m.iter().map(|entry| (entry.key().clone(), entry.value().clone_session())).collect()
}

/// Opening session `id` with `config` at `t`: it is stored as new, replacing
/// a session of the same id; the others stay.
pub open spec fn created(pre: SessionManager, post: SessionManager, id: Seq<char>, config: SessionConfigView, t: Timestamp) -> bool {
    post.sessions() == pre.sessions().insert(
        id,
        SessionView { session_id: id, config, created_at: t, last_activity: t },
    )
}

/// Closing session `id`: it is gone; the others stay.
pub open spec fn removed(pre: SessionManager, post: SessionManager, id: Seq<char>) -> bool {
    post.sessions() == pre.sessions().remove(id)
}

/// The sessions, keyed by session id. Each session is stored under its own id.
pub struct SessionManager {
    sessions: dashmap::DashMap<String, Session>,
}

impl SessionManager {
    #[verifier::type_invariant]
    spec fn inv(self) -> bool {
        &&& dashmap_contents(self.sessions).dom().finite()
        &&& forall|k: Seq<char>| #[trigger]
            dashmap_contents(self.sessions).contains_key(k) ==> dashmap_contents(self.sessions)[k].session_id == k
    }

    /// The sessions, by id.
    pub closed spec fn sessions(self) -> Map<Seq<char>, SessionView> {
        dashmap_contents(self.sessions)
    }

    /// No sessions.
    pub fn new() -> (r: SessionManager)
        ensures
            r.sessions() == Map::<Seq<char>, SessionView>::empty(),
    {
        let r = SessionManager { sessions: dm_new() };
        assert(r.sessions() =~= Map::<Seq<char>, SessionView>::empty());
        r
    }

    /// Opens session `session_id` with `config` at time `now`, replacing a
    /// session of the same id.
    pub fn create_session_at(&mut self, session_id: &str, config: SessionConfig, now: Timestamp)
        ensures
            created(*old(self), *final(self), session_id@, config@, now),
    {
        proof {
            use_type_invariant(&*self);
        }
        let session = Session {
            session_id: String::from_str(session_id),
            config,
            created_at: now,
            last_activity: now,
        };
        let mut sessions = dm_new();
        std::mem::swap(&mut sessions, &mut self.sessions);
        dm_insert(&mut sessions, String::from_str(session_id), session);
        self.sessions = sessions;
    }

    /// Opens session `session_id` with `config`, created and last active now.
    /// Always succeeds.
    pub fn create_session(&mut self, session_id: &str, config: SessionConfig) -> (r: Result<(), String>)
        ensures
            r is Ok,
            final(self).sessions().dom() == old(self).sessions().dom().insert(session_id@),
            final(self).sessions()[session_id@].session_id == session_id@,
            final(self).sessions()[session_id@].config == config@,
            final(self).sessions()[session_id@].created_at == final(self).sessions()[session_id@].last_activity,
            forall|k: Seq<char>| k != session_id@ && #[trigger] old(self).sessions().contains_key(k)
                ==> final(self).sessions()[k] == old(self).sessions()[k],
    {
        let t = now();
        self.create_session_at(session_id, config, t);
        Ok(())
    }

    /// Whether session `session_id` is open.
    pub fn has_session(&self, session_id: &str) -> (r: bool)
        ensures
            r == self.sessions().contains_key(session_id@),
            r ==> self.sessions()[session_id@].session_id == session_id@,
    {
        proof {
            use_type_invariant(self);
        }
        dm_contains(&self.sessions, session_id)
    }

    /// A copy of session `session_id`, if open.
    pub fn get_session(&self, session_id: &str) -> (r: Option<Session>)
        ensures
            match r {
                Some(s) => self.sessions().contains_key(session_id@) && self.sessions()[session_id@] == s@
                    && s@.session_id == session_id@,
                None => !self.sessions().contains_key(session_id@),
            },
    {
        proof {
            use_type_invariant(self);
        }
        dm_get(&self.sessions, session_id)
    }

    /// Marks session `session_id` active at `now`; nothing happens when it is not open.
    pub fn update_activity_at(&mut self, session_id: &str, now: Timestamp)
        ensures
            old(self).sessions().contains_key(session_id@) ==> final(self).sessions() == old(self).sessions().insert(
                session_id@,
                SessionView { last_activity: now, ..old(self).sessions()[session_id@] },
            ),
            !old(self).sessions().contains_key(session_id@) ==> final(self).sessions() == old(self).sessions(),
    {
        proof {
            use_type_invariant(&*self);
        }
        match dm_get(&self.sessions, session_id) {
            Some(session) => {
                let updated = Session { last_activity: now, ..session };
                let mut sessions = dm_new();
                std::mem::swap(&mut sessions, &mut self.sessions);
                dm_insert(&mut sessions, String::from_str(session_id), updated);
                self.sessions = sessions;
            },
            None => {},
        }
    }

    /// Marks session `session_id` active now; nothing happens when it is not
    /// open. "Now" is what the clock gives: a time whose nanoseconds are below
    /// 2,000,000,000; which time that is, the clock decides.
    pub fn update_activity(&mut self, session_id: &str)
        ensures
            old(self).sessions().contains_key(session_id@) ==> exists|t: Timestamp| {
                &&& t.nanos < 2_000_000_000
                &&& final(self).sessions() == old(self).sessions().insert(
                    session_id@,
                    SessionView { last_activity: t, ..old(self).sessions()[session_id@] },
                )
            },
            !old(self).sessions().contains_key(session_id@) ==> final(self).sessions() == old(self).sessions(),
    {
        let t = now();
        self.update_activity_at(session_id, t);
        proof {
            if old(self).sessions().contains_key(session_id@) {
                assert(t.nanos < 2_000_000_000 && self.sessions() == old(self).sessions().insert(
                    session_id@,
                    SessionView { last_activity: t, ..old(self).sessions()[session_id@] },
                ));
            }
        }
    }

    /// Closes session `session_id`, if open.
    pub fn remove_session(&mut self, session_id: &str)
        ensures
            removed(*old(self), *final(self), session_id@),
    {
        proof {
            use_type_invariant(&*self);
        }
        let mut sessions = dm_new();
        std::mem::swap(&mut sessions, &mut self.sessions);
        dm_remove(&mut sessions, session_id);
        self.sessions = sessions;
    }

    /// Copies of all open sessions, each once, in no particular order.
    pub fn list_sessions(&self) -> (r: Vec<Session>)
        ensures
            r@.len() == self.sessions().len(),
            forall|i: int|
                0 <= i < r@.len() ==> self.sessions().contains_key(#[trigger] r@[i]@.session_id)
                    && self.sessions()[r@[i]@.session_id] == r@[i]@,
            forall|i: int, j: int|
                0 <= i < r@.len() && 0 <= j < r@.len() && i != j ==> r@[i]@.session_id != r@[j]@.session_id,
    {
        proof {
            use_type_invariant(self);
        }
        let entries = dm_entries(&self.sessions);
        let mut out: Vec<Session> = Vec::new();
        let mut i: usize = 0;
        while i < entries.len()
            invariant
                i <= entries@.len(),
                out@.len() == i,
                forall|j: int| 0 <= j < i ==> (#[trigger] out@[j])@ == entries@[j].1@,
            decreases entries@.len() - i,
        {
            out.push(entries[i].1.clone_session());
            i = i + 1;
        }
        proof {
            assert forall|j: int| 0 <= j < out@.len() implies out@[j]@.session_id == entries@[j].0@ by {
                assert(dashmap_contents(self.sessions).contains_key(entries@[j].0@));
            }
        }
        out
    }

    /// The number of open sessions.
    pub fn count_sessions(&self) -> (r: usize)
        ensures
            r == self.sessions().len(),
            self.sessions().dom().finite(),
    {
        proof {
            use_type_invariant(self);
        }
        dm_len(&self.sessions)
    }
}

// ---------------------------------------------------------------------------
// Laws
// ---------------------------------------------------------------------------

/// What was stored is read back: after opening a session, it is open with
/// the id, configuration and times it was opened with.
pub proof fn law_read_after_create(
    m0: SessionManager,
    m1: SessionManager,
    id: Seq<char>,
    config: SessionConfigView,
    t: Timestamp,
)
    requires
        created(m0, m1, id, config, t),
    ensures
        m1.sessions().contains_key(id),
        m1.sessions()[id] == (SessionView { session_id: id, config, created_at: t, last_activity: t }),
{
}

/// After closing a session it is no longer open, and the other sessions are as they were.
pub proof fn law_absent_after_remove(m0: SessionManager, m1: SessionManager, id: Seq<char>, other: Seq<char>)
    requires
        removed(m0, m1, id),
        other != id,
    ensures
        !m1.sessions().contains_key(id),
        m1.sessions().contains_key(other) == m0.sessions().contains_key(other),
        m0.sessions().contains_key(other) ==> m1.sessions()[other] == m0.sessions()[other],
{
}

/// Opening a session under a new id adds one to the count; under an open id
/// the count stays.
pub proof fn law_count_after_create(
    m0: SessionManager,
    m1: SessionManager,
    id: Seq<char>,
    config: SessionConfigView,
    t: Timestamp,
)
    requires
        m0.sessions().dom().finite(),
        created(m0, m1, id, config, t),
    ensures
        m1.sessions().len() == if m0.sessions().contains_key(id) {
            m0.sessions().len()
        } else {
            m0.sessions().len() + 1
        },
{
}

} // verus!
