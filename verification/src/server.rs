//! The broker state: live sessions, topic ("room") memberships, and
//! per-(address, class) rate-limit buckets, with the operations the
//! dispatcher and the transport layer drive them with.
//!
//! All mutating operations take `&mut self`; the caller is expected to
//! serialize them (a single-threaded event loop or a mutex).

use vstd::prelude::*;
use vstd::seq_lib::group_seq_properties;
use crate::errors::DispatchError;
use crate::rate_limit::{RateLimitBucket, RateLimitClass, RateLimitConfig};

verus! {

/// A message pushed to a session's outbound channel.
pub struct WSMessage(pub String);

/// What the broker keeps per live session. The outbound channel itself is
/// owned by the transport layer, which maps the session id back to it.
pub struct SessionInfo {
    /// The client's network origin; the rate-limit key.
    pub ip: String,
}

/// A new session is created.
pub struct Connect {
    pub ip: String,
}

/// A session is torn down.
pub struct Disconnect {
    pub id: usize,
    pub ip: String,
}

/// A free-form message aimed at one room (kept for interface parity; the
/// dispatcher drives broadcasts itself).
pub struct ClientMessage {
    /// Id of the client session.
    pub id: usize,
    /// Peer message.
    pub msg: String,
    /// Room name.
    pub room: String,
}

/// One inbound envelope from a session.
pub struct StandardMessage {
    /// Id of the client session.
    pub id: usize,
    /// Raw envelope text.
    pub msg: String,
}

struct SessionEntry {
    id: usize,
    info: SessionInfo,
}

/// One session's room membership; the single-room invariant says each
/// session occurs in at most one of these.
#[derive(Clone, Copy, PartialEq, Eq, Structural)]
struct Membership {
    room: i32,
    session: usize,
}

struct RateLimitEntry {
    ip: String,
    class: RateLimitClass,
    bucket: RateLimitBucket,
}

spec fn ids_unique(s: Seq<SessionEntry>) -> bool {
    forall|i: int, j: int|
        0 <= i < j < s.len() ==> #[trigger] s[i].id != #[trigger] s[j].id
}

spec fn members_unique(s: Seq<Membership>) -> bool {
    forall|i: int, j: int|
        0 <= i < j < s.len() ==> #[trigger] s[i].session != #[trigger] s[j].session
}

spec fn keys_unique(s: Seq<RateLimitEntry>) -> bool {
    forall|i: int, j: int|
        0 <= i < j < s.len() ==> !(#[trigger] s[i].ip@ == #[trigger] s[j].ip@ && s[i].class
            == s[j].class)
}

/// Keep only the memberships of sessions other than `id`.
fn rooms_without(rooms: &Vec<Membership>, id: usize) -> (r: Vec<Membership>)
    requires
        members_unique(rooms@),
    ensures
        members_unique(r@),
        forall|m: Membership|
            #[trigger] r@.contains(m) <==> (rooms@.contains(m) && m.session != id),
{
    broadcast use group_seq_properties;

    let mut r: Vec<Membership> = Vec::new();
    let mut i: usize = 0;
    while i < rooms.len()
        invariant
            members_unique(rooms@),
            i <= rooms@.len(),
            members_unique(r@),
            forall|m: Membership|
                #[trigger] r@.contains(m) ==> (exists|k: int| 0 <= k < i && rooms@[k] == m)
                    && m.session != id,
            forall|k: int|
                0 <= k < i && rooms@[k].session != id ==> r@.contains(#[trigger] rooms@[k]),
        decreases rooms@.len() - i,
    {
        broadcast use group_seq_properties;

        let m = rooms[i];
        if m.session != id {
            proof {
                if r@.contains(m) {
                    let k = choose|k: int| 0 <= k < i && rooms@[k] == m;
                    assert(rooms@[k].session != rooms@[i as int].session);
                }
            }
            let ghost old_r = r@;
            r.push(m);
            proof {
                assert(r@[r@.len() - 1] == m);
                assert forall|mm: Membership| #[trigger] r@.contains(mm) implies (exists|k: int|
                    0 <= k < i + 1 && rooms@[k] == mm) && mm.session != id by {
                    let t = choose|t: int| 0 <= t < r@.len() && r@[t] == mm;
                    if t < r@.len() - 1 {
                        assert(old_r[t] == mm);
                        assert(old_r.contains(mm));
                    } else {
                        assert(rooms@[i as int] == mm);
                    }
                }
                assert forall|a: int, b: int| 0 <= a < b < r@.len() implies #[trigger] r@[a].session
                    != #[trigger] r@[b].session by {
                    if b == r@.len() - 1 {
                        assert(old_r[a] == r@[a]);
                        assert(old_r.contains(r@[a]));
                        let k = choose|k: int| 0 <= k < i && rooms@[k] == r@[a];
                        assert(rooms@[k].session != rooms@[i as int].session);
                    }
                }
            }
        }
        i += 1;
    }
    proof {
        assert forall|m: Membership| #[trigger] r@.contains(m) implies rooms@.contains(m)
            && m.session != id by {
            let k = choose|k: int| 0 <= k < rooms@.len() && rooms@[k] == m;
            assert(rooms@.contains(rooms@[k]));
        }
        assert forall|m: Membership| rooms@.contains(m) && m.session != id implies #[trigger] r@
            .contains(m) by {
            let k = choose|k: int| 0 <= k < rooms@.len() && rooms@[k] == m;
        }
    }
    r
}

/// Whether a check against the bucket for (`id`'s address, `class`) admits
/// at `now`: a missing session or bucket always admits.
pub open spec fn rl_admits(
    pre: ChatServer,
    id: usize,
    class: RateLimitClass,
    rate: u32,
    per: u32,
    now: u64,
) -> bool {
    ||| !pre.has_session(id)
    ||| !pre.has_bucket(pre.session_ip(id), class)
    ||| pre.bucket_of(pre.session_ip(id), class).admits(rate, per, now)
}

/// How one rate-limit check changes the buckets: only the checked
/// session's (address, class) bucket is touched, and it is refilled,
/// stamped, and charged exactly as the token-bucket algorithm says.
pub open spec fn rl_transition(
    pre: ChatServer,
    post: ChatServer,
    id: usize,
    class: RateLimitClass,
    rate: u32,
    per: u32,
    now: u64,
) -> bool {
    if pre.has_session(id) && pre.has_bucket(pre.session_ip(id), class) {
        &&& (forall|ip: Seq<char>, c: RateLimitClass| #[trigger]
            post.has_bucket(ip, c) == pre.has_bucket(ip, c))
        &&& (forall|ip: Seq<char>, c: RateLimitClass|
            pre.has_bucket(ip, c) && !(ip == pre.session_ip(id) && c == class)
                ==> #[trigger] post.bucket_of(ip, c) == pre.bucket_of(ip, c))
        &&& post.bucket_of(pre.session_ip(id), class) == pre.bucket_of(
            pre.session_ip(id),
            class,
        ).after_check(rate, per, now)
    } else {
        &&& (forall|ip: Seq<char>, c: RateLimitClass| #[trigger]
            post.has_bucket(ip, c) == pre.has_bucket(ip, c))
        &&& (forall|ip: Seq<char>, c: RateLimitClass|
            pre.has_bucket(ip, c) ==> #[trigger] post.bucket_of(ip, c) == pre.bucket_of(ip, c))
    }
}

/// `ChatServer` manages sessions, rooms and rate limits, and coordinates
/// broadcast fan-out among the sessions subscribed to a room.
pub struct ChatServer {
    sessions: Vec<SessionEntry>,
    rate_limits: Vec<RateLimitEntry>,
    rooms: Vec<Membership>,
    config: RateLimitConfig,
}

impl ChatServer {
    /// Whether `id` is a live session.
    pub closed spec fn has_session(self, id: usize) -> bool {
        exists|i: int| 0 <= i < self.sessions@.len() && self.sessions@[i].id == id
    }

    /// The address a live session connected from.
    pub closed spec fn session_ip(self, id: usize) -> Seq<char> {
        let i = choose|i: int|
            0 <= i < self.sessions@.len() && self.sessions@[i].id == id;
        self.sessions@[i].info.ip@
    }

    /// How many sessions are live.
    pub closed spec fn session_count(self) -> nat {
        self.sessions@.len()
    }

    /// Whether session `s` is subscribed to `room`.
    pub closed spec fn room_has(self, room: i32, s: usize) -> bool {
        self.rooms@.contains(Membership { room, session: s })
    }

    /// Whether the address has a bucket for the class.
    pub closed spec fn has_bucket(self, ip: Seq<char>, class: RateLimitClass) -> bool {
        exists|i: int|
            0 <= i < self.rate_limits@.len() && self.rate_limits@[i].ip@ == ip
                && self.rate_limits@[i].class == class
    }

    /// That bucket's state.
    pub closed spec fn bucket_of(self, ip: Seq<char>, class: RateLimitClass) -> RateLimitBucket {
        let i = choose|i: int|
            0 <= i < self.rate_limits@.len() && self.rate_limits@[i].ip@ == ip
                && self.rate_limits@[i].class == class;
        self.rate_limits@[i].bucket
    }

    /// The configured rate-limit parameters.
    pub closed spec fn rl_config(self) -> RateLimitConfig {
        self.config
    }

    /// Whether a broadcast to `room` that excludes `skip` is delivered to
    /// `s`: a subscribed, live session other than the excluded one.
    pub open spec fn is_recipient(self, room: i32, s: usize, skip: usize) -> bool {
        self.room_has(room, s) && self.has_session(s) && s != skip
    }

    /// Internal consistency: unique session ids, unique bucket keys, each
    /// session in at most one room, and a well-formed configuration.
    pub closed spec fn wf(self) -> bool {
        &&& ids_unique(self.sessions@)
        &&& members_unique(self.rooms@)
        &&& keys_unique(self.rate_limits@)
        &&& self.config.wf()
    }

    proof fn lemma_session_at(self, i: int)
        requires
            self.wf(),
            0 <= i < self.sessions@.len(),
        ensures
            self.has_session(self.sessions@[i].id),
            self.session_ip(self.sessions@[i].id) == self.sessions@[i].info.ip@,
    {
        let id = self.sessions@[i].id;
        assert(self.has_session(id));
        let j = choose|j: int|
            0 <= j < self.sessions@.len() && self.sessions@[j].id == id;
        if i < j {
            assert(self.sessions@[i].id != self.sessions@[j].id);
        } else if j < i {
            assert(self.sessions@[j].id != self.sessions@[i].id);
        }
    }

    proof fn lemma_bucket_at(self, i: int)
        requires
            self.wf(),
            0 <= i < self.rate_limits@.len(),
        ensures
            self.has_bucket(self.rate_limits@[i].ip@, self.rate_limits@[i].class),
            self.bucket_of(self.rate_limits@[i].ip@, self.rate_limits@[i].class)
                == self.rate_limits@[i].bucket,
    {
        let ip = self.rate_limits@[i].ip@;
        let class = self.rate_limits@[i].class;
        assert(self.has_bucket(ip, class));
        let j = choose|j: int|
            0 <= j < self.rate_limits@.len() && self.rate_limits@[j].ip@ == ip
                && self.rate_limits@[j].class == class;
        if i < j {
            assert(!(self.rate_limits@[i].ip@ == self.rate_limits@[j].ip@
                && self.rate_limits@[i].class == self.rate_limits@[j].class));
        } else if j < i {
            assert(!(self.rate_limits@[j].ip@ == self.rate_limits@[i].ip@
                && self.rate_limits@[j].class == self.rate_limits@[i].class));
        }
    }

    fn find_session(&self, id: usize) -> (r: Option<usize>)
        ensures
            match r {
                Option::Some(i) => i < self.sessions@.len() && self.sessions@[i as int].id == id,
                Option::None => !self.has_session(id),
            },
    {
        let mut i: usize = 0;
        while i < self.sessions.len()
            invariant
                i <= self.sessions@.len(),
                forall|k: int| 0 <= k < i ==> #[trigger] self.sessions@[k].id != id,
            decreases self.sessions@.len() - i,
        {
            if self.sessions[i].id == id {
                return Option::Some(i);
            }
            i += 1;
        }
        Option::None
    }

    fn find_bucket(&self, ip: &String, class: RateLimitClass) -> (r: Option<usize>)
        ensures
            match r {
                Option::Some(i) => i < self.rate_limits@.len()
                    && self.rate_limits@[i as int].ip@ == ip@
                    && self.rate_limits@[i as int].class == class,
                Option::None => !self.has_bucket(ip@, class),
            },
    {
        let mut i: usize = 0;
        while i < self.rate_limits.len()
            invariant
                i <= self.rate_limits@.len(),
                forall|k: int|
                    0 <= k < i ==> !(#[trigger] self.rate_limits@[k].ip@ == ip@
                        && self.rate_limits@[k].class == class),
            decreases self.rate_limits@.len() - i,
        {
            if self.rate_limits[i].ip == *ip && self.rate_limits[i].class == class {
                return Option::Some(i);
            }
            i += 1;
        }
        Option::None
    }

    /// A broker with no sessions, no rooms and no buckets.
    pub fn startup(config: RateLimitConfig) -> (s: ChatServer)
        requires
            config.wf(),
        ensures
            s.wf(),
            s.rl_config() == config,
            s.session_count() == 0,
            forall|id: usize| !s.has_session(id),
            forall|room: i32, id: usize| !s.room_has(room, id),
            forall|ip: Seq<char>, c: RateLimitClass| !s.has_bucket(ip, c),
    {
        broadcast use group_seq_properties;

        ChatServer {
            sessions: Vec::new(),
            rate_limits: Vec::new(),
            rooms: Vec::new(),
            config,
        }
    }

    fn ensure_bucket(&mut self, ip: &String, class: RateLimitClass, now: u64)
        requires
            old(self).wf(),
        ensures
            final(self).wf(),
            final(self).sessions@ == old(self).sessions@,
            final(self).rooms@ == old(self).rooms@,
            final(self).config == old(self).config,
            final(self).has_bucket(ip@, class),
            forall|ip2: Seq<char>, c: RateLimitClass|
                old(self).has_bucket(ip2, c) ==> final(self).has_bucket(ip2, c)
                    && final(self).bucket_of(ip2, c) == old(self).bucket_of(ip2, c),
            forall|ip2: Seq<char>, c: RateLimitClass|
                final(self).has_bucket(ip2, c) ==> old(self).has_bucket(ip2, c) || (ip2 == ip@
                    && c == class),
            !old(self).has_bucket(ip@, class) ==> final(self).bucket_of(ip@, class)
                == RateLimitBucket::spec_fresh(now),
    {
        broadcast use group_seq_properties;

        match self.find_bucket(ip, class) {
            Option::Some(i) => {
                proof {
                    self.lemma_bucket_at(i as int);
                }
            },
            Option::None => {
                let ghost pre = *self;
                self.rate_limits.push(
                    RateLimitEntry { ip: ip.clone(), class, bucket: RateLimitBucket::fresh(now) },
                );
                proof {
                    let n = pre.rate_limits@.len() as int;
                    let post = self.rate_limits@;
                    assert forall|a: int, b: int| 0 <= a < b < post.len() implies !(#[trigger] post[a].ip@ == #[trigger] post[b].ip@ && post[a].class == post[b].class) by {
                        if b < n {
                            assert(!(pre.rate_limits@[a].ip@ == pre.rate_limits@[b].ip@
                                && pre.rate_limits@[a].class == pre.rate_limits@[b].class));
                        } else {
                            assert(post[a] == pre.rate_limits@[a]);
                            if post[a].ip@ == ip@ && post[a].class == class {
                                assert(pre.has_bucket(ip@, class));
                            }
                        }
                    }
                    assert(self.has_bucket(ip@, class)) by {
                        assert(post[n].ip@ == ip@ && post[n].class == class);
                    }
                    self.lemma_bucket_at(n);
                    assert forall|ip2: Seq<char>, c: RateLimitClass| pre.has_bucket(
                        ip2,
                        c,
                    ) implies #[trigger] self.has_bucket(ip2, c) && self.bucket_of(ip2, c)
                        == pre.bucket_of(ip2, c) by {
                        let k = choose|k: int|
                            0 <= k < pre.rate_limits@.len() && pre.rate_limits@[k].ip@ == ip2
                                && pre.rate_limits@[k].class == c;
                        assert(post[k] == pre.rate_limits@[k]);
                        self.lemma_bucket_at(k);
                        pre.lemma_bucket_at(k);
                    }
                    assert forall|ip2: Seq<char>, c: RateLimitClass| #[trigger] self.has_bucket(
                        ip2,
                        c,
                    ) implies pre.has_bucket(ip2, c) || (ip2 == ip@ && c == class) by {
                        let k = choose|k: int|
                            0 <= k < post.len() && post[k].ip@ == ip2 && post[k].class == c;
                        if k < n {
                            assert(pre.rate_limits@[k] == post[k]);
                            assert(pre.has_bucket(ip2, c));
                        }
                    }
                }
            },
        }
    }

    /// Store (or refresh) session `id` as connected from `ip`, and lazily
    /// create that address's rate-limit buckets, one per class, each with
    /// an unset balance.
    pub fn register_session(&mut self, id: usize, ip: String, now: u64)
        requires
            old(self).wf(),
        ensures
            final(self).wf(),
            final(self).rl_config() == old(self).rl_config(),
            forall|s: usize|
                final(self).has_session(s) <==> (old(self).has_session(s) || s == id),
            final(self).session_ip(id) == ip@,
            forall|s: usize|
                s != id && old(self).has_session(s) ==> final(self).session_ip(s) == old(
                    self,
                ).session_ip(s),
            final(self).session_count() == old(self).session_count() + (if old(self).has_session(
                id,
            ) {
                0int
            } else {
                1int
            }),
            forall|room: i32, s: usize|
                final(self).room_has(room, s) == old(self).room_has(room, s),
            forall|c: RateLimitClass| final(self).has_bucket(ip@, c),
            forall|ip2: Seq<char>, c: RateLimitClass|
                old(self).has_bucket(ip2, c) ==> final(self).has_bucket(ip2, c)
                    && final(self).bucket_of(ip2, c) == old(self).bucket_of(ip2, c),
            forall|ip2: Seq<char>, c: RateLimitClass|
                final(self).has_bucket(ip2, c) ==> old(self).has_bucket(ip2, c) || ip2 == ip@,
            forall|c: RateLimitClass|
                !old(self).has_bucket(ip@, c) ==> final(self).bucket_of(ip@, c)
                    == RateLimitBucket::spec_fresh(now),
    {
        broadcast use group_seq_properties;

        let entry_info = SessionInfo { ip: ip.clone() };
        let ghost pre = *self;
        match self.find_session(id) {
            Option::Some(i) => {
                self.sessions.remove(i);
                self.sessions.push(SessionEntry { id, info: entry_info });
                proof {
                    let n = pre.sessions@.len() as int;
                    let mid = pre.sessions@.remove(i as int);
                    let post = self.sessions@;
                    assert(post == mid.push(SessionEntry { id, info: SessionInfo { ip: ip } }));
                    // every mid index maps back into pre, skipping i
                    assert forall|k: int| 0 <= k < mid.len() implies #[trigger] mid[k] == (if k < i
                        as int {
                        pre.sessions@[k]
                    } else {
                        pre.sessions@[k + 1]
                    }) by {}
                    assert forall|a: int, b: int| 0 <= a < b < post.len() implies #[trigger] post[a].id != #[trigger] post[b].id by {
                        if b < post.len() - 1 {
                        } else {
                            if a < i as int {
                                assert(post[a] == pre.sessions@[a]);
                                if pre.sessions@[a].id == id {
                                    assert(a < i as int);
                                }
                            } else {
                                assert(post[a] == pre.sessions@[a + 1]);
                            }
                        }
                    }
                    assert(self.has_session(id)) by {
                        assert(post[post.len() - 1].id == id);
                    }
                    self.lemma_session_at(post.len() - 1);
                    assert forall|s: usize| #[trigger] self.has_session(s) implies pre.has_session(
                        s,
                    ) || s == id by {
                        let k = choose|k: int| 0 <= k < post.len() && post[k].id == s;
                        if k < post.len() - 1 {
                            if k < i as int {
                                assert(pre.sessions@[k].id == s);
                            } else {
                                assert(pre.sessions@[k + 1].id == s);
                            }
                        }
                    }
                    assert forall|s: usize| pre.has_session(s) implies #[trigger] self.has_session(
                        s,
                    ) && (s != id ==> self.session_ip(s) == pre.session_ip(s)) by {
                        let k = choose|k: int|
                            0 <= k < pre.sessions@.len() && pre.sessions@[k].id == s;
                        if s == id {
                        } else {
                            if k < i as int {
                                assert(post[k] == pre.sessions@[k]);
                                self.lemma_session_at(k);
                            } else {
                                assert(k > i as int);
                                assert(post[k - 1] == pre.sessions@[k]);
                                self.lemma_session_at(k - 1);
                            }
                            pre.lemma_session_at(k);
                        }
                    }
                }
            },
            Option::None => {
                self.sessions.push(SessionEntry { id, info: entry_info });
                proof {
                    let n = pre.sessions@.len() as int;
                    let post = self.sessions@;
                    assert forall|a: int, b: int| 0 <= a < b < post.len() implies #[trigger] post[a].id != #[trigger] post[b].id by {
                        if b < n {
                        } else {
                            assert(post[a] == pre.sessions@[a]);
                            if pre.sessions@[a].id == id {
                                assert(pre.has_session(id));
                            }
                        }
                    }
                    assert(self.has_session(id)) by {
                        assert(post[n].id == id);
                    }
                    self.lemma_session_at(n);
                    assert forall|s: usize| #[trigger] self.has_session(s) implies pre.has_session(
                        s,
                    ) || s == id by {
                        let k = choose|k: int| 0 <= k < post.len() && post[k].id == s;
                        if k < n {
                            assert(pre.sessions@[k].id == s);
                        }
                    }
                    assert forall|s: usize| pre.has_session(s) implies #[trigger] self.has_session(
                        s,
                    ) && (s != id ==> self.session_ip(s) == pre.session_ip(s)) by {
                        let k = choose|k: int|
                            0 <= k < pre.sessions@.len() && pre.sessions@[k].id == s;
                        assert(post[k] == pre.sessions@[k]);
                        self.lemma_session_at(k);
                        pre.lemma_session_at(k);
                    }
                }
            },
        }
        let ghost mid_state = *self;
        proof {
            assert(mid_state.wf());
            assert(mid_state.rate_limits@ == pre.rate_limits@);
            ChatServer::lemma_same_buckets(pre, mid_state);
        }
        self.ensure_bucket(&ip, RateLimitClass::Register, now);
        self.ensure_bucket(&ip, RateLimitClass::Post, now);
        self.ensure_bucket(&ip, RateLimitClass::Message, now);
        proof {
            let fin = *self;
            assert(fin.sessions@ == mid_state.sessions@);
            ChatServer::lemma_same_sessions(mid_state, fin);
            assert forall|s: usize|
                s != id && pre.has_session(s) implies fin.session_ip(s) == pre.session_ip(s) by {
                assert(mid_state.has_session(s));
                assert(mid_state.session_ip(s) == pre.session_ip(s));
            }
            assert forall|c: RateLimitClass| fin.has_bucket(ip@, c) by {
                if c == RateLimitClass::Register {
                } else if c == RateLimitClass::Post {
                } else {
                    assert(c == RateLimitClass::Message);
                }
            }
        }
    }

    /// Two states with the same session list agree on every session fact.
    proof fn lemma_same_sessions(a: ChatServer, b: ChatServer)
        requires
            a.wf(),
            b.wf(),
            a.sessions@ == b.sessions@,
        ensures
            forall|s: usize| a.has_session(s) == b.has_session(s),
            forall|s: usize|
                a.has_session(s) ==> a.session_ip(s) == b.session_ip(s),
            a.session_count() == b.session_count(),
    {
        assert forall|s: usize| a.has_session(s) == b.has_session(s) by {
            if a.has_session(s) {
                let k = choose|k: int|
                    0 <= k < a.sessions@.len() && a.sessions@[k].id == s;
                assert(b.sessions@[k].id == s);
            }
            if b.has_session(s) {
                let k = choose|k: int|
                    0 <= k < b.sessions@.len() && b.sessions@[k].id == s;
                assert(a.sessions@[k].id == s);
            }
        }
        assert forall|s: usize| a.has_session(s) implies a.session_ip(s) == b.session_ip(s) by {
            let k = choose|k: int|
                0 <= k < a.sessions@.len() && a.sessions@[k].id == s;
            a.lemma_session_at(k);
            assert(b.sessions@[k].id == s);
            b.lemma_session_at(k);
        }
    }

    /// Two states with the same bucket list agree on every bucket fact.
    proof fn lemma_same_buckets(a: ChatServer, b: ChatServer)
        requires
            a.wf(),
            b.wf(),
            a.rate_limits@ == b.rate_limits@,
        ensures
            forall|ip: Seq<char>, c: RateLimitClass|
                a.has_bucket(ip, c) == b.has_bucket(ip, c),
            forall|ip: Seq<char>, c: RateLimitClass|
                a.has_bucket(ip, c) ==> a.bucket_of(ip, c) == b.bucket_of(ip, c),
    {
        assert forall|ip: Seq<char>, c: RateLimitClass| a.has_bucket(ip, c) == b.has_bucket(
            ip,
            c,
        ) by {
            if a.has_bucket(ip, c) {
                let k = choose|k: int|
                    0 <= k < a.rate_limits@.len() && a.rate_limits@[k].ip@ == ip
                        && a.rate_limits@[k].class == c;
                assert(b.rate_limits@[k].ip@ == ip && b.rate_limits@[k].class == c);
            }
            if b.has_bucket(ip, c) {
                let k = choose|k: int|
                    0 <= k < b.rate_limits@.len() && b.rate_limits@[k].ip@ == ip
                        && b.rate_limits@[k].class == c;
                assert(a.rate_limits@[k].ip@ == ip && a.rate_limits@[k].class == c);
            }
        }
        assert forall|ip: Seq<char>, c: RateLimitClass| a.has_bucket(ip, c) implies a.bucket_of(
            ip,
            c,
        ) == b.bucket_of(ip, c) by {
            let k = choose|k: int|
                0 <= k < a.rate_limits@.len() && a.rate_limits@[k].ip@ == ip
                    && a.rate_limits@[k].class == c;
            a.lemma_bucket_at(k);
            assert(b.rate_limits@[k].ip@ == ip && b.rate_limits@[k].class == c);
            b.lemma_bucket_at(k);
        }
    }

    /// Relies on rand::random for a fresh random session identifier.
    #[verifier::external_body]
    fn random_session_id() -> usize {
        rand::random()
    }

    /// Register a new session under a randomly generated id and return the
    /// id; the address's rate-limit buckets are lazily created, unset.
    pub fn handle_connect(&mut self, msg: Connect, now: u64) -> (id: usize)
        requires
            old(self).wf(),
        ensures
            final(self).wf(),
            final(self).rl_config() == old(self).rl_config(),
            forall|s: usize|
                final(self).has_session(s) <==> (old(self).has_session(s) || s == id),
            final(self).session_ip(id) == msg.ip@,
            forall|s: usize|
                s != id && old(self).has_session(s) ==> final(self).session_ip(s) == old(
                    self,
                ).session_ip(s),
            forall|room: i32, s: usize|
                final(self).room_has(room, s) == old(self).room_has(room, s),
            forall|c: RateLimitClass| final(self).has_bucket(msg.ip@, c),
            forall|ip2: Seq<char>, c: RateLimitClass|
                old(self).has_bucket(ip2, c) ==> final(self).has_bucket(ip2, c)
                    && final(self).bucket_of(ip2, c) == old(self).bucket_of(ip2, c),
            forall|ip2: Seq<char>, c: RateLimitClass|
                final(self).has_bucket(ip2, c) ==> old(self).has_bucket(ip2, c) || ip2 == msg.ip@,
            forall|c: RateLimitClass|
                !old(self).has_bucket(msg.ip@, c) ==> final(self).bucket_of(msg.ip@, c)
                    == RateLimitBucket::spec_fresh(now),
            final(self).session_count() == old(self).session_count() + (if old(self).has_session(
                id,
            ) {
                0int
            } else {
                1int
            }),
    {
        let id = Self::random_session_id();
        self.register_session(id, msg.ip, now);
        id
    }

    /// The session's stored info, or `None` for a stale id (not an error).
    pub fn lookup(&self, id: usize) -> (r: Option<&SessionInfo>)
        requires
            self.wf(),
        ensures
            r is Some <==> self.has_session(id),
            r matches Some(info) ==> info.ip@ == self.session_ip(id),
    {
        match self.find_session(id) {
            Option::Some(i) => {
                proof {
                    self.lemma_session_at(i as int);
                }
                Option::Some(&self.sessions[i].info)
            },
            Option::None => Option::None,
        }
    }

    /// How many sessions are currently live.
    pub fn online(&self) -> (n: usize)
        ensures
            n == self.session_count(),
    {
        self.sessions.len()
    }

    /// Subscribe `id` to `room_id`, first removing it from every other
    /// room: a session belongs to at most one room, the one joined last.
    /// The room comes into being on first join.
    pub fn join_room(&mut self, room_id: i32, id: usize)
        requires
            old(self).wf(),
        ensures
            final(self).wf(),
            final(self).rl_config() == old(self).rl_config(),
            forall|s: usize| final(self).has_session(s) == old(self).has_session(s),
            forall|s: usize|
                old(self).has_session(s) ==> final(self).session_ip(s) == old(self).session_ip(s),
            final(self).session_count() == old(self).session_count(),
            forall|ip: Seq<char>, c: RateLimitClass|
                final(self).has_bucket(ip, c) == old(self).has_bucket(ip, c),
            forall|ip: Seq<char>, c: RateLimitClass|
                old(self).has_bucket(ip, c) ==> final(self).bucket_of(ip, c) == old(
                    self,
                ).bucket_of(ip, c),
            forall|r: i32, s: usize|
                final(self).room_has(r, s) <==> (if s == id {
                    r == room_id
                } else {
                    old(self).room_has(r, s)
                }),
    {
        broadcast use group_seq_properties;

        let ghost pre = *self;
        let mut filtered = rooms_without(&self.rooms, id);
        let ghost fseq = filtered@;
        filtered.push(Membership { room: room_id, session: id });
        self.rooms = filtered;
        proof {
            let post = self.rooms@;
            let last = post.len() - 1;
            assert forall|a: int, b: int| 0 <= a < b < post.len() implies #[trigger] post[a].session
                != #[trigger] post[b].session by {
                if b == last {
                    assert(fseq[a] == post[a]);
                    assert(fseq.contains(post[a]));
                }
            }
            assert(self.wf());
            assert forall|r: i32, s: usize|
                #[trigger] self.room_has(r, s) <==> (if s == id {
                    r == room_id
                } else {
                    pre.room_has(r, s)
                }) by {
                let m = Membership { room: r, session: s };
                if s == id {
                    if r == room_id {
                        assert(post[last] == m);
                        assert(post.contains(m));
                    } else {
                        if post.contains(m) {
                            let t = choose|t: int| 0 <= t < post.len() && post[t] == m;
                            if t < last {
                                assert(fseq[t] == m);
                                assert(fseq.contains(m));
                            }
                        }
                    }
                } else {
                    if post.contains(m) {
                        let t = choose|t: int| 0 <= t < post.len() && post[t] == m;
                        assert(t < last);
                        assert(fseq[t] == m);
                        assert(fseq.contains(m));
                    }
                    if pre.room_has(r, s) {
                        assert(fseq.contains(m));
                        let t = choose|t: int| 0 <= t < fseq.len() && fseq[t] == m;
                        assert(post[t] == m);
                        assert(post.contains(m));
                    }
                }
            }
            ChatServer::lemma_same_sessions(pre, *self);
            ChatServer::lemma_same_buckets(pre, *self);
        }
    }

    /// Tear a session down: drop it from the session registry and from
    /// every room. Unknown ids are a no-op, not an error.
    pub fn handle_disconnect(&mut self, msg: Disconnect)
        requires
            old(self).wf(),
        ensures
            final(self).wf(),
            final(self).rl_config() == old(self).rl_config(),
            forall|s: usize|
                final(self).has_session(s) <==> (old(self).has_session(s) && s != msg.id),
            forall|s: usize|
                s != msg.id && old(self).has_session(s) ==> final(self).session_ip(s) == old(
                    self,
                ).session_ip(s),
            final(self).session_count() == old(self).session_count() - (if old(self).has_session(
                msg.id,
            ) {
                1int
            } else {
                0int
            }),
            forall|r: i32, s: usize|
                final(self).room_has(r, s) <==> (old(self).room_has(r, s) && !(s == msg.id && old(
                    self,
                ).has_session(msg.id))),
            forall|ip: Seq<char>, c: RateLimitClass|
                final(self).has_bucket(ip, c) == old(self).has_bucket(ip, c),
            forall|ip: Seq<char>, c: RateLimitClass|
                old(self).has_bucket(ip, c) ==> final(self).bucket_of(ip, c) == old(
                    self,
                ).bucket_of(ip, c),
    {
        broadcast use group_seq_properties;

        let ghost pre = *self;
        match self.find_session(msg.id) {
            Option::Some(i) => {
                self.sessions.remove(i);
                let filtered = rooms_without(&self.rooms, msg.id);
                self.rooms = filtered;
                proof {
                    let post = self.sessions@;
                    let n = pre.sessions@.len() as int;
                    assert forall|k: int| 0 <= k < post.len() implies #[trigger] post[k] == (if k
                        < i as int {
                        pre.sessions@[k]
                    } else {
                        pre.sessions@[k + 1]
                    }) by {}
                    assert forall|a: int, b: int| 0 <= a < b < post.len() implies #[trigger] post[
                        a
                    ].id != #[trigger] post[b].id by {}
                    assert(self.wf());
                    assert forall|s: usize| #[trigger] self.has_session(s) implies pre.has_session(
                        s,
                    ) && s != msg.id by {
                        let k = choose|k: int| 0 <= k < post.len() && post[k].id == s;
                        let k2 = if k < i as int {
                            k
                        } else {
                            k + 1
                        };
                        assert(pre.sessions@[k2].id == s);
                        if s == msg.id {
                            if k2 < i as int {
                                assert(pre.sessions@[k2].id != pre.sessions@[i as int].id);
                            } else {
                                assert(pre.sessions@[i as int].id != pre.sessions@[k2].id);
                            }
                        }
                    }
                    assert forall|s: usize|
                        pre.has_session(s) && s != msg.id implies #[trigger] self.has_session(s)
                            && self.session_ip(s) == pre.session_ip(s) by {
                        let k = choose|k: int|
                            0 <= k < pre.sessions@.len() && pre.sessions@[k].id == s;
                        if k < i as int {
                            assert(post[k] == pre.sessions@[k]);
                            self.lemma_session_at(k);
                        } else {
                            assert(k > i as int);
                            assert(post[k - 1] == pre.sessions@[k]);
                            self.lemma_session_at(k - 1);
                        }
                        pre.lemma_session_at(k);
                    }
                    assert forall|s: usize|
                        s != msg.id && pre.has_session(s) implies #[trigger] self.session_ip(s)
                        == pre.session_ip(s) by {
                        assert(self.has_session(s));
                    }
                    assert(pre.has_session(msg.id));
                    ChatServer::lemma_same_buckets(pre, *self);
                }
            },
            Option::None => {},
        }
    }

    /// The sessions a broadcast to `room` excluding `skip_id` is delivered
    /// to: every live subscribed session except the excluded one, each
    /// exactly once. Sending itself is the transport layer's concern and is
    /// fire-and-forget; an empty room yields no recipients.
    pub fn room_recipients(&self, room: i32, skip_id: usize) -> (r: Vec<usize>)
        requires
            self.wf(),
        ensures
            forall|s: usize| #[trigger] r@.contains(s) <==> self.is_recipient(room, s, skip_id),
            forall|a: int, b: int| 0 <= a < b < r@.len() ==> r@[a] != r@[b],
    {
        broadcast use group_seq_properties;

        let mut r: Vec<usize> = Vec::new();
        let mut i: usize = 0;
        while i < self.rooms.len()
            invariant
                self.wf(),
                i <= self.rooms@.len(),
                forall|s: usize| #[trigger]
                    r@.contains(s) ==> (exists|k: int|
                        0 <= k < i && self.rooms@[k] == (Membership { room, session: s }))
                        && self.has_session(s) && s != skip_id,
                forall|k: int|
                    0 <= k < i && (#[trigger] self.rooms@[k]).room == room
                        && self.rooms@[k].session != skip_id && self.has_session(
                        self.rooms@[k].session,
                    ) ==> r@.contains(self.rooms@[k].session),
                forall|a: int, b: int| 0 <= a < b < r@.len() ==> r@[a] != r@[b],
            decreases self.rooms@.len() - i,
        {
            broadcast use group_seq_properties;

            let m = self.rooms[i];
            if m.room == room && m.session != skip_id && self.find_session(m.session).is_some() {
                proof {
                    if r@.contains(m.session) {
                        let k = choose|k: int|
                            0 <= k < i && self.rooms@[k] == (Membership {
                                room,
                                session: m.session,
                            });
                        assert(self.rooms@[k].session != self.rooms@[i as int].session);
                    }
                }
                let ghost old_r = r@;
                r.push(m.session);
                proof {
                    assert(r@[r@.len() - 1] == m.session);
                    assert forall|s: usize| #[trigger] r@.contains(s) implies (exists|k: int|
                        0 <= k < i + 1 && self.rooms@[k] == (Membership { room, session: s }))
                        && self.has_session(s) && s != skip_id by {
                        let t = choose|t: int| 0 <= t < r@.len() && r@[t] == s;
                        if t < r@.len() - 1 {
                            assert(old_r[t] == s);
                            assert(old_r.contains(s));
                        } else {
                            assert(self.rooms@[i as int] == (Membership { room, session: s }));
                        }
                    }
                    assert forall|a: int, b: int| 0 <= a < b < r@.len() implies r@[a] != r@[b] by {
                        if b == r@.len() - 1 {
                            assert(old_r[a] == r@[a]);
                            assert(old_r.contains(r@[a]));
                        }
                    }
                }
            }
            i += 1;
        }
        proof {
            assert forall|s: usize| #[trigger] r@.contains(s) implies self.is_recipient(
                room,
                s,
                skip_id,
            ) by {
                let k = choose|k: int|
                    0 <= k < self.rooms@.len() && self.rooms@[k] == (Membership {
                        room,
                        session: s,
                    });
                assert(self.rooms@.contains(self.rooms@[k]));
            }
            assert forall|s: usize| self.is_recipient(room, s, skip_id) implies #[trigger] r@
                .contains(s) by {
                let m = Membership { room, session: s };
                let k = choose|k: int| 0 <= k < self.rooms@.len() && self.rooms@[k] == m;
            }
        }
        r
    }

    /// The recipients of a broadcast fanned out over a list of rooms (a
    /// derived scope, e.g. every topic under one community), excluding
    /// `skip_id`. When the scope is a set (no topic listed twice), each
    /// recipient appears at most once: rooms share no members.
    pub fn community_recipients(&self, topics: &Vec<i32>, skip_id: usize) -> (r: Vec<usize>)
        requires
            self.wf(),
        ensures
            forall|s: usize| #[trigger]
                r@.contains(s) <==> (exists|k: int|
                    0 <= k < topics@.len() && self.is_recipient(#[trigger] topics@[k], s, skip_id)),
            (forall|a: int, b: int| 0 <= a < b < topics@.len() ==> topics@[a] != topics@[b])
                ==> (forall|a: int, b: int| 0 <= a < b < r@.len() ==> r@[a] != r@[b]),
    {
        broadcast use group_seq_properties;

        let mut r: Vec<usize> = Vec::new();
        let mut i: usize = 0;
        while i < topics.len()
            invariant
                self.wf(),
                i <= topics@.len(),
                forall|s: usize| #[trigger]
                    r@.contains(s) <==> (exists|k: int|
                        0 <= k < i && self.is_recipient(#[trigger] topics@[k], s, skip_id)),
                (forall|a: int, b: int| 0 <= a < b < topics@.len() ==> topics@[a] != topics@[b])
                    ==> (forall|a: int, b: int| 0 <= a < b < r@.len() ==> r@[a] != r@[b]),
            decreases topics@.len() - i,
        {
            broadcast use group_seq_properties;

            let ghost old_r = r@;
            let mut part = self.room_recipients(topics[i], skip_id);
            let ghost part_seq = part@;
            r.append(&mut part);
            proof {
                assert(r@ == old_r + part_seq);
                assert forall|s: usize| #[trigger] r@.contains(s) implies (exists|k: int|
                    0 <= k < i + 1 && self.is_recipient(#[trigger] topics@[k], s, skip_id)) by {
                    if old_r.contains(s) {
                    } else {
                        assert(part_seq.contains(s));
                        assert(self.is_recipient(topics@[i as int], s, skip_id));
                    }
                }
                assert forall|s: usize| (exists|k: int|
                    0 <= k < i + 1 && self.is_recipient(#[trigger] topics@[k], s, skip_id))
                    implies #[trigger] r@.contains(s) by {
                    let k = choose|k: int|
                        0 <= k < i + 1 && self.is_recipient(topics@[k], s, skip_id);
                    if k < i {
                        assert(old_r.contains(s));
                    } else {
                        assert(part_seq.contains(s));
                    }
                }
                if (forall|a: int, b: int|
                    0 <= a < b < topics@.len() ==> topics@[a] != topics@[b]) {
                    let n0 = old_r.len() as int;
                    assert forall|a: int, b: int| 0 <= a < b < r@.len() implies r@[a] != r@[b] by {
                        if b < n0 {
                            assert(old_r[a] == r@[a] && old_r[b] == r@[b]);
                        } else if a >= n0 {
                            assert(part_seq[a - n0] == r@[a] && part_seq[b - n0] == r@[b]);
                        } else {
                            assert(old_r[a] == r@[a]);
                            assert(part_seq[b - n0] == r@[b]);
                            if r@[a] == r@[b] {
                                let s = r@[a];
                                assert(old_r.contains(s));
                                assert(part_seq.contains(s));
                                let k = choose|k: int|
                                    0 <= k < i && self.is_recipient(topics@[k], s, skip_id);
                                assert(self.is_recipient(topics@[i as int], s, skip_id));
                                lemma_session_in_one_room(
                                    *self,
                                    topics@[k],
                                    topics@[i as int],
                                    s,
                                );
                                assert(topics@[k] != topics@[i as int]);
                            }
                        }
                    }
                }
            }
            i += 1;
        }
        r
    }

    /// One token-bucket check for `id`'s address against `class`, with the
    /// given parameters, at time `now`. A missing session or bucket admits
    /// without touching anything; a rejection reports the configured pair.
    pub fn check_rate_limit_full(
        &mut self,
        id: usize,
        rate: u32,
        per: u32,
        class: RateLimitClass,
        now: u64,
    ) -> (r: Result<(), DispatchError>)
        requires
            old(self).wf(),
            per >= 1,
        ensures
            final(self).wf(),
            final(self).rl_config() == old(self).rl_config(),
            forall|s: usize| final(self).has_session(s) == old(self).has_session(s),
            forall|s: usize|
                old(self).has_session(s) ==> final(self).session_ip(s) == old(self).session_ip(s),
            final(self).session_count() == old(self).session_count(),
            forall|r2: i32, s: usize|
                final(self).room_has(r2, s) == old(self).room_has(r2, s),
            rl_transition(*old(self), *final(self), id, class, rate, per, now),
            r is Ok <==> rl_admits(*old(self), id, class, rate, per, now),
            r matches Err(e) ==> e == (DispatchError::RateLimited { rate, per }),
    {
        broadcast use group_seq_properties;

        let ghost pre = *self;
        let i = match self.find_session(id) {
            Option::Some(i) => i,
            Option::None => {
                return Result::Ok(());
            },
        };
        proof {
            self.lemma_session_at(i as int);
        }
        let ip = self.sessions[i].info.ip.clone();
        let j = match self.find_bucket(&ip, class) {
            Option::Some(j) => j,
            Option::None => {
                return Result::Ok(());
            },
        };
        proof {
            self.lemma_bucket_at(j as int);
        }
        let ghost old_bucket = self.rate_limits@[j as int].bucket;
        let admitted = self.rate_limits[j].bucket.check(rate, per, now);
        proof {
            let post = self.rate_limits@;
            assert(post == pre.rate_limits@.update(
                j as int,
                RateLimitEntry {
                    ip: post[j as int].ip,
                    class,
                    bucket: old_bucket.after_check(rate, per, now),
                },
            ));
            assert(post[j as int].ip@ == ip@ && post[j as int].class == class);
            assert forall|a: int, b: int| 0 <= a < b < post.len() implies !(#[trigger] post[a].ip@
                == #[trigger] post[b].ip@ && post[a].class == post[b].class) by {
                assert(post[a].ip@ == pre.rate_limits@[a].ip@ && post[a].class
                    == pre.rate_limits@[a].class);
                assert(post[b].ip@ == pre.rate_limits@[b].ip@ && post[b].class
                    == pre.rate_limits@[b].class);
            }
            assert(self.wf());
            ChatServer::lemma_same_sessions(pre, *self);
            assert(self.session_ip(id) == ip@);
            assert forall|ip2: Seq<char>, c: RateLimitClass| #[trigger] self.has_bucket(ip2, c)
                == pre.has_bucket(ip2, c) by {
                if self.has_bucket(ip2, c) {
                    let k = choose|k: int|
                        0 <= k < post.len() && post[k].ip@ == ip2 && post[k].class == c;
                    assert(pre.rate_limits@[k].ip@ == ip2 && pre.rate_limits@[k].class == c);
                }
                if pre.has_bucket(ip2, c) {
                    let k = choose|k: int|
                        0 <= k < pre.rate_limits@.len() && pre.rate_limits@[k].ip@ == ip2
                            && pre.rate_limits@[k].class == c;
                    assert(post[k].ip@ == ip2 && post[k].class == c);
                }
            }
            assert forall|ip2: Seq<char>, c: RateLimitClass|
                pre.has_bucket(ip2, c) && !(ip2 == ip@ && c == class) implies #[trigger] self
                .bucket_of(ip2, c) == pre.bucket_of(ip2, c) by {
                let k = choose|k: int|
                    0 <= k < pre.rate_limits@.len() && pre.rate_limits@[k].ip@ == ip2
                        && pre.rate_limits@[k].class == c;
                assert(k != j as int);
                assert(post[k] == pre.rate_limits@[k]);
                pre.lemma_bucket_at(k);
                self.lemma_bucket_at(k);
            }
            self.lemma_bucket_at(j as int);
            pre.lemma_bucket_at(j as int);
            assert(self.bucket_of(ip@, class) == old_bucket.after_check(rate, per, now));
            assert(pre.bucket_of(ip@, class) == old_bucket);
        }
        if admitted {
            Result::Ok(())
        } else {
            Result::Err(DispatchError::RateLimited { rate, per })
        }
    }

    /// The `register`-class rate-limit check for `id`'s address, with the
    /// configured parameters.
    pub fn check_rate_limit_register(&mut self, id: usize, now: u64) -> (r: Result<
        (),
        DispatchError,
    >)
        requires
            old(self).wf(),
        ensures
            final(self).wf(),
            final(self).rl_config() == old(self).rl_config(),
            forall|s: usize| final(self).has_session(s) == old(self).has_session(s),
            forall|s: usize|
                old(self).has_session(s) ==> final(self).session_ip(s) == old(self).session_ip(s),
            final(self).session_count() == old(self).session_count(),
            forall|r2: i32, s: usize|
                final(self).room_has(r2, s) == old(self).room_has(r2, s),
            rl_transition(
                *old(self),
                *final(self),
                id,
                RateLimitClass::Register,
                old(self).rl_config().register.rate,
                old(self).rl_config().register.per,
                now,
            ),
            r is Ok <==> rl_admits(
                *old(self),
                id,
                RateLimitClass::Register,
                old(self).rl_config().register.rate,
                old(self).rl_config().register.per,
                now,
            ),
            r matches Err(e) ==> e == (DispatchError::RateLimited {
                rate: old(self).rl_config().register.rate,
                per: old(self).rl_config().register.per,
            }),
    {
        let rate = self.config.register.rate;
        let per = self.config.register.per;
        self.check_rate_limit_full(id, rate, per, RateLimitClass::Register, now)
    }

    /// The `post`-class rate-limit check for `id`'s address.
    pub fn check_rate_limit_post(&mut self, id: usize, now: u64) -> (r: Result<(), DispatchError>)
        requires
            old(self).wf(),
        ensures
            final(self).wf(),
            final(self).rl_config() == old(self).rl_config(),
            forall|s: usize| final(self).has_session(s) == old(self).has_session(s),
            forall|s: usize|
                old(self).has_session(s) ==> final(self).session_ip(s) == old(self).session_ip(s),
            final(self).session_count() == old(self).session_count(),
            forall|r2: i32, s: usize|
                final(self).room_has(r2, s) == old(self).room_has(r2, s),
            rl_transition(
                *old(self),
                *final(self),
                id,
                RateLimitClass::Post,
                old(self).rl_config().post.rate,
                old(self).rl_config().post.per,
                now,
            ),
            r is Ok <==> rl_admits(
                *old(self),
                id,
                RateLimitClass::Post,
                old(self).rl_config().post.rate,
                old(self).rl_config().post.per,
                now,
            ),
            r matches Err(e) ==> e == (DispatchError::RateLimited {
                rate: old(self).rl_config().post.rate,
                per: old(self).rl_config().post.per,
            }),
    {
        let rate = self.config.post.rate;
        let per = self.config.post.per;
        self.check_rate_limit_full(id, rate, per, RateLimitClass::Post, now)
    }

    /// The `message`-class rate-limit check for `id`'s address.
    pub fn check_rate_limit_message(&mut self, id: usize, now: u64) -> (r: Result<
        (),
        DispatchError,
    >)
        requires
            old(self).wf(),
        ensures
            final(self).wf(),
            final(self).rl_config() == old(self).rl_config(),
            forall|s: usize| final(self).has_session(s) == old(self).has_session(s),
            forall|s: usize|
                old(self).has_session(s) ==> final(self).session_ip(s) == old(self).session_ip(s),
            final(self).session_count() == old(self).session_count(),
            forall|r2: i32, s: usize|
                final(self).room_has(r2, s) == old(self).room_has(r2, s),
            rl_transition(
                *old(self),
                *final(self),
                id,
                RateLimitClass::Message,
                old(self).rl_config().message.rate,
                old(self).rl_config().message.per,
                now,
            ),
            r is Ok <==> rl_admits(
                *old(self),
                id,
                RateLimitClass::Message,
                old(self).rl_config().message.rate,
                old(self).rl_config().message.per,
                now,
            ),
            r matches Err(e) ==> e == (DispatchError::RateLimited {
                rate: old(self).rl_config().message.rate,
                per: old(self).rl_config().message.per,
            }),
    {
        let rate = self.config.message.rate;
        let per = self.config.message.per;
        self.check_rate_limit_full(id, rate, per, RateLimitClass::Message, now)
    }
}

/// After any sequence of joins a session belongs to at most one room: two
/// rooms that both hold `id` are the same room. Together with
/// `join_room`'s contract (after `join_room(t, id)` the session is in `t`
/// and only `t`), the most recent join wins.
pub proof fn lemma_session_in_one_room(s: ChatServer, r1: i32, r2: i32, id: usize)
    requires
        s.wf(),
        s.room_has(r1, id),
        s.room_has(r2, id),
    ensures
        r1 == r2,
{
    let m1 = Membership { room: r1, session: id };
    let m2 = Membership { room: r2, session: id };
    let i = choose|i: int| 0 <= i < s.rooms@.len() && s.rooms@[i] == m1;
    let j = choose|j: int| 0 <= j < s.rooms@.len() && s.rooms@[j] == m2;
    if i < j {
        assert(s.rooms@[i].session != s.rooms@[j].session);
    } else if j < i {
        assert(s.rooms@[j].session != s.rooms@[i].session);
    }
}

/// A session that is not live — in particular one just disconnected — is
/// never a broadcast recipient, whatever the room and the exclusion.
pub proof fn lemma_gone_session_not_recipient(s: ChatServer, room: i32, id: usize, skip: usize)
    requires
        !s.has_session(id),
    ensures
        !s.is_recipient(room, id, skip),
{
}

/// Rate-limit buckets of different classes on one address are independent:
/// a check against one class leaves every other class's bucket for the
/// same address untouched, so exhausting `post` never affects `message`.
pub proof fn lemma_rate_classes_independent(
    pre: ChatServer,
    post: ChatServer,
    id: usize,
    class: RateLimitClass,
    other: RateLimitClass,
    ip: Seq<char>,
    rate: u32,
    per: u32,
    now: u64,
)
    requires
        rl_transition(pre, post, id, class, rate, per, now),
        other != class,
        pre.has_bucket(ip, other),
    ensures
        post.has_bucket(ip, other),
        post.bucket_of(ip, other) == pre.bucket_of(ip, other),
{
}

} // verus!
