//! The cache of connections: at most one for each distinct set of
//! connection properties, and what holds of every run of requests to it.

use vstd::prelude::*;

use crate::connection::{ConnectionKey, ConnectionProperties};
use crate::hdfs3::{HdfsFs, HdfsFsView};

verus! {

/// What a request for a connection is answered with.
pub enum Served {
    /// The connection with this handle, cached before or made for this request.
    Handle(u64),
    /// Nothing yet: the native client has to connect first.
    Connect,
    /// Nothing: the native client could not connect.
    Refused,
}

/// The answer to a request for the connection of `key`, where `connected` is
/// what the native client returned if it was asked to connect. A cached
/// connection is handed out whatever the native client returned.
pub open spec fn served(
    cache: Map<ConnectionKey, u64>,
    key: ConnectionKey,
    connected: Option<u64>,
) -> Served {
    if cache.contains_key(key) {
        Served::Handle(cache[key])
    } else {
        match connected {
            None => Served::Connect,
            Some(raw) => if raw == 0 {
                Served::Refused
            } else {
                Served::Handle(raw)
            },
        }
    }
}

/// The cache after such a request: it has grown by one entry where the key was
/// not cached and the native client connected, and is unchanged otherwise.
pub open spec fn cached_after(
    cache: Map<ConnectionKey, u64>,
    key: ConnectionKey,
    connected: Option<u64>,
) -> Map<ConnectionKey, u64> {
    match served(cache, key, connected) {
        Served::Handle(raw) => cache.insert(key, raw),
        _ => cache,
    }
}

/// The cache after a run of requests, each with what the native client would
/// return for it.
pub open spec fn cached_after_all(
    cache: Map<ConnectionKey, u64>,
    requests: Seq<(ConnectionKey, Option<u64>)>,
) -> Map<ConnectionKey, u64>
    decreases requests.len(),
{
    if requests.len() == 0 {
        cache
    } else {
        cached_after(
            cached_after_all(cache, requests.drop_last()),
            requests.last().0,
            requests.last().1,
        )
    }
}

/// Whether no connection is cached under two keys.
pub open spec fn connections_distinct(cache: Map<ConnectionKey, u64>) -> bool {
    forall|a: ConnectionKey, b: ConnectionKey|
        cache.contains_key(a) && cache.contains_key(b) && a != b ==> cache[a] != cache[b]
}

/// Whether a handle is one of the cached connections.
pub open spec fn holds_connection(cache: Map<ConnectionKey, u64>, raw: u64) -> bool {
    exists|key: ConnectionKey| cache.contains_key(key) && cache[key] == raw
}

/// A cached connection stays: no request removes it or puts another in its place.
pub proof fn lemma_cached_stays(
    cache: Map<ConnectionKey, u64>,
    key: ConnectionKey,
    requests: Seq<(ConnectionKey, Option<u64>)>,
)
    requires
        cache.contains_key(key),
    ensures
        cached_after_all(cache, requests).contains_key(key),
        cached_after_all(cache, requests)[key] == cache[key],
    decreases requests.len(),
{
    if requests.len() > 0 {
        lemma_cached_stays(cache, key, requests.drop_last());
    }
}

/// Requests with equal keys share one native connection, and the native client
/// connects at most once for them: once a request for `key` has been answered
/// with a connection, every later request for it, whatever requests came in
/// between and whatever the native client would return, is answered with that
/// same connection and never by asking to connect.
pub proof fn lemma_equal_keys_share_connection(
    cache: Map<ConnectionKey, u64>,
    key: ConnectionKey,
    connected: Option<u64>,
    between: Seq<(ConnectionKey, Option<u64>)>,
    again: Option<u64>,
)
    ensures
        served(cache, key, connected) matches Served::Handle(raw) ==> served(
            cached_after_all(cached_after(cache, key, connected), between),
            key,
            again,
        ) == Served::Handle(raw),
{
    if served(cache, key, connected) is Handle {
        lemma_cached_stays(cached_after(cache, key, connected), key, between);
    }
}

/// A connection that failed is not cached: the cache is as it was, and the next
/// request for the key asks the native client to connect again.
pub proof fn lemma_refused_is_retried(cache: Map<ConnectionKey, u64>, key: ConnectionKey)
    ensures
        served(cache, key, Some(0u64)) is Refused ==> cached_after(cache, key, Some(0u64)) == cache
            && served(cached_after(cache, key, Some(0u64)), key, None) is Connect,
{
}

/// One request keeps the connections of the cache distinct, as long as the
/// native client does not return the handle of a connection that is cached.
pub proof fn lemma_connections_stay_distinct(
    cache: Map<ConnectionKey, u64>,
    key: ConnectionKey,
    connected: Option<u64>,
)
    requires
        connections_distinct(cache),
        connected matches Some(raw) ==> !holds_connection(cache, raw),
    ensures
        connections_distinct(cached_after(cache, key, connected)),
{
    let after = cached_after(cache, key, connected);
    assert forall|a: ConnectionKey, b: ConnectionKey|
        after.contains_key(a) && after.contains_key(b) && a != b implies after[a] != after[b] by {
        if !cache.contains_key(key) {
            if a == key {
                assert(cache.contains_key(b));
            } else if b == key {
                assert(cache.contains_key(a));
            }
        }
    }
}

/// Requests with distinct keys are answered with distinct native connections,
/// as long as the native client does not return the handle of a connection
/// that is cached.
pub proof fn lemma_distinct_keys_distinct_connections(
    cache: Map<ConnectionKey, u64>,
    first: ConnectionKey,
    first_connected: Option<u64>,
    second: ConnectionKey,
    second_connected: Option<u64>,
)
    requires
        connections_distinct(cache),
        first != second,
        first_connected matches Some(raw) ==> !holds_connection(cache, raw),
        second_connected matches Some(raw) ==> !holds_connection(
            cached_after(cache, first, first_connected),
            raw,
        ),
    ensures
        served(cache, first, first_connected) matches Served::Handle(a) ==> (served(
            cached_after(cache, first, first_connected),
            second,
            second_connected,
        ) matches Served::Handle(b) ==> a != b),
{
    let between = cached_after(cache, first, first_connected);
    lemma_connections_stay_distinct(cache, first, first_connected);
    if served(cache, first, first_connected) is Handle {
        assert(between.contains_key(first));
        if served(between, second, second_connected) is Handle {
            if !between.contains_key(second) {
                assert(holds_connection(between, between[first]));
            }
        }
    }
}

/// The connections made so far, one for each distinct set of connection
/// properties. Nothing ever leaves the cache.
#[derive(Debug)]
pub struct HdfsCache {
    entries: Vec<HdfsFs>,
}

impl View for HdfsCache {
    type V = Map<ConnectionKey, u64>;

    /// The handle of the cached connection for each key that has one.
    closed spec fn view(&self) -> Map<ConnectionKey, u64> {
        Map::new(
            |key: ConnectionKey| self.holds(key),
            |key: ConnectionKey| self.entries@[self.place(key)]@.raw,
        )
    }
}

impl HdfsCache {
    #[verifier::type_invariant]
    spec fn keys_distinct(&self) -> bool {
        forall|i: int, j: int|
            0 <= i < j < self.entries@.len() ==> (#[trigger] self.entries@[i])@.key != (
            #[trigger] self.entries@[j])@.key
    }

    spec fn at(&self, key: ConnectionKey, i: int) -> bool {
        0 <= i < self.entries@.len() && self.entries@[i]@.key == key
    }

    spec fn holds(&self, key: ConnectionKey) -> bool {
        exists|i: int| self.at(key, i)
    }

    spec fn place(&self, key: ConnectionKey) -> int {
        choose|i: int| self.at(key, i)
    }

    /// An empty cache.
    pub fn new() -> (cache: HdfsCache)
        ensures
            cache@ == Map::<ConnectionKey, u64>::empty(),
    {
        let cache = HdfsCache { entries: Vec::new() };
        assert(cache@ =~= Map::<ConnectionKey, u64>::empty()) by {
            assert forall|key: ConnectionKey| !cache.holds(key) by {
                if cache.holds(key) {
                    let i = choose|i: int| cache.at(key, i);
                    assert(cache.at(key, i));
                }
            }
        }
        cache
    }

    /// The number of cached connections.
    pub fn len(&self) -> (len: usize)
        ensures
            len == self@.dom().len(),
            self@.dom().finite(),
    {
        proof {
            use_type_invariant(self);
            self.lemma_dom_len(self.entries@.len() as int);
            assert(self.dom_up_to(self.entries@.len() as int) =~= self@.dom());
        }
        self.entries.len()
    }

    spec fn dom_up_to(&self, n: int) -> Set<ConnectionKey> {
        Set::new(|key: ConnectionKey| exists|i: int| 0 <= i < n && self.at(key, i))
    }

    proof fn lemma_dom_len(&self, n: int)
        requires
            self.keys_distinct(),
            0 <= n <= self.entries@.len(),
        ensures
            self.dom_up_to(n).finite(),
            self.dom_up_to(n).len() == n,
        decreases n,
    {
        if n == 0 {
            assert(self.dom_up_to(0) =~= Set::<ConnectionKey>::empty());
        } else {
            self.lemma_dom_len(n - 1);
            let key = self.entries@[n - 1]@.key;
            assert(self.at(key, n - 1));
            assert(!self.dom_up_to(n - 1).contains(key)) by {
                if self.dom_up_to(n - 1).contains(key) {
                    let i = choose|i: int| 0 <= i < n - 1 && self.at(key, i);
                    assert(self.entries@[i]@.key == self.entries@[n - 1]@.key);
                }
            }
            assert(self.dom_up_to(n) =~= self.dom_up_to(n - 1).insert(key));
        }
    }

    /// Looks up the connection that is cached for `key`.
    pub fn get(&self, key: &ConnectionProperties) -> (found: Option<HdfsFs>)
        ensures
            self@.contains_key(key@) ==> (found matches Some(fs) && fs@ == (HdfsFsView {
                key: key@,
                raw: self@[key@],
            })),
            !self@.contains_key(key@) ==> found is None,
    {
        proof {
            use_type_invariant(self);
        }
        let mut i: usize = 0;
        while i < self.entries.len()
            invariant
                i <= self.entries@.len(),
                self.keys_distinct(),
                forall|j: int| 0 <= j < i ==> !self.at(key@, j),
            decreases self.entries@.len() - i,
        {
            if *self.entries[i].connection_properties() == *key {
                proof {
                    assert(self.at(key@, i as int));
                    let j = self.place(key@);
                    assert(self.at(key@, j));
                    assert(j == i);
                }
                return Some(self.entries[i].clone());
            }
            i += 1;
        }
        proof {
            if self.holds(key@) {
                let j = choose|j: int| self.at(key@, j);
                assert(self.at(key@, j));
            }
        }
        None
    }

    /// Caches a connection unless one is cached for its key already, and hands
    /// out the connection that the cache then holds for that key.
    pub fn get_or_insert(&mut self, fs: HdfsFs) -> (kept: HdfsFs)
        ensures
            final(self)@ == old(self)@.insert(
                fs@.key,
                if old(self)@.contains_key(fs@.key) {
                    old(self)@[fs@.key]
                } else {
                    fs@.raw
                },
            ),
            kept@ == (HdfsFsView { key: fs@.key, raw: final(self)@[fs@.key] }),
    {
        match self.get(fs.connection_properties()) {
            Some(existing) => {
                assert(self@ =~= self@.insert(fs@.key, self@[fs@.key]));
                existing
            },
            None => {
                proof {
                    use_type_invariant(&*self);
                }
                let copy = fs.clone();
                let ghost before = *self;
                let ghost key = fs@.key;
                assert(!before.holds(key));
                assert forall|i: int| 0 <= i < before.entries@.len() implies before.entries@[i]@.key
                    != key by {
                    if before.entries@[i]@.key == key {
                        assert(before.at(key, i));
                    }
                }
                let mut entries: Vec<HdfsFs> = Vec::new();
                std::mem::swap(&mut entries, &mut self.entries);
                entries.push(fs);
                self.entries = entries;
                proof {
                    let after = *self;
                    let n = before.entries@.len() as int;
                    assert(after.at(key, n));
                    assert forall|k: ConnectionKey| after.holds(k) <==> (before.holds(k) || k
                        == key) by {
                        if after.holds(k) {
                            let i = choose|i: int| after.at(k, i);
                            assert(after.at(k, i));
                            if i < n {
                                assert(before.at(k, i));
                            }
                        }
                        if before.holds(k) {
                            let i = choose|i: int| before.at(k, i);
                            assert(before.at(k, i));
                            assert(after.at(k, i));
                        }
                    }
                    assert forall|k: ConnectionKey| after.holds(k) implies after@[k] == (if k
                        == key {
                        fs@.raw
                    } else {
                        before@[k]
                    }) by {
                        let i = after.place(k);
                        assert(after.at(k, i));
                        if k == key {
                            assert(i == n);
                        } else {
                            let j = before.place(k);
                            assert(before.at(k, j));
                            assert(after.at(k, j));
                            assert(i == j);
                        }
                    }
                    assert(after@ =~= before@.insert(key, fs@.raw));
                }
                copy
            },
        }
    }
}

} // verus!
