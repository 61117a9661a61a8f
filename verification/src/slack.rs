//! Name resolution for the chat workspace's directory API: the reply
//! shapes, and a process-lifetime memoizing cache from external user id
//! to display name.
//!
//! The network call on a cache miss is the collaborator's business: it
//! hands the decoded reply (or the fact that transport or decoding
//! failed) to [`NameCache::resolve_response`], which alone decides what
//! is cached and what the lookup yields.

use vstd::prelude::*;

verus! {

/// A directory reply, discriminated by its `ok` flag: a payload on
/// success, an application-level error message otherwise.
#[derive(Clone, Debug)]
pub enum ApiResponse<T> {
    /// A payload was present beside the `ok` flag. The flag still
    /// decides: a reply is a success only where `ok` is true.
    Success { ok: bool, user: T },
    /// An error message was present beside the `ok` flag; `error`
    /// names the application-level failure.
    Failure { ok: bool, error: String },
}

/// A user record of the directory API.
#[derive(Clone, Debug)]
pub struct SlackUser {
    pub id: String,
    pub profile: SlackProfile,
}

/// The profile part of a user record.
#[derive(Clone, Debug)]
pub struct SlackProfile {
    pub display_name: String,
    pub real_name: String,
}

/// One memoized resolution.
#[derive(Clone, Debug)]
struct CacheEntry {
    id: String,
    name: String,
}

/// The resolutions a sequence of entries amounts to, later entries
/// taking precedence; with pairwise-distinct ids the order is moot.
spec fn entries_map(s: Seq<CacheEntry>) -> Map<Seq<char>, Seq<char>>
    decreases s.len(),
{
    if s.len() == 0 {
        Map::empty()
    } else {
        entries_map(s.drop_last()).insert(s.last().id@, s.last().name@)
    }
}

/// Memoizing map from external user id to resolved display name.
/// Entries are only ever added — never evicted, never refreshed —
/// and only on a successful resolution.
#[derive(Debug)]
pub struct NameCache {
    entries: Vec<CacheEntry>,
}

impl View for NameCache {
    type V = Map<Seq<char>, Seq<char>>;

    closed spec fn view(&self) -> Map<Seq<char>, Seq<char>> {
        entries_map(self.entries@)
    }
}

/// Each id occurs at most once among the entries.
spec fn unique_ids(s: Seq<CacheEntry>) -> bool {
    forall|i: int, j: int| 0 <= i < j < s.len() ==> s[i].id@ != s[j].id@
}

proof fn lemma_unique_drop_last(s: Seq<CacheEntry>)
    requires
        s.len() > 0,
        unique_ids(s),
    ensures
        unique_ids(s.drop_last()),
{
    assert forall|i: int, j: int|
        0 <= i < j < s.drop_last().len() implies s.drop_last()[i].id@ != s.drop_last()[j].id@ by {
        assert(s.drop_last()[i] == s[i]);
        assert(s.drop_last()[j] == s[j]);
    }
}

/// With pairwise-distinct ids, the entry at `i` is what the map holds
/// for its id.
proof fn lemma_map_of_entry(s: Seq<CacheEntry>, i: int)
    requires
        0 <= i < s.len(),
        unique_ids(s),
    ensures
        entries_map(s).contains_key(s[i].id@),
        entries_map(s)[s[i].id@] == s[i].name@,
    decreases s.len(),
{
    if i < s.len() - 1 {
        lemma_unique_drop_last(s);
        lemma_map_of_entry(s.drop_last(), i);
        assert(s.drop_last()[i] == s[i]);
        assert(s[i].id@ != s.last().id@);
    }
}

/// An id no entry carries is absent from the map.
proof fn lemma_map_of_absent(s: Seq<CacheEntry>, k: Seq<char>)
    requires
        forall|i: int| 0 <= i < s.len() ==> s[i].id@ != k,
    ensures
        !entries_map(s).contains_key(k),
    decreases s.len(),
{
    if s.len() > 0 {
        assert forall|i: int| 0 <= i < s.drop_last().len() implies s.drop_last()[i].id@ != k by {
            assert(s.drop_last()[i] == s[i]);
        }
        lemma_map_of_absent(s.drop_last(), k);
    }
}

impl NameCache {
    /// Pairwise-distinct ids: the type's validity condition, which
    /// every constructor establishes and every method keeps.
    pub closed spec fn wf(&self) -> bool {
        unique_ids(self.entries@)
    }

    /// An empty cache: nothing has been resolved yet.
    pub fn new() -> (c: NameCache)
        ensures
            c.wf(),
            c@ == Map::<Seq<char>, Seq<char>>::empty(),
    {
        NameCache { entries: Vec::new() }
    }

    /// The memoized name for an id: `Some` exactly when a resolution of
    /// the id succeeded before, and then the very name it yielded. A
    /// hit touches nothing and needs no network; a miss is the caller's
    /// cue to fetch the directory endpoint.
    pub fn lookup(&self, id: &String) -> (r: Option<String>)
        requires
            self.wf(),
        ensures
            match r {
                Some(name) => self@.contains_key(id@) && name@ == self@[id@],
                None => !self@.contains_key(id@),
            },
    {
        let n = self.entries.len();
        let mut i: usize = 0;
        while i < n
            invariant
                n == self.entries@.len(),
                i <= n,
                self.wf(),
                forall|j: int| 0 <= j < i as int ==> self.entries@[j].id@ != id@,
            decreases n - i,
        {
            if self.entries[i].id == *id {
                proof {
                    lemma_map_of_entry(self.entries@, i as int);
                }
                return Some(self.entries[i].name.clone());
            }
            i += 1;
        }
        proof {
            lemma_map_of_absent(self.entries@, id@);
        }
        None
    }

    /// Takes up the outcome of a directory fetch for an id the cache
    /// missed. `response` is `None` when transport or decoding failed.
    /// Only a reply whose `ok` flag is true and which carries a user
    /// yields a name — the profile's display name — and only then is
    /// the cache extended, by exactly that resolution. Every failure —
    /// no reply, an error reply, or a payload under `ok` false —
    /// yields `None` and leaves the cache as it was, so a later call
    /// for the id will fetch anew.
    pub fn resolve_response(
        &mut self,
        id: &String,
        response: Option<ApiResponse<SlackUser>>,
    ) -> (r: Option<String>)
        requires
            old(self).wf(),
            !old(self)@.contains_key(id@),
        ensures
            final(self).wf(),
            match response {
                Some(ApiResponse::Success { ok, user }) => if ok {
                    (match r {
                        Some(name) => name@ == user.profile.display_name@,
                        None => false,
                    }) && final(self)@ == old(self)@.insert(id@, user.profile.display_name@)
                } else {
                    r is None && final(self)@ == old(self)@
                },
                Some(ApiResponse::Failure { .. }) => r is None && final(self)@ == old(self)@,
                None => r is None && final(self)@ == old(self)@,
            },
    {
        match response {
            Some(ApiResponse::Success { ok, user }) => {
                if !ok {
                    return None;
                }
                let display_name = user.profile.display_name;
                let ghost pre = self.entries@;
                proof {
                    assert forall|j: int| 0 <= j < pre.len() implies pre[j].id@ != id@ by {
                        if pre[j].id@ == id@ {
                            lemma_map_of_entry(pre, j);
                        }
                    }
                }
                self.entries.push(CacheEntry { id: id.clone(), name: display_name.clone() });
                proof {
                    assert(self.entries@.drop_last() =~= pre);
                }
                Some(display_name)
            },
            Some(ApiResponse::Failure { .. }) => None,
            None => None,
        }
    }
}

/// Law of memoization: once a resolution of `id` has succeeded with
/// `name`, the cache — however it stood before — answers `id` with
/// exactly `name`. Together with the hit clause of [`NameCache::lookup`]
/// this is why a second resolve of the same id issues no network call.
pub proof fn lemma_resolved_name_is_cached(
    cache: Map<Seq<char>, Seq<char>>,
    id: Seq<char>,
    name: Seq<char>,
)
    ensures
        cache.insert(id, name).contains_key(id),
        cache.insert(id, name)[id] == name,
{
}

} // verus!
