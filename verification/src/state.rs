//! The shared resolver state: the two TTL stores, and the cache-aside
//! resolutions built on them.
//!
//! The resolvers here are the decision half of a split: the unverified rim
//! performs the upstream HTTP calls and hands their outcomes in as plain
//! `Result` values; these functions decide what to cache and what to
//! return. Each one's behaviour is a pure transition function (`spec_…`)
//! of the old cache contents, the clock reading and the upstream outcomes,
//! and the laws at the bottom of this file are proved about those
//! transitions.

use crate::cache::{spec_lookup, spec_slot_lookup, TtlCache, TtlSlot};
use crate::repo::{repo_result_models, LanguageBytes, RepoInfo, RepoMeta};
use crate::song::{NowPlayingTrack, RecordedTrack, Song};
use vstd::prelude::*;

verus! {

/// What one repository resolution does to the repository store and returns,
/// given the outcomes of the two upstream calls.
///
/// A fresh cached value answers immediately and the upstream outcomes are
/// irrelevant. On a miss, both calls must have succeeded for anything to be
/// cached: the combined value is stored and returned; on any failure the
/// store is left exactly as it was and the failure is returned.
pub open spec fn spec_resolve_repo<E>(
    repos: Map<Seq<char>, (RepoInfo, u64)>,
    ttl: u64,
    name: Seq<char>,
    now: u64,
    meta: Result<RepoMeta, E>,
    langs: Result<Vec<LanguageBytes>, E>,
) -> (Map<Seq<char>, (RepoInfo, u64)>, Result<RepoInfo, E>) {
    match spec_lookup(repos, ttl, name, now) {
        Some(info) => (repos, Ok(info)),
        None => match (meta, langs) {
            (Ok(m), Ok(l)) => {
                let info = RepoInfo { meta: m, languages: l };
                (repos.insert(name, (info, now)), Ok(info))
            },
            (Err(e), _) => (repos, Err(e)),
            (Ok(_), Err(e)) => (repos, Err(e)),
        },
    }
}

/// What one now-playing resolution does to the slot and returns, given the
/// outcome of the "now playing" query and (if it was consulted) the first
/// element of the recent-plays stream.
///
/// A fresh cached answer — any of the three states — is returned as is.
/// Otherwise the answer is a strict three-way choice: a playing track wins,
/// else the most recent past play, else the absent state; each is cached the
/// moment it is resolved. A failed query fails the resolution and caches
/// nothing. The `recent` outcome is irrelevant whenever `np` yields a track,
/// so a caller that short-circuits the second query loses nothing.
pub open spec fn spec_resolve_song<E>(
    slot: Option<(Option<Song>, u64)>,
    ttl: u64,
    now: u64,
    np: Result<Option<NowPlayingTrack>, E>,
    recent: Result<Option<RecordedTrack>, E>,
) -> (Option<(Option<Song>, u64)>, Result<Option<Song>, E>) {
    match spec_slot_lookup(slot, ttl, now) {
        Some(cached) => (slot, Ok(cached)),
        None => match np {
            Err(e) => (slot, Err(e)),
            Ok(Some(t)) => (Some((Some(Song::Now(t)), now)), Ok(Some(Song::Now(t)))),
            Ok(None) => match recent {
                Err(e) => (slot, Err(e)),
                Ok(Some(t)) => (
                    Some((Some(Song::Previous(t)), now)),
                    Ok(Some(Song::Previous(t))),
                ),
                Ok(None) => (Some((None, now)), Ok(None)),
            },
        },
    }
}

/// State shared across all request handlers: the repository store and the
/// now-playing slot. The upstream API clients themselves live with the
/// unverified rim; everything here is plain data.
pub struct SharedState {
    pub repo_cache: TtlCache<RepoInfo>,
    pub song_cache: TtlSlot<Option<Song>>,
}

impl SharedState {
    /// Fresh, empty state. The two windows are injected at construction and
    /// immutable afterwards: in production three minutes for repositories
    /// and two seconds for the now-playing slot.
    pub fn new(repo_ttl: u64, song_ttl: u64) -> (r: Self)
        ensures
            r.repo_cache@ == Map::<Seq<char>, (RepoInfo, u64)>::empty(),
            r.repo_cache.ttl() == repo_ttl,
            r.song_cache@ is None,
            r.song_cache.ttl() == song_ttl,
    {
        SharedState { repo_cache: TtlCache::new(repo_ttl), song_cache: TtlSlot::new(song_ttl) }
    }

    /// The cached repository answer, if a fresh one exists; used by the rim
    /// to decide whether the two upstream calls need to be issued at all.
    pub fn cached_repo<'a>(&'a self, name: &str, now: u64) -> (r: Option<&'a RepoInfo>)
        ensures
            match r {
                Some(v) => spec_lookup(self.repo_cache@, self.repo_cache.ttl(), name@, now)
                    == Some(*v),
                None => spec_lookup(self.repo_cache@, self.repo_cache.ttl(), name@, now) is None,
            },
    {
        self.repo_cache.get(name, now)
    }

    /// The cached now-playing answer, if a fresh one exists; used by the rim
    /// to decide whether the scrobbling API needs to be queried at all.
    pub fn cached_song<'a>(&'a self, now: u64) -> (r: Option<&'a Option<Song>>)
        ensures
            match r {
                Some(v) => spec_slot_lookup(self.song_cache@, self.song_cache.ttl(), now) == Some(
                    *v,
                ),
                None => spec_slot_lookup(self.song_cache@, self.song_cache.ttl(), now) is None,
            },
    {
        self.song_cache.get(now)
    }

    /// Resolves one repository through the cache, the upstream outcomes
    /// standing in for the two calls issued on a miss. Behaves exactly as
    /// [`spec_resolve_repo`] says; the now-playing slot is untouched.
    pub fn get_repo<E>(
        &mut self,
        name: &str,
        now: u64,
        meta: Result<RepoMeta, E>,
        langs: Result<Vec<LanguageBytes>, E>,
    ) -> (r: Result<RepoInfo, E>)
        ensures
            final(self).repo_cache@ == spec_resolve_repo(
                old(self).repo_cache@,
                old(self).repo_cache.ttl(),
                name@,
                now,
                meta,
                langs,
            ).0,
            repo_result_models(
                r,
                spec_resolve_repo(
                    old(self).repo_cache@,
                    old(self).repo_cache.ttl(),
                    name@,
                    now,
                    meta,
                    langs,
                ).1,
            ),
            final(self).repo_cache.ttl() == old(self).repo_cache.ttl(),
            final(self).song_cache == old(self).song_cache,
    {
        match self.repo_cache.get(name, now) {
            Some(info) => Ok(info.clone()),
            None => match (meta, langs) {
                (Ok(m), Ok(l)) => {
                    let info = RepoInfo { meta: m, languages: l };
                    let out = info.clone();
                    self.repo_cache.put(name, info, now);
                    Ok(out)
                },
                (Err(e), _) => Err(e),
                (Ok(_), Err(e)) => Err(e),
            },
        }
    }

    /// Resolves the now-playing answer through the slot, the upstream
    /// outcomes standing in for the two queries issued on a miss. Behaves
    /// exactly as [`spec_resolve_song`] says; the repository store is
    /// untouched.
    pub fn get_song<E>(
        &mut self,
        now: u64,
        np: Result<Option<NowPlayingTrack>, E>,
        recent: Result<Option<RecordedTrack>, E>,
    ) -> (r: Result<Option<Song>, E>)
        ensures
            final(self).song_cache@ == spec_resolve_song(
                old(self).song_cache@,
                old(self).song_cache.ttl(),
                now,
                np,
                recent,
            ).0,
            r == spec_resolve_song(
                old(self).song_cache@,
                old(self).song_cache.ttl(),
                now,
                np,
                recent,
            ).1,
            final(self).song_cache.ttl() == old(self).song_cache.ttl(),
            final(self).repo_cache == old(self).repo_cache,
    {
        match self.song_cache.get(now) {
            Some(cached) => {
                let out = cached.clone();
                Ok(out)
            },
            None => match np {
                Err(e) => Err(e),
                Ok(Some(t)) => {
                    let answer = Some(Song::Now(t));
                    let out = answer.clone();
                    self.song_cache.put(answer, now);
                    Ok(out)
                },
                Ok(None) => match recent {
                    Err(e) => Err(e),
                    Ok(Some(t)) => {
                        let answer = Some(Song::Previous(t));
                        let out = answer.clone();
                        self.song_cache.put(answer, now);
                        Ok(out)
                    },
                    Ok(None) => {
                        self.song_cache.put(None, now);
                        Ok(None)
                    },
                },
            },
        }
    }
}

/// Repository resolution is all-or-nothing: on a miss, if the language
/// breakdown fails after the metadata call succeeded, the failure is
/// returned, nothing is cached, and every later read finds the store exactly
/// as if the attempt had never happened — so a subsequent resolution misses
/// again and issues both calls anew.
pub proof fn lemma_repo_all_or_nothing<E>(
    repos: Map<Seq<char>, (RepoInfo, u64)>,
    ttl: u64,
    name: Seq<char>,
    now: u64,
    meta: RepoMeta,
    e: E,
    now2: u64,
)
    requires
        spec_lookup(repos, ttl, name, now) is None,
    ensures
        spec_resolve_repo::<E>(repos, ttl, name, now, Ok(meta), Err(e)).0 == repos,
        spec_resolve_repo::<E>(repos, ttl, name, now, Ok(meta), Err(e)).1 == Err::<RepoInfo, E>(e),
        spec_lookup(
            spec_resolve_repo::<E>(repos, ttl, name, now, Ok(meta), Err(e)).0,
            ttl,
            name,
            now2,
        ) == spec_lookup(repos, ttl, name, now2),
{
}

/// The cache-aside round trip: a miss resolved by two successful upstream
/// calls stores their combined value, and any second resolution within the
/// freshness window is answered from the store alone — the second call's
/// upstream outcomes, whatever they are, do not matter, and the answer is
/// the value the first call returned.
pub proof fn lemma_repo_round_trip<E>(
    repos: Map<Seq<char>, (RepoInfo, u64)>,
    ttl: u64,
    name: Seq<char>,
    now: u64,
    meta: RepoMeta,
    langs: Vec<LanguageBytes>,
    now2: u64,
    meta2: Result<RepoMeta, E>,
    langs2: Result<Vec<LanguageBytes>, E>,
)
    requires
        spec_lookup(repos, ttl, name, now) is None,
        now <= now2,
        (now2 as int) < now + ttl,
    ensures
        ({
            let repos2 = spec_resolve_repo::<E>(repos, ttl, name, now, Ok(meta), Ok(langs)).0;
            let first = spec_resolve_repo::<E>(repos, ttl, name, now, Ok(meta), Ok(langs)).1;
            let repos3 = spec_resolve_repo::<E>(repos2, ttl, name, now2, meta2, langs2).0;
            let second = spec_resolve_repo::<E>(repos2, ttl, name, now2, meta2, langs2).1;
            &&& first == Ok::<RepoInfo, E>(RepoInfo { meta, languages: langs })
            &&& spec_lookup(repos2, ttl, name, now2) == Some(RepoInfo { meta, languages: langs })
            &&& repos3 == repos2
            &&& second == first
        }),
{
}

/// Now-playing resolution is a strict three-way state machine. On a miss:
/// a playing track resolves to `Song::Now`; no playing track but history
/// resolves to `Song::Previous`; no history at all resolves to the absent
/// answer. Each resolved state is cached at the moment of resolution and —
/// by [`crate::cache::lemma_slot_window`] — returned unchanged by every
/// resolution within the freshness window, whatever later queries would
/// say; a failed query resolves nothing and caches nothing.
pub proof fn lemma_song_state_machine<E>(
    slot: Option<(Option<Song>, u64)>,
    ttl: u64,
    now: u64,
    np: Result<Option<NowPlayingTrack>, E>,
    recent: Result<Option<RecordedTrack>, E>,
)
    requires
        spec_slot_lookup(slot, ttl, now) is None,
    ensures
        ({
            let slot2 = spec_resolve_song(slot, ttl, now, np, recent).0;
            let r = spec_resolve_song(slot, ttl, now, np, recent).1;
            &&& np matches Ok(Some(t)) ==> r == Ok::<Option<Song>, E>(Some(Song::Now(t)))
                && slot2 == Some((Some(Song::Now(t)), now))
            &&& np matches Ok(None) ==> recent matches Ok(Some(t)) ==> r == Ok::<Option<Song>, E>(
                Some(Song::Previous(t)),
            ) && slot2 == Some((Some(Song::Previous(t)), now))
            &&& np matches Ok(None) ==> recent matches Ok(None) ==> r == Ok::<Option<Song>, E>(
                None,
            ) && slot2 == Some((None::<Song>, now))
            &&& np matches Err(e) ==> r == Err::<Option<Song>, E>(e) && slot2 == slot
            &&& np matches Ok(None) ==> recent matches Err(e) ==> r == Err::<Option<Song>, E>(e)
                && slot2 == slot
        }),
{
}

/// Once resolved, a now-playing answer is returned unchanged until the slot
/// expires: any second resolution within the window returns the first
/// answer and leaves the slot alone, whatever its upstream outcomes are.
pub proof fn lemma_song_cached_until_expiry<E>(
    slot: Option<(Option<Song>, u64)>,
    ttl: u64,
    now: u64,
    np: Result<Option<NowPlayingTrack>, E>,
    recent: Result<Option<RecordedTrack>, E>,
    now2: u64,
    np2: Result<Option<NowPlayingTrack>, E>,
    recent2: Result<Option<RecordedTrack>, E>,
)
    requires
        spec_slot_lookup(slot, ttl, now) is None,
        now <= now2,
        (now2 as int) < now + ttl,
        spec_resolve_song(slot, ttl, now, np, recent).1 is Ok,
    ensures
        ({
            let slot2 = spec_resolve_song(slot, ttl, now, np, recent).0;
            let first = spec_resolve_song(slot, ttl, now, np, recent).1;
            let slot3 = spec_resolve_song(slot2, ttl, now2, np2, recent2).0;
            let second = spec_resolve_song(slot2, ttl, now2, np2, recent2).1;
            &&& slot3 == slot2
            &&& second == first
        }),
{
}

} // verus!
