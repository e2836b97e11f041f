//! What is decided when data is asked for: whether the cache answers, what
//! to make of three answers of which some may have failed, and what to keep.
//!
//! Fetching itself is not done here. Whoever fetches asks [`get_data`]
//! first, hands the three outcomes to [`fetch_data`], and what came of that
//! to [`keep_data`].

use crate::api::languages::MostUsedLanguage;
use crate::api::stats::User;
use crate::api::structures::GithubGraphQLError;
use crate::cache::{fresh, lowercase, CacheView, CachedUserData, GithubCache};
use std::collections::HashMap;
use vstd::prelude::*;

verus! {

pub struct FetchedData {
    pub commits: HashMap<i32, u32>,
    pub stats: Result<User, Vec<GithubGraphQLError>>,
    pub languages: Vec<MostUsedLanguage>,
}

pub struct UserData {
    pub data: FetchedData,
    pub is_cached: bool,
}

/// What to do about a request for data.
pub enum Plan<'a> {
    /// Answer with what the cache holds, and fetch anew behind the answer,
    /// for the requests to come.
    ServeAndRefresh(&'a CachedUserData),
    /// Fetch, keep what was fetched, and answer with it.
    Fetch,
}

/// The commits of an answer: none where fetching them failed.
pub open spec fn commits_or_none(commits: Result<HashMap<i32, u32>, String>) -> Map<i32, u32> {
    match commits {
        Ok(commits) => commits@,
        Err(_) => Map::empty(),
    }
}

/// The languages of an answer: none where fetching them failed.
pub open spec fn languages_or_none(
    languages: Result<Vec<MostUsedLanguage>, Vec<GithubGraphQLError>>,
) -> Seq<MostUsedLanguage> {
    match languages {
        Ok(languages) => languages@,
        Err(_) => Seq::empty(),
    }
}

/// What is kept of fetched data.
pub open spec fn kept(data: FetchedData) -> CachedUserData {
    CachedUserData { commits: data.commits, languages: data.languages, stats: data.stats }
}

/// Decides what to do about a request at the time `now`: the cache answers
/// where it holds data for the user and the year whose time is not up.
pub fn get_data<'a>(user_name: &str, year: i32, cache: &'a GithubCache, now: u64) -> (plan: Plan<
    'a,
>)
    ensures
        plan matches Plan::ServeAndRefresh(cached) ==> fresh(
            cache@.entries,
            (lowercase(user_name@), year),
            now,
        ) == Some(*cached),
        plan is Fetch ==> fresh(cache@.entries, (lowercase(user_name@), year), now) is None,
{
    match cache.get(user_name, year, now) {
        Some(cached) => Plan::ServeAndRefresh(cached),
        None => Plan::Fetch,
    }
}

/// Puts the outcomes of the three fetches together. Commits that could not
/// be fetched count as none, and so do languages; the outcome for the
/// counters is handed on as it is, failed or not.
pub fn fetch_data(
    commits: Result<HashMap<i32, u32>, String>,
    stats: Result<User, Vec<GithubGraphQLError>>,
    most_used_languages: Result<Vec<MostUsedLanguage>, Vec<GithubGraphQLError>>,
) -> (data: FetchedData)
    ensures
        data.commits@ == commits_or_none(commits),
        commits matches Ok(fetched) ==> data.commits == fetched,
        data.stats == stats,
        data.languages@ == languages_or_none(most_used_languages),
        most_used_languages matches Ok(fetched) ==> data.languages == fetched,
{
    let commits = match commits {
        Ok(commits) => commits,
        Err(_) => HashMap::new(),
    };
    let most_used_languages = match most_used_languages {
        Ok(languages) => languages,
        Err(_) => Vec::new(),
    };
    FetchedData { commits, stats, languages: most_used_languages }
}

/// Keeps what a fetch has brought, from the time `now` on; where the fetch
/// as a whole failed there is nothing to keep, and the cache stays as it is.
pub fn keep_data(
    cache: &mut GithubCache,
    user_name: &str,
    year: i32,
    fetched: Option<FetchedData>,
    now: u64,
)
    requires
        now + old(cache)@.ttl <= u64::MAX,
    ensures
        fetched matches Some(data) ==> final(cache)@ == (CacheView {
            entries: old(cache)@.entries.insert(
                (lowercase(user_name@), year),
                (kept(data), (now + old(cache)@.ttl) as u64),
            ),
            ttl: old(cache)@.ttl,
        }),
        fetched is None ==> final(cache)@ == old(cache)@,
{
    match fetched {
        Some(data) => {
            let FetchedData { commits, stats, languages } = data;
            cache.set(user_name, year, CachedUserData { commits, languages, stats }, now);
        },
        None => {},
    }
}

/// A fetch in the background changes no answer that has been given: what
/// the cache held for a request is what the request got, whatever is kept
/// afterwards; and what is kept is found by the requests that follow until
/// its time is up.
pub proof fn lemma_refresh_serves_the_requests_to_come(
    before: crate::cache::Entries,
    key: (Seq<char>, i32),
    served: CachedUserData,
    asked: u64,
    refreshed: FetchedData,
    kept_at: u64,
    ttl: u64,
    later: u64,
)
    requires
        fresh(before, key, asked) == Some(served),
        kept_at + ttl <= u64::MAX,
    ensures
        ({
            let after = before.insert(key, (kept(refreshed), (kept_at + ttl) as u64));
            &&& fresh(before, key, asked) == Some(served)
            &&& later < kept_at + ttl ==> fresh(after, key, later) == Some(kept(refreshed))
            &&& later >= kept_at + ttl ==> fresh(after, key, later) is None
        }),
{
}

} // verus!
