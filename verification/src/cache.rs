//! What was fetched for a user and a year, kept for a while.
//!
//! The cache reads no clock: whoever asks says what time it is, in ticks of
//! a clock that does not run backwards. An entry is kept under the user's
//! name in lower case and the year, and counts until its time is up; it is
//! not removed then, only passed over, and a later entry for the same user
//! and year takes its place.

use crate::api::languages::MostUsedLanguage;
use crate::api::stats::User;
use crate::api::structures::GithubGraphQLError;
use std::collections::HashMap;
use vstd::prelude::*;

verus! {

pub struct CachedUserData {
    pub commits: HashMap<i32, u32>,
    pub languages: Vec<MostUsedLanguage>,
    pub stats: Result<User, Vec<GithubGraphQLError>>,
}

pub struct CacheEntry {
    pub user_name: String,
    pub year: i32,
    pub data: CachedUserData,
    pub expires_at: u64,
}

pub struct GithubCache {
    entries: Vec<CacheEntry>,
    ttl: u64,
}

/// The text in lower case, as Unicode has it.
pub uninterp spec fn lowercase(text: Seq<char>) -> Seq<char>;

/// `str::to_lowercase` of std returns the text in lower case, a function of
/// the text alone.
#[verifier::external_body]
fn to_lowercase(text: &str) -> (lower: String)
    ensures
        lower@ == lowercase(text@),
{
    text.to_lowercase()
}

/// What a cache holds: for a name and a year, the data and the time at
/// which it is up.
pub type Entries = Map<(Seq<char>, i32), (CachedUserData, u64)>;

/// What the entries hold at a time for a name and a year: the data kept
/// under them, as long as its time is not up.
pub open spec fn fresh(entries: Entries, key: (Seq<char>, i32), now: u64) -> Option<
    CachedUserData,
> {
    if entries.contains_key(key) && now < entries[key].1 {
        Some(entries[key].0)
    } else {
        None
    }
}

/// The name and year of an entry.
pub open spec fn key_of(entry: CacheEntry) -> (Seq<char>, i32) {
    (entry.user_name@, entry.year)
}

/// No two entries have the same name and year.
pub open spec fn distinct_keys(entries: Seq<CacheEntry>) -> bool {
    forall|i: int, j: int|
        0 <= i < j < entries.len() ==> key_of(#[trigger] entries[i]) != key_of(
            #[trigger] entries[j],
        )
}

/// What a list of entries holds.
pub open spec fn held(entries: Seq<CacheEntry>) -> Entries
    decreases entries.len(),
{
    if entries.len() == 0 {
        Map::empty()
    } else {
        held(entries.drop_last()).insert(
            key_of(entries.last()),
            (entries.last().data, entries.last().expires_at),
        )
    }
}

/// An entry of a list with distinct keys is what the list holds for its
/// key, and the list holds nothing for a key that no entry has.
proof fn lemma_held_is_what_the_entries_say(entries: Seq<CacheEntry>, key: (Seq<char>, i32))
    requires
        distinct_keys(entries),
    ensures
        forall|i: int|
            0 <= i < entries.len() && key_of(#[trigger] entries[i]) == key ==> held(
                entries,
            ).contains_key(key) && held(entries)[key] == (entries[i].data, entries[i].expires_at),
        (forall|i: int| 0 <= i < entries.len() ==> key_of(#[trigger] entries[i]) != key) ==> !held(
            entries,
        ).contains_key(key),
    decreases entries.len(),
{
    if entries.len() > 0 {
        let rest = entries.drop_last();
        assert(distinct_keys(rest)) by {
            assert forall|i: int, j: int| 0 <= i < j < rest.len() implies key_of(
                #[trigger] rest[i],
            ) != key_of(#[trigger] rest[j]) by {
                assert(key_of(entries[i]) != key_of(entries[j]));
            }
        }
        lemma_held_is_what_the_entries_say(rest, key);
        assert forall|i: int| 0 <= i < entries.len() && key_of(#[trigger] entries[i])
            == key implies held(entries).contains_key(key) && held(entries)[key] == (
            entries[i].data,
            entries[i].expires_at,
        ) by {
            if i < entries.len() - 1 {
                assert(rest[i] == entries[i]);
                assert(key_of(entries[i]) != key_of(entries[entries.len() - 1]));
            }
        }
        if forall|i: int| 0 <= i < entries.len() ==> key_of(#[trigger] entries[i]) != key {
            assert forall|i: int| 0 <= i < rest.len() implies key_of(#[trigger] rest[i])
                != key by {
                assert(key_of(entries[i]) != key);
            }
            assert(key_of(entries[entries.len() - 1]) != key);
        }
    }
}

/// An entry in the place of another with the same key leaves the keys
/// distinct, and the list then holds the new entry for the key and
/// everything else as before.
proof fn lemma_held_after_an_entry_is_replaced(entries: Seq<CacheEntry>, at: int, entry: CacheEntry)
    requires
        distinct_keys(entries),
        0 <= at < entries.len(),
        key_of(entries[at]) == key_of(entry),
    ensures
        distinct_keys(entries.update(at, entry)),
        held(entries.update(at, entry)) == held(entries).insert(
            key_of(entry),
            (entry.data, entry.expires_at),
        ),
    decreases entries.len(),
{
    let after = entries.update(at, entry);
    assert forall|i: int, j: int| 0 <= i < j < after.len() implies key_of(#[trigger] after[i])
        != key_of(#[trigger] after[j]) by {
        assert(key_of(entries[i]) != key_of(entries[j]));
    }
    let rest = entries.drop_last();
    if at == entries.len() - 1 {
        assert(after.drop_last() =~= rest);
        assert(held(after) =~= held(entries).insert(key_of(entry), (entry.data, entry.expires_at)));
    } else {
        assert(distinct_keys(rest)) by {
            assert forall|i: int, j: int| 0 <= i < j < rest.len() implies key_of(
                #[trigger] rest[i],
            ) != key_of(#[trigger] rest[j]) by {
                assert(key_of(entries[i]) != key_of(entries[j]));
            }
        }
        lemma_held_after_an_entry_is_replaced(rest, at, entry);
        assert(after.drop_last() =~= rest.update(at, entry));
        assert(after.last() == entries.last());
        assert(key_of(entries[at]) != key_of(entries[entries.len() - 1]));
        assert(held(after) =~= held(entries).insert(key_of(entry), (entry.data, entry.expires_at)));
    }
}

/// A list with distinct keys holds something for as many keys as it has
/// entries.
proof fn lemma_held_counts_the_entries(entries: Seq<CacheEntry>)
    requires
        distinct_keys(entries),
    ensures
        held(entries).dom().finite(),
        held(entries).dom().len() == entries.len(),
    decreases entries.len(),
{
    if entries.len() > 0 {
        let rest = entries.drop_last();
        assert(distinct_keys(rest)) by {
            assert forall|i: int, j: int| 0 <= i < j < rest.len() implies key_of(
                #[trigger] rest[i],
            ) != key_of(#[trigger] rest[j]) by {
                assert(key_of(entries[i]) != key_of(entries[j]));
            }
        }
        lemma_held_counts_the_entries(rest);
        lemma_held_is_what_the_entries_say(rest, key_of(entries.last()));
        assert forall|i: int| 0 <= i < rest.len() implies key_of(#[trigger] rest[i]) != key_of(
            entries.last(),
        ) by {
            assert(key_of(entries[i]) != key_of(entries[entries.len() - 1]));
        }
        assert(held(entries).dom() =~= held(rest).dom().insert(key_of(entries.last())));
    }
}

/// What a cache is: what it holds, and the ticks for which an entry counts.
pub struct CacheView {
    pub entries: Entries,
    pub ttl: u64,
}

impl View for GithubCache {
    type V = CacheView;

    closed spec fn view(&self) -> CacheView {
        CacheView { entries: held(self.entries@), ttl: self.ttl }
    }
}

impl GithubCache {
    /// No two entries are kept under the same name and year.
    #[verifier::type_invariant]
    spec fn wf(self) -> bool {
        distinct_keys(self.entries@)
    }

    /// An empty cache whose entries count for `ttl` ticks.
    pub fn new(ttl: u64) -> (cache: Self)
        ensures
            cache@ == (CacheView { entries: Entries::empty(), ttl }),
    {
        Self { entries: Vec::new(), ttl }
    }

    fn find(&self, user_name: &String, year: i32) -> (found: Option<usize>)
        ensures
            found matches Some(at) ==> at < self.entries.len() && key_of(self.entries@[at as int])
                == (user_name@, year),
            found is None ==> forall|i: int|
                0 <= i < self.entries.len() ==> key_of(#[trigger] self.entries@[i]) != (
                    user_name@,
                    year,
                ),
    {
        let mut i: usize = 0;
        while i < self.entries.len()
            invariant
                i <= self.entries.len(),
                forall|k: int|
                    0 <= k < i ==> key_of(#[trigger] self.entries@[k]) != (user_name@, year),
            decreases self.entries.len() - i,
        {
            if self.entries[i].year == year && self.entries[i].user_name == *user_name {
                return Some(i);
            }
            i += 1;
        }
        None
    }

    /// What the cache holds at the time `now` for a user and a year: see
    /// [`fresh`].
    pub fn get(&self, username: &str, year: i32, now: u64) -> (data: Option<&CachedUserData>)
        ensures
            data is Some == fresh(self@.entries, (lowercase(username@), year), now) is Some,
            data matches Some(found) ==> fresh(
                self@.entries,
                (lowercase(username@), year),
                now,
            ) == Some(*found),
    {
        let key = to_lowercase(username);
        proof {
            use_type_invariant(self);
            lemma_held_is_what_the_entries_say(self.entries@, (key@, year));
        }
        match self.find(&key, year) {
            Some(at) => {
                if now < self.entries[at].expires_at {
                    Some(&self.entries[at].data)
                } else {
                    None
                }
            },
            None => None,
        }
    }

    /// Keeps data for a user and a year from the time `now` on, in the place
    /// of what was kept for them before. The time at which the entry is up
    /// is one that the clock can show.
    pub fn set(&mut self, username: &str, year: i32, data: CachedUserData, now: u64)
        requires
            now + old(self)@.ttl <= u64::MAX,
        ensures
            final(self)@ == (CacheView {
                entries: old(self)@.entries.insert(
                    (lowercase(username@), year),
                    (data, (now + old(self)@.ttl) as u64),
                ),
                ttl: old(self)@.ttl,
            }),
    {
        proof {
            use_type_invariant(&*self);
        }
        let key = to_lowercase(username);
        let found = self.find(&key, year);
        let entry = CacheEntry { user_name: key, year, data, expires_at: now + self.ttl };
        let mut entries: Vec<CacheEntry> = Vec::new();
        std::mem::swap(&mut self.entries, &mut entries);
        match found {
            Some(at) => {
                proof {
                    lemma_held_after_an_entry_is_replaced(entries@, at as int, entry);
                }
                entries.set(at, entry);
            },
            None => {
                proof {
                    assert(entries@.push(entry).drop_last() =~= entries@);
                    assert(distinct_keys(entries@.push(entry)));
                }
                entries.push(entry);
            },
        }
        self.entries = entries;
    }

    /// The ticks for which an entry counts.
    pub fn time_to_live(&self) -> (ttl: u64)
        ensures
            ttl == self@.ttl,
    {
        self.ttl
    }

    /// How many users and years the cache holds data for, up or not.
    pub fn len(&self) -> (len: usize)
        ensures
            self@.entries.dom().finite(),
            len == self@.entries.dom().len(),
    {
        proof {
            use_type_invariant(self);
            lemma_held_counts_the_entries(self.entries@);
        }
        self.entries.len()
    }
}

/// Data that is kept at some time is found from then until its time is up,
/// and no longer; at the very time at which it is kept it is found if
/// entries count for any time at all. Keeping data for one user and year
/// changes nothing for another.
pub proof fn lemma_kept_data_is_found_until_its_time_is_up(
    entries: Entries,
    key: (Seq<char>, i32),
    data: CachedUserData,
    now: u64,
    ttl: u64,
    later: u64,
    other: (Seq<char>, i32),
)
    requires
        now + ttl <= u64::MAX,
    ensures
        ({
            let after = entries.insert(key, (data, (now + ttl) as u64));
            &&& later < now + ttl ==> fresh(after, key, later) == Some(data)
            &&& later >= now + ttl ==> fresh(after, key, later) is None
            &&& ttl > 0 ==> fresh(after, key, now) == Some(data)
            &&& other != key ==> fresh(after, other, later) == fresh(entries, other, later)
        }),
{
}

} // verus!
