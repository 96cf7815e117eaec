//! An executable model of the cache's key/value store.
//!
//! The store keeps UTF-8 text under string keys, each entry carrying an
//! optional absolute expiry instant (in whole seconds).  Writes are
//! appended; the abstract view, a [`Map`] from keys to [`EntryModel`]
//! values, keeps the most recent write for each key, so the store's
//! consistency model is "last write wins, expiry-bounded".  Reads take the
//! current time as an argument and only surface entries that are still
//! live; an expired entry stays invisible until a later write replaces it.

use vstd::prelude::*;

verus! {

/// One stored entry: a key, the stored text, and an optional absolute
/// expiry instant in seconds.  `expires_at == None` means the entry never
/// expires.
#[derive(Clone, Debug)]
pub struct Entry {
    pub key: String,
    pub text: String,
    pub expires_at: Option<u64>,
}

/// The abstract value a key maps to: the stored text and its expiry.
pub ghost struct EntryModel {
    pub text: Seq<char>,
    pub expires_at: Option<u64>,
}

impl Entry {
    /// The abstract value of this entry.
    pub open spec fn model(self) -> EntryModel {
        EntryModel { text: self.text@, expires_at: self.expires_at }
    }
}

/// Whether an entry is still live at time `now`: entries without an expiry
/// are always live, the others up to (excluding) their expiry instant.
pub open spec fn entry_live(e: EntryModel, now: u64) -> bool {
    match e.expires_at {
        None => true,
        Some(at) => now < at,
    }
}

/// The map a sequence of writes denotes: later writes override earlier
/// ones for the same key.
spec fn map_of(entries: Seq<Entry>) -> Map<Seq<char>, EntryModel>
    decreases entries.len(),
{
    if entries.len() == 0 {
        Map::empty()
    } else {
        map_of(entries.drop_last()).insert(entries.last().key@, entries.last().model())
    }
}

proof fn lemma_map_of_no_match(entries: Seq<Entry>, key: Seq<char>)
    requires
        forall|j: int| 0 <= j < entries.len() ==> entries[j].key@ != key,
    ensures
        !map_of(entries).contains_key(key),
    decreases entries.len(),
{
    if entries.len() > 0 {
        lemma_map_of_no_match(entries.drop_last(), key);
    }
}

proof fn lemma_map_of_last_match(entries: Seq<Entry>, key: Seq<char>, i: int)
    requires
        0 <= i < entries.len(),
        entries[i].key@ == key,
        forall|j: int| i < j < entries.len() ==> entries[j].key@ != key,
    ensures
        map_of(entries).contains_key(key),
        map_of(entries)[key] == entries[i].model(),
    decreases entries.len(),
{
    if i == entries.len() - 1 {
    } else {
        lemma_map_of_last_match(entries.drop_last(), key, i);
        assert(entries.last().key@ != key);
    }
}

/// The store itself: a journal of writes, read through its map view.
#[derive(Clone, Debug)]
pub struct Store {
    entries: Vec<Entry>,
}

impl Store {
    /// The abstract contents: the most recent write for each key, live or
    /// not.
    pub closed spec fn contents(self) -> Map<Seq<char>, EntryModel> {
        map_of(self.entries@)
    }

    /// An empty store.
    pub fn new() -> (r: Store)
        ensures
            r.contents() == Map::<Seq<char>, EntryModel>::empty(),
    {
        Store { entries: Vec::new() }
    }

    /// Read the text stored under `key`, if the key holds a live entry at
    /// time `now`.  An absent key and an expired entry both read as `None`.
    pub fn get(&self, key: &str, now: u64) -> (r: Option<String>)
        ensures
            match r {
                Some(t) => self.contents().contains_key(key@)
                    && entry_live(self.contents()[key@], now)
                    && t@ == self.contents()[key@].text,
                None => !(self.contents().contains_key(key@)
                    && entry_live(self.contents()[key@], now)),
            },
    {
        let key_owned: String = key.to_owned();
        let n: usize = self.entries.len();
        let mut i: usize = n;
        while 0 < i
            invariant
                i <= n,
                n == self.entries@.len(),
                key_owned@ == key@,
                forall|j: int| i <= j < n ==> self.entries@[j].key@ != key@,
            decreases i,
        {
            i = i - 1;
            if self.entries[i].key == key_owned {
                proof {
                    lemma_map_of_last_match(self.entries@, key@, i as int);
                }
                let live: bool = match self.entries[i].expires_at {
                    None => true,
                    Some(at) => now < at,
                };
                if live {
                    return Some(self.entries[i].text.clone());
                } else {
                    return None;
                }
            }
        }
        proof {
            lemma_map_of_no_match(self.entries@, key@);
        }
        None
    }

    /// Store `text` under `key` with no expiry: the entry stays live until
    /// it is overwritten or the store is flushed.
    pub fn set(&mut self, key: &str, text: &str)
        ensures
            final(self).contents() == old(self).contents().insert(
                key@,
                (EntryModel { text: text@, expires_at: None }),
            ),
    {
        let e = Entry { key: key.to_owned(), text: text.to_owned(), expires_at: None };
        self.entries.push(e);
        proof {
            assert(self.entries@.drop_last() =~= old(self).entries@);
        }
    }

    /// Store `text` under `key`, expiring `ttl_secs` seconds from `now`.
    pub fn set_ex(&mut self, key: &str, text: &str, ttl_secs: u64, now: u64)
        requires
            0 < ttl_secs,
            now + ttl_secs <= u64::MAX,
        ensures
            final(self).contents() == old(self).contents().insert(
                key@,
                (EntryModel { text: text@, expires_at: Some((now + ttl_secs) as u64) }),
            ),
    {
        let e = Entry {
            key: key.to_owned(),
            text: text.to_owned(),
            expires_at: Some(now + ttl_secs),
        };
        self.entries.push(e);
        proof {
            assert(self.entries@.drop_last() =~= old(self).entries@);
        }
    }

    /// Remove every entry, live or not.
    pub fn flush_all(&mut self)
        ensures
            final(self).contents() == Map::<Seq<char>, EntryModel>::empty(),
    {
        self.entries = Vec::new();
    }
}

} // verus!
