//! The store: a mapping from string keys to JSON documents.

use vstd::prelude::*;
use dashmap::DashMap;
use serde_json::Value;
use crate::laws::law_listing_counts;
use crate::json::{clone_value, document_of, entries_of, entry_views, from_document, to_document};
use crate::shards::{
    held, lists, lookup, no_entries, shards_alter, shards_entries, shards_get, shards_insert, shards_new,
    shards_remove,
};

verus! {

/// What can go wrong in the store and its codec.
#[derive(Clone, Copy, Debug, PartialEq, Eq)]
pub enum StoreError {
    /// The persisted text is not a list of entries.
    Parse,
    /// An update named a key that the store does not hold.
    KeyNotFound,
    /// The entries could not be put into text.
    Encode,
}

/// How a load from the primary target ended.
#[derive(Clone, Copy, Debug, PartialEq, Eq)]
pub enum LoadOutcome {
    /// The target could not be read: a cold start.
    Missing,
    /// The target holds no text: a cold start.
    Empty,
    /// The text is not a list of entries; nothing was installed.
    Malformed,
    /// The text was read and this many entries were installed.
    Loaded(usize),
}

/// The text of a full export and the number of entries in it.
pub struct Snapshot {
    pub document: String,
    pub count: usize,
}

/// The mapping after the entries of `listing` were inserted into `before`,
/// first to last: of two entries with one key the later one stays.
pub open spec fn installed(before: Map<Seq<char>, Value>, listing: Seq<(Seq<char>, Value)>) -> Map<
    Seq<char>,
    Value,
>
    decreases listing.len(),
{
    if listing.len() == 0 {
        before
    } else {
        installed(before, listing.drop_last()).insert(listing.last().0, listing.last().1)
    }
}

/// The text that was read from a target, by its view.
pub open spec fn contents_view(contents: Option<&str>) -> Option<Seq<char>> {
    match contents {
        Some(text) => Some(text@),
        None => None,
    }
}

/// The mapping that a load leaves: `before` with the entries of the text
/// installed, or `before` itself where there is no text, no character in it,
/// or no list of entries to read from it.
pub open spec fn loaded(before: Map<Seq<char>, Value>, contents: Option<Seq<char>>) -> Map<
    Seq<char>,
    Value,
> {
    match contents {
        None => before,
        Some(text) => if text.len() == 0 {
            before
        } else {
            match entries_of(text) {
                None => before,
                Some(listing) => installed(before, listing),
            }
        },
    }
}

/// Whether `outcome` is what a load of `contents` reports.
pub open spec fn reports(outcome: LoadOutcome, contents: Option<Seq<char>>) -> bool {
    match contents {
        None => outcome == LoadOutcome::Missing,
        Some(text) => if text.len() == 0 {
            outcome == LoadOutcome::Empty
        } else {
            match entries_of(text) {
                None => outcome == LoadOutcome::Malformed,
                Some(listing) => outcome matches LoadOutcome::Loaded(n) && n == listing.len(),
            }
        },
    }
}

/// The live mapping from keys to documents.
pub struct Database {
    data: DashMap<String, Value>,
}

impl Database {
    /// The mapping that the store holds.
    pub closed spec fn view(&self) -> Map<Seq<char>, Value> {
        held(self.data)
    }

    /// An empty store.
    pub fn new() -> (db: Self)
        ensures
            db@ == no_entries(),
    {
        Database { data: shards_new() }
    }

    /// The document under `key`, or `None` where the key is absent.
    pub fn get(&self, key: &String) -> (r: Option<Value>)
        ensures
            r == lookup(self@, key@),
    {
        shards_get(&self.data, key)
    }

    /// Puts `value` under `key`, creating or overwriting, and returns what was
    /// replaced.
    pub fn insert(&mut self, key: String, value: Value) -> (r: Option<Value>)
        ensures
            final(self)@ == old(self)@.insert(key@, value),
            r == lookup(old(self)@, key@),
    {
        shards_insert(&mut self.data, key, value)
    }

    /// Replaces the document under a key that the store holds and returns the
    /// new document. A key that is absent is not created: the store stays as
    /// it was and the result is `KeyNotFound`.
    pub fn update(&mut self, key: String, value: Value) -> (r: Result<Value, StoreError>)
        ensures
            old(self)@.contains_key(key@) ==> r == Ok::<Value, StoreError>(value) && final(self)@
                == old(self)@.insert(key@, value),
            !old(self)@.contains_key(key@) ==> r == Err::<Value, StoreError>(
                StoreError::KeyNotFound,
            ) && final(self)@ == old(self)@,
    {
        shards_alter(&mut self.data, &key, value);
        match shards_get(&self.data, &key) {
            Some(current) => Ok(current),
            None => Err(StoreError::KeyNotFound),
        }
    }

    /// Removes `key` and returns the entry that left; a key that is absent
    /// leaves the store as it was.
    pub fn delete(&mut self, key: String) -> (r: Option<(String, Value)>)
        ensures
            final(self)@ == old(self)@.remove(key@),
            r is Some <==> old(self)@.contains_key(key@),
            r matches Some(entry) ==> entry.0@ == key@ && entry.1 == old(self)@[key@],
    {
        shards_remove(&mut self.data, &key)
    }

    /// Every entry of the store, once, in no stated order.
    pub fn entries(&self) -> (r: Vec<(String, Value)>)
        ensures
            lists(entry_views(r@), self@),
            self@.dom().finite(),
            r.len() == self@.dom().len(),
    {
        let r = shards_entries(&self.data);
        proof {
            law_listing_counts(self@, entry_views(r@));
        }
        r
    }

    /// The full export: the text of some listing of the store and the number
    /// of its entries.
    pub fn export(&self) -> (r: Result<Snapshot, StoreError>)
        ensures
            r matches Ok(snapshot) ==> snapshot.count == self@.dom().len(),
            match r {
                Ok(snapshot) => exists|listing: Seq<(Seq<char>, Value)>|
                    lists(listing, self@) && snapshot.count == listing.len() && #[trigger] document_of(
                        listing,
                    ) == Some(snapshot.document@),
                Err(e) => e == StoreError::Encode && exists|listing: Seq<(Seq<char>, Value)>|
                    lists(listing, self@) && #[trigger] document_of(listing) is None,
            },
    {
        let entries = self.entries();
        let count = entries.len();
        match encode_entries(&entries) {
            Ok(document) => Ok(Snapshot { document, count }),
            Err(e) => Err(e),
        }
    }

    /// Inserts the entries first to last.
    pub fn install(&mut self, entries: &Vec<(String, Value)>)
        ensures
            final(self)@ == installed(old(self)@, entry_views(entries@)),
    {
        let ghost listing = entry_views(entries@);
        let mut i: usize = 0;
        while i < entries.len()
            invariant
                i <= entries.len(),
                listing == entry_views(entries@),
                self@ == installed(old(self)@, listing.take(i as int)),
            decreases entries.len() - i,
        {
            let key = entries[i].0.clone();
            let value = clone_value(&entries[i].1);
            shards_insert(&mut self.data, key, value);
            proof {
                assert(listing.take(i + 1).drop_last() =~= listing.take(i as int));
                assert(listing.take(i + 1).last() == listing[i as int]);
            }
            i += 1;
        }
        proof {
            assert(listing.take(entries.len() as int) =~= listing);
        }
    }

    /// The load at start: installs the entries of the text that was read from
    /// the primary target. No text and an empty text are a cold start; a text
    /// that is no list of entries installs nothing.
    pub fn load_snapshot(&mut self, contents: Option<&str>) -> (r: LoadOutcome)
        ensures
            reports(r, contents_view(contents)),
            final(self)@ == loaded(old(self)@, contents_view(contents)),
    {
        match contents {
            None => LoadOutcome::Missing,
            Some(text) => {
                if text.is_empty() {
                    LoadOutcome::Empty
                } else {
                    match import(text) {
                        Err(_) => LoadOutcome::Malformed,
                        Ok(entries) => {
                            self.install(&entries);
                            LoadOutcome::Loaded(entries.len())
                        },
                    }
                }
            },
        }
    }
}

/// The text of a list of entries, or `Encode` where the encoder refuses it.
pub fn encode_entries(entries: &Vec<(String, Value)>) -> (r: Result<String, StoreError>)
    ensures
        match document_of(entry_views(entries@)) {
            Some(text) => r matches Ok(document) && document@ == text,
            None => r matches Err(e) && e == StoreError::Encode,
        },
{
    match to_document(entries) {
        Ok(document) => Ok(document),
        Err(_) => Err(StoreError::Encode),
    }
}

/// The list of entries that a text holds, or `Parse` where it holds none.
pub fn import(text: &str) -> (r: Result<Vec<(String, Value)>, StoreError>)
    ensures
        match entries_of(text@) {
            Some(listing) => r matches Ok(entries) && entry_views(entries@) == listing,
            None => r matches Err(e) && e == StoreError::Parse,
        },
{
    match from_document(text) {
        Ok(entries) => Ok(entries),
        Err(_) => Err(StoreError::Parse),
    }
}

} // verus!
