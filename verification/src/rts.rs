//! The four operations of the request layer on a store: each answers with a
//! document, and with the null document where the store has none to give.

use vstd::prelude::*;
use serde_json::Value;
use crate::db::{Database, StoreError};
use crate::json::{is_null, null_value};
use crate::shards::lookup;

verus! {

/// Whether `reply` answers for `stored`: the document itself, or the null
/// document where there is none.
pub open spec fn answers(reply: Value, stored: Option<Value>) -> bool {
    match stored {
        Some(document) => reply == document,
        None => is_null(reply),
    }
}

/// The document itself, or the null document where there is none.
pub fn reply_of(stored: Option<Value>) -> (r: Value)
    ensures
        answers(r, stored),
{
    match stored {
        Some(document) => document,
        None => null_value(),
    }
}

/// Reads `key`: its document, or null where the key is absent.
pub fn read(db: &Database, key: &String) -> (r: Value)
    ensures
        answers(r, lookup(db@, key@)),
{
    reply_of(db.get(key))
}

/// Creates or overwrites `key` and answers with the document that was
/// replaced, or null where the key is new.
pub fn create(db: &mut Database, key: String, value: Value) -> (r: Value)
    ensures
        final(db)@ == old(db)@.insert(key@, value),
        answers(r, lookup(old(db)@, key@)),
{
    reply_of(db.insert(key, value))
}

/// Replaces the document of a key that is held and answers with the new
/// document; a key that is absent gives `KeyNotFound` and changes nothing.
pub fn update(db: &mut Database, key: String, value: Value) -> (r: Result<Value, StoreError>)
    ensures
        old(db)@.contains_key(key@) ==> r == Ok::<Value, StoreError>(value) && final(db)@ == old(
            db,
        )@.insert(key@, value),
        !old(db)@.contains_key(key@) ==> r == Err::<Value, StoreError>(StoreError::KeyNotFound)
            && final(db)@ == old(db)@,
{
    db.update(key, value)
}

/// Removes `key` and answers with the document that left, or null where the
/// key was absent.
pub fn delete(db: &mut Database, key: String) -> (r: Value)
    ensures
        final(db)@ == old(db)@.remove(key@),
        answers(r, lookup(old(db)@, key@)),
{
    match db.delete(key) {
        Some(entry) => entry.1,
        None => null_value(),
    }
}

} // verus!
