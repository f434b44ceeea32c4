//! What holds of the store's operations taken together, over the mappings
//! that their contracts speak of.

use vstd::prelude::*;
use serde_json::Value;
use crate::db::{installed, loaded, reports, LoadOutcome};
use crate::json::entries_of;
use crate::shards::{lists, lookup, no_entries};

verus! {

/// Installing a listing whose keys differ pairwise keeps what `before` held
/// under other keys and puts each entry of the listing under its key.
pub proof fn lemma_installed_distinct(
    before: Map<Seq<char>, Value>,
    listing: Seq<(Seq<char>, Value)>,
)
    requires
        forall|i: int, j: int|
            0 <= i < j < listing.len() ==> #[trigger] listing[i].0 != #[trigger] listing[j].0,
    ensures
        forall|key: Seq<char>| #[trigger]
            installed(before, listing).contains_key(key) ==> before.contains_key(key) || exists|
                i: int,
            |
                0 <= i < listing.len() && #[trigger] listing[i].0 == key,
        forall|i: int|
            0 <= i < listing.len() ==> installed(before, listing).contains_key(
                #[trigger] listing[i].0,
            ) && installed(before, listing)[listing[i].0] == listing[i].1,
    decreases listing.len(),
{
    if listing.len() > 0 {
        let front = listing.drop_last();
        let last = listing.last();
        lemma_installed_distinct(before, front);
        let after = installed(before, listing);
        assert(after == installed(before, front).insert(last.0, last.1));
        assert forall|key: Seq<char>| #[trigger] after.contains_key(key) implies before.contains_key(
            key,
        ) || exists|i: int| 0 <= i < listing.len() && #[trigger] listing[i].0 == key by {
            if key == last.0 {
                assert(listing[listing.len() - 1].0 == key);
            } else {
                assert(installed(before, front).contains_key(key));
                if !before.contains_key(key) {
                    let i = choose|i: int| 0 <= i < front.len() && #[trigger] front[i].0 == key;
                    assert(listing[i].0 == key);
                }
            }
        }
        assert forall|i: int| 0 <= i < listing.len() implies after.contains_key(
            #[trigger] listing[i].0,
        ) && after[listing[i].0] == listing[i].1 by {
            if i < listing.len() - 1 {
                assert(front[i] == listing[i]);
                assert(listing[i].0 != listing[listing.len() - 1].0);
            }
        }
    }
}

/// A listing of a mapping has as many entries as the mapping has keys.
pub proof fn law_listing_counts(entries: Map<Seq<char>, Value>, listing: Seq<(Seq<char>, Value)>)
    requires
        lists(listing, entries),
    ensures
        entries.dom().finite(),
        entries.dom().len() == listing.len(),
    decreases listing.len(),
{
    if listing.len() == 0 {
        assert(entries.dom() =~= Set::<Seq<char>>::empty());
    } else {
        let front = listing.drop_last();
        let last = listing.last();
        let rest = entries.remove(last.0);
        assert(listing[listing.len() - 1] == last);
        assert forall|i: int| 0 <= i < front.len() implies rest.contains_key(#[trigger] front[i].0)
            && rest[front[i].0] == front[i].1 by {
            assert(front[i] == listing[i]);
            assert(listing[i].0 != listing[listing.len() - 1].0);
            assert(entries.contains_key(listing[i].0));
        }
        assert forall|key: Seq<char>| #[trigger] rest.contains_key(key) implies exists|i: int|
            0 <= i < front.len() && #[trigger] front[i].0 == key by {
            assert(entries.contains_key(key));
            let i = choose|i: int| 0 <= i < listing.len() && #[trigger] listing[i].0 == key;
            assert(front[i] == listing[i]);
        }
        assert forall|i: int, j: int| 0 <= i < j < front.len() implies #[trigger] front[i].0
            != #[trigger] front[j].0 by {
            assert(front[i] == listing[i]);
            assert(front[j] == listing[j]);
        }
        law_listing_counts(rest, front);
        assert(entries.contains_key(listing[listing.len() - 1].0));
        assert(entries.dom() =~= rest.dom().insert(last.0));
    }
}

/// Round trip of the entries: a listing of a mapping, installed into the
/// empty mapping, gives that mapping back, whatever the listing's order.
pub proof fn law_listing_restores(
    entries: Map<Seq<char>, Value>,
    listing: Seq<(Seq<char>, Value)>,
)
    requires
        lists(listing, entries),
    ensures
        installed(no_entries(), listing) == entries,
{
    lemma_installed_distinct(no_entries(), listing);
    let restored = installed(no_entries(), listing);
    assert forall|key: Seq<char>| restored.contains_key(key) <==> entries.contains_key(key) by {
        if restored.contains_key(key) {
            let i = choose|i: int| 0 <= i < listing.len() && #[trigger] listing[i].0 == key;
            assert(entries.contains_key(listing[i].0));
        }
        if entries.contains_key(key) {
            let i = choose|i: int| 0 <= i < listing.len() && #[trigger] listing[i].0 == key;
            assert(restored.contains_key(listing[i].0));
        }
    }
    assert forall|key: Seq<char>| restored.contains_key(key) implies restored[key] == entries[key] by {
        let i = choose|i: int| 0 <= i < listing.len() && #[trigger] listing[i].0 == key;
        assert(restored[listing[i].0] == listing[i].1);
        assert(entries[listing[i].0] == listing[i].1);
    }
    assert(restored =~= entries);
}

/// Round trip through a text: where a text with at least one character reads
/// back as a listing of a mapping, loading it into an empty store gives that
/// mapping and reports the number of its entries.
pub proof fn law_load_restores(
    entries: Map<Seq<char>, Value>,
    listing: Seq<(Seq<char>, Value)>,
    text: Seq<char>,
)
    requires
        lists(listing, entries),
        text.len() > 0,
        entries_of(text) == Some(listing),
        listing.len() <= usize::MAX,
    ensures
        loaded(no_entries(), Some(text)) == entries,
        reports(LoadOutcome::Loaded(listing.len() as usize), Some(text)),
{
    law_listing_restores(entries, listing);
}

/// Two inserts under one key, in this order: the later call is handed the
/// earlier document as the previous one, and the store then holds the later
/// document as if the earlier insert had never been made.
pub proof fn law_same_key_last_writer(
    entries: Map<Seq<char>, Value>,
    key: Seq<char>,
    earlier: Value,
    later: Value,
)
    ensures
        lookup(entries.insert(key, earlier), key) == Some(earlier),
        lookup(entries.insert(key, earlier).insert(key, later), key) == Some(later),
        entries.insert(key, earlier).insert(key, later) == entries.insert(key, later),
{
    assert(entries.insert(key, earlier).insert(key, later) =~= entries.insert(key, later));
}

/// Operations on two different keys do not see each other: an insert or a
/// removal under one key leaves every lookup of the other as it was, and the
/// two may be made in either order.
pub proof fn law_distinct_keys_independent(
    entries: Map<Seq<char>, Value>,
    key: Seq<char>,
    value: Value,
    other: Seq<char>,
    other_value: Value,
)
    requires
        key != other,
    ensures
        lookup(entries.insert(key, value), other) == lookup(entries, other),
        lookup(entries.remove(key), other) == lookup(entries, other),
        entries.insert(key, value).insert(other, other_value) == entries.insert(
            other,
            other_value,
        ).insert(key, value),
        entries.insert(key, value).remove(other) == entries.remove(other).insert(key, value),
        entries.remove(key).remove(other) == entries.remove(other).remove(key),
{
    assert(entries.insert(key, value).insert(other, other_value) =~= entries.insert(
        other,
        other_value,
    ).insert(key, value));
    assert(entries.insert(key, value).remove(other) =~= entries.remove(other).insert(key, value));
    assert(entries.remove(key).remove(other) =~= entries.remove(other).remove(key));
}

/// Cold start: a load without a text, or from a text without a character,
/// leaves an empty store empty.
pub proof fn law_cold_start(contents: Option<Seq<char>>)
    requires
        contents matches Some(text) ==> text.len() == 0,
    ensures
        loaded(no_entries(), contents) == no_entries(),
        reports(LoadOutcome::Missing, contents) || reports(LoadOutcome::Empty, contents),
{
}

/// A text that holds no list of entries installs nothing, whatever the store
/// held, and the load reports it as malformed.
pub proof fn law_malformed_installs_nothing(before: Map<Seq<char>, Value>, text: Seq<char>)
    requires
        text.len() > 0,
        entries_of(text) is None,
    ensures
        loaded(before, Some(text)) == before,
        reports(LoadOutcome::Malformed, Some(text)),
{
}

} // verus!
