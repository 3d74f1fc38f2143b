//! The hub's two tables, each a hash map keyed by an identifier's text.
//!
//! The maps are hashbrown's. What a table holds is named by
//! [`client_entries`] and [`spore_entries`]; the functions below are the
//! map's own methods, and their contracts restate its documentation over
//! those names. Nothing here is proved.

use crate::hub::Client;
use crate::spore::Spore;
use vstd::prelude::*;

verus! {

/// The clients of the hub by connection id, in a `hashbrown::HashMap`.
#[verifier::external_body]
pub struct ClientTable {
    inner: hashbrown::HashMap<String, Client>,
}

/// The spores of the world by id, in a `hashbrown::HashMap`.
#[verifier::external_body]
pub struct SporeTable {
    inner: hashbrown::HashMap<String, Spore>,
}

/// What a client table holds: each key's text with its value.
pub uninterp spec fn client_entries(table: ClientTable) -> Map<Seq<char>, Client>;

/// What a spore table holds: each key's text with its value.
pub uninterp spec fn spore_entries(table: SporeTable) -> Map<Seq<char>, Spore>;

/// Whether `text` is the text of one of the first `upto` of `keys`.
pub open spec fn occurs(keys: Seq<String>, upto: int, text: Seq<char>) -> bool {
    exists|i: int| 0 <= i < upto && #[trigger] keys[i]@ == text
}

/// Whether no two of `keys` have the same text.
pub open spec fn distinct_texts(keys: Seq<String>) -> bool {
    forall|i: int, j: int| 0 <= i < j < keys.len() ==> #[trigger] keys[i]@ != #[trigger] keys[j]@
}

/// Whether `keys` lists the members of `domain`, each once, in some order.
pub open spec fn is_key_listing(keys: Seq<String>, domain: Set<Seq<char>>) -> bool {
    &&& forall|i: int| 0 <= i < keys.len() ==> domain.contains(#[trigger] keys[i]@)
    &&& distinct_texts(keys)
    &&& forall|k: Seq<char>| #[trigger] domain.contains(k) ==> occurs(keys, keys.len() as int, k)
}

/// `HashMap::new`: a map that holds nothing.
#[verifier::external_body]
pub(crate) fn client_table_new() -> (table: ClientTable)
    ensures
        (client_entries(table) == Map::<Seq<char>, Client>::empty()),
{
    ClientTable { inner: hashbrown::HashMap::new() }
}

/// `HashMap::insert`: afterwards the key has the new value, and every other
/// key what it had. Returns the value that the key had before, if any.
#[verifier::external_body]
pub(crate) fn client_table_insert(
    table: &mut ClientTable,
    key: String,
    value: Client,
) -> (previous: Option<Client>)
    ensures
        client_entries(*final(table)) == client_entries(*old(table)).insert(key@, value),
        previous == if client_entries(*old(table)).contains_key(key@) {
            Some(client_entries(*old(table))[key@])
        } else {
            None
        },
{
    table.inner.insert(key, value)
}

/// `HashMap::remove`: afterwards the key is absent, and every other key has
/// what it had. Returns the value that the key had, if any.
#[verifier::external_body]
pub(crate) fn client_table_remove(table: &mut ClientTable, key: &str) -> (removed: Option<Client>)
    ensures
        client_entries(*final(table)) == client_entries(*old(table)).remove(key@),
        removed == if client_entries(*old(table)).contains_key(key@) {
            Some(client_entries(*old(table))[key@])
        } else {
            None
        },
{
    table.inner.remove(key)
}

/// `HashMap::get`: the value of the key, if it has one.
#[verifier::external_body]
pub(crate) fn client_table_get<'a>(table: &'a ClientTable, key: &str) -> (found: Option<&'a Client>)
    ensures
        found == if client_entries(*table).contains_key(key@) {
            Some(&client_entries(*table)[key@])
        } else {
            None
        },
{
    table.inner.get(key)
}

/// `HashMap::keys`, each key copied: every key once, in an order that is not
/// determined.
#[verifier::external_body]
pub(crate) fn client_table_keys(table: &ClientTable) -> (keys: Vec<String>)
    ensures
        is_key_listing(keys@, client_entries(*table).dom()),
{
    table.inner.keys().cloned().collect()
}

/// `HashMap::new`: a map that holds nothing.
#[verifier::external_body]
pub(crate) fn spore_table_new() -> (table: SporeTable)
    ensures
        (spore_entries(table) == Map::<Seq<char>, Spore>::empty()),
{
    SporeTable { inner: hashbrown::HashMap::new() }
}

/// `HashMap::insert`: afterwards the key has the new value, and every other
/// key what it had. Returns the value that the key had before, if any.
#[verifier::external_body]
pub(crate) fn spore_table_insert(
    table: &mut SporeTable,
    key: String,
    value: Spore,
) -> (previous: Option<Spore>)
    ensures
        spore_entries(*final(table)) == spore_entries(*old(table)).insert(key@, value),
        previous == if spore_entries(*old(table)).contains_key(key@) {
            Some(spore_entries(*old(table))[key@])
        } else {
            None
        },
{
    table.inner.insert(key, value)
}

/// `HashMap::remove`: afterwards the key is absent, and every other key has
/// what it had. Returns the value that the key had, if any.
#[verifier::external_body]
pub(crate) fn spore_table_remove(table: &mut SporeTable, key: &str) -> (removed: Option<Spore>)
    ensures
        spore_entries(*final(table)) == spore_entries(*old(table)).remove(key@),
        removed == if spore_entries(*old(table)).contains_key(key@) {
            Some(spore_entries(*old(table))[key@])
        } else {
            None
        },
{
    table.inner.remove(key)
}

/// `HashMap::get`: the value of the key, if it has one.
#[verifier::external_body]
pub(crate) fn spore_table_get<'a>(table: &'a SporeTable, key: &str) -> (found: Option<&'a Spore>)
    ensures
        found == if spore_entries(*table).contains_key(key@) {
            Some(&spore_entries(*table)[key@])
        } else {
            None
        },
{
    table.inner.get(key)
}

/// `HashMap::keys`, each key copied: every key once, in an order that is not
/// determined.
#[verifier::external_body]
pub(crate) fn spore_table_keys(table: &SporeTable) -> (keys: Vec<String>)
    ensures
        is_key_listing(keys@, spore_entries(*table).dom()),
{
    table.inner.keys().cloned().collect()
}

/// `HashMap::len`: how many keys the map holds.
#[verifier::external_body]
pub(crate) fn spore_table_len(table: &SporeTable) -> (len: usize)
    ensures
        len == spore_entries(*table).dom().len(),
{
    table.inner.len()
}

} // verus!
