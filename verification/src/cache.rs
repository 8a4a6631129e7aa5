//! The schema cache: each table's known columns, kept in front of the storage
//! engine's catalog. It never talks to the engine: callers fill it after a
//! catalog fetch and drop an entry after every schema change.
//!
//! A writer holds the cache exclusively, so that what is read is what was
//! last put. Callers that share a cache keep it behind a lock and hold the
//! lock for one call at a time.

use vstd::prelude::*;
use dashmap::DashMap;
use crate::guard::{column_specs, duplicate_columns, ColumnInfo, ColumnSpec};
use crate::text::string_views;

verus! {

/// `dashmap::DashMap`, carried as a value that nothing is seen inside of.
#[verifier::external_type_specification]
#[verifier::external_body]
#[verifier::reject_recursive_types(K)]
#[verifier::reject_recursive_types(V)]
#[verifier::reject_recursive_types(S)]
pub struct ExDashMap<K, V, S>(DashMap<K, V, S>);

/// The entries of the map: each table name with the columns stored under it.
pub uninterp spec fn cached_schemas(map: DashMap<String, Vec<ColumnInfo>>) -> Map<
    Seq<char>,
    Seq<ColumnSpec>,
>;

/// The map that holds no table.
pub open spec fn no_schemas() -> Map<Seq<char>, Seq<ColumnSpec>> {
    Map::empty()
}

/// `DashMap::new`: a map without entries.
#[verifier::external_body]
fn map_new() -> (r: DashMap<String, Vec<ColumnInfo>>)
    ensures
        cached_schemas(r) == no_schemas(),
{
    DashMap::new()
}

/// `DashMap::get`: a copy of the columns stored under `table`, if there are any.
#[verifier::external_body]
fn map_get(map: &DashMap<String, Vec<ColumnInfo>>, table: &str) -> (r: Option<Vec<ColumnInfo>>)
    ensures
        match r {
            Some(columns) => cached_schemas(*map).contains_key(table@) && column_specs(columns@)
                == cached_schemas(*map)[table@],
            None => !cached_schemas(*map).contains_key(table@),
        },
{
    map.get(table).map(|entry| duplicate_columns(entry.value()))
}

/// `DashMap::insert`: stores `columns` under `table`, in place of what was there.
#[verifier::external_body]
fn map_insert(map: &mut DashMap<String, Vec<ColumnInfo>>, table: String, columns: Vec<ColumnInfo>)
    ensures
        cached_schemas(*final(map)) == cached_schemas(*old(map)).insert(
            table@,
            column_specs(columns@),
        ),
{
    map.insert(table, columns);
}

/// `DashMap::remove`: drops the entry of `table`, if there is one.
#[verifier::external_body]
fn map_remove(map: &mut DashMap<String, Vec<ColumnInfo>>, table: &str)
    ensures
        cached_schemas(*final(map)) == cached_schemas(*old(map)).remove(table@),
{
    map.remove(table);
}

/// `DashMap::clear`: drops every entry.
#[verifier::external_body]
fn map_clear(map: &mut DashMap<String, Vec<ColumnInfo>>)
    ensures
        cached_schemas(*final(map)) == no_schemas(),
{
    map.clear();
}

/// `DashMap::iter`: the table names that have an entry, each once, in no set order.
#[verifier::external_body]
fn map_keys(map: &DashMap<String, Vec<ColumnInfo>>) -> (r: Vec<String>)
    ensures
        string_views(r@).no_duplicates(),
        string_views(r@).to_set() == cached_schemas(*map).dom(),
{
    map.iter().map(|entry| entry.key().clone()).collect()
}

/// The schema cache.
pub struct SchemaCache {
    map: DashMap<String, Vec<ColumnInfo>>,
}

impl SchemaCache {
    /// The cached schemas by table name.
    pub closed spec fn entries(&self) -> Map<Seq<char>, Seq<ColumnSpec>> {
        cached_schemas(self.map)
    }

    /// A cache without entries.
    pub fn new() -> (r: SchemaCache)
        ensures
            r.entries() == no_schemas(),
    {
        SchemaCache { map: map_new() }
    }

    /// The columns cached for `table`.
    pub fn get(&self, table: &str) -> (r: Option<Vec<ColumnInfo>>)
        ensures
            match r {
                Some(columns) => self.entries().contains_key(table@) && column_specs(columns@)
                    == self.entries()[table@],
                None => !self.entries().contains_key(table@),
            },
    {
        map_get(&self.map, table)
    }

    /// Caches `columns` for `table`, in place of what was cached.
    pub fn put(&mut self, table: &str, columns: Vec<ColumnInfo>)
        ensures
            final(self).entries() == old(self).entries().insert(table@, column_specs(columns@)),
    {
        map_insert(&mut self.map, table.to_string(), columns);
    }

    /// Drops what is cached for `table`.
    pub fn invalidate(&mut self, table: &str)
        ensures
            final(self).entries() == old(self).entries().remove(table@),
    {
        map_remove(&mut self.map, table);
    }

    /// The names of the tables that have an entry, each once, in no set order.
    pub fn tables(&self) -> (r: Vec<String>)
        ensures
            string_views(r@).no_duplicates(),
            string_views(r@).to_set() == self.entries().dom(),
    {
        map_keys(&self.map)
    }

    /// Drops every entry.
    pub fn clear(&mut self)
        ensures
            final(self).entries() == no_schemas(),
    {
        map_clear(&mut self.map);
    }
}

/// Caching is idempotent: caching the same columns for a table twice
/// leaves the cache as caching them once does.
pub proof fn lemma_put_idempotent(
    entries: Map<Seq<char>, Seq<ColumnSpec>>,
    table: Seq<char>,
    columns: Seq<ColumnSpec>,
)
    ensures
        entries.insert(table, columns).insert(table, columns) == entries.insert(table, columns),
{
    assert(entries.insert(table, columns).insert(table, columns) =~= entries.insert(
        table,
        columns,
    ));
}

/// Invalidating is idempotent, and undoes caching: once a table's entry is
/// dropped, dropping it again changes nothing, whatever was cached before.
pub proof fn lemma_invalidate_idempotent(
    entries: Map<Seq<char>, Seq<ColumnSpec>>,
    table: Seq<char>,
    columns: Seq<ColumnSpec>,
)
    ensures
        entries.remove(table).remove(table) == entries.remove(table),
        entries.insert(table, columns).remove(table) == entries.remove(table),
        !entries.remove(table).contains_key(table),
{
    assert(entries.remove(table).remove(table) =~= entries.remove(table));
    assert(entries.insert(table, columns).remove(table) =~= entries.remove(table));
}

} // verus!
