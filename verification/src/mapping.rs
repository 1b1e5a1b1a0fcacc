//! The records of the mapping store.

use vstd::prelude::*;

verus! {

/// One row of the mapping table: a long URL under its fingerprint.
#[derive(Clone, Debug, PartialEq, Eq)]
pub struct UrlMapping {
    /// Assigned by the store; a row that is written again gets a new one.
    pub id: i64,
    /// The URL as it was submitted.
    pub long_url: String,
    /// The fingerprint of `long_url`, unique in the table.
    pub url_hash: i64,
    /// When the store created the row, as the store prints it; `None` for a
    /// record that was not read from the store.
    pub created_on: Option<String>,
}

/// One row of the usage table that accompanies the mapping table.
#[derive(Clone, Debug, PartialEq, Eq)]
pub struct UrlMappingInfo {
    pub id: i64,
    /// The `id` of the mapping that the counters belong to.
    pub mappings_id: i64,
    pub created_on: String,
    pub requested_from: Option<String>,
    pub duplicate_requests: i64,
    pub redirects_served: i64,
    pub marked_for_deletion: Option<String>,
}

impl UrlMapping {
    /// A record with the given fields and no creation time.
    pub fn new(id: i64, long_url: String, url_hash: i64) -> (mapping: UrlMapping)
        ensures
            mapping.id == id,
            mapping.long_url == long_url,
            mapping.url_hash == url_hash,
            mapping.created_on is None,
    {
        UrlMapping { id, long_url, url_hash, created_on: None }
    }
}

} // verus!
