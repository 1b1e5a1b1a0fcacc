//! What the service offers to the layer that speaks HTTP: shorten a URL,
//! resolve a slug, remove a slug, list what is stored.
//!
//! Each operation is the codec and one call of the store. The store's
//! answer decides the rest, so each operation comes with a function that
//! takes the answer and says what is returned for every value of it.

use crate::codec::fingerprint;
use crate::codec::spec_fingerprint;
use crate::codec::spec_get_slug;
use crate::codec::spec_slug_to_int;
use crate::codec::DecodeError;
use crate::mapping::UrlMapping;
use crate::sqlite::holds_nul;
use crate::store::Db;
use crate::store::StoreError;
use crate::store::StoreStep;
use vstd::prelude::*;

verus! {

/// Why an operation of the service gave no result.
#[derive(Clone, Debug, PartialEq, Eq)]
pub enum ShortenerError {
    /// The store did not carry the operation out.
    Store(StoreError),
    /// The text is no slug.
    Decode(DecodeError),
    /// The text is a slug, and the store has no row for it.
    NotFound,
}

/// One line of the listing: a slug and the long URL behind it.
#[derive(Clone, Debug, PartialEq, Eq)]
pub struct Link {
    pub slug: String,
    pub long_url: String,
}

/// The slug under which a URL is handed out.
pub open spec fn spec_slug_of_url(url: Seq<char>) -> Seq<char> {
    spec_get_slug(spec_fingerprint(url))
}

/// What `resolve` returns where the store answers `found`.
pub open spec fn spec_resolve_outcome(found: Result<Option<UrlMapping>, StoreError>) -> Result<
    String,
    ShortenerError,
> {
    match found {
        Ok(Some(mapping)) => Ok(mapping.long_url),
        Ok(None) => Err(ShortenerError::NotFound),
        Err(error) => Err(ShortenerError::Store(error)),
    }
}

/// What `remove_by_slug` returns where the store answers `removed`.
pub open spec fn spec_remove_outcome(removed: Result<bool, StoreError>) -> Result<
    bool,
    ShortenerError,
> {
    match removed {
        Ok(removed) => Ok(removed),
        Err(error) => Err(ShortenerError::Store(error)),
    }
}

/// The line of the listing for `mapping`: the mapping's long URL beside the
/// slug of its fingerprint, which reads back as that fingerprint.
pub open spec fn link_shows(link: Link, mapping: UrlMapping) -> bool {
    &&& link.slug@ == spec_get_slug(mapping.url_hash)
    &&& spec_slug_to_int(link.slug@) == Ok::<i64, DecodeError>(mapping.url_hash)
    &&& link.long_url == mapping.long_url
}

/// Whether every slug of `links` is the slug of a fingerprint, so that it
/// can be resolved and removed.
pub open spec fn all_slugs_read_back(links: Seq<Link>) -> bool {
    forall|i: int| 0 <= i < links.len() ==> spec_slug_to_int((#[trigger] links[i]).slug@) is Ok
}

/// What `shorten` promises of its result for `url`: a slug is the slug of
/// the URL's fingerprint and reads back as that fingerprint, and an error is
/// the store's.
pub open spec fn is_shorten_result(url: Seq<char>, out: Result<String, ShortenerError>) -> bool {
    &&& out matches Ok(slug) ==> slug@ == spec_slug_of_url(url) && spec_slug_to_int(slug@) == Ok::<
        i64,
        DecodeError,
    >(spec_fingerprint(url))
    &&& out matches Err(error) ==> error is Store
}

/// Shortening is idempotent in the slug: two calls of `shorten` on one URL
/// that both succeed return the same slug.
pub proof fn shorten_is_idempotent(
    url: Seq<char>,
    first: Result<String, ShortenerError>,
    second: Result<String, ShortenerError>,
)
    requires
        is_shorten_result(url, first),
        is_shorten_result(url, second),
    ensures
        first matches Ok(slug) ==> (second matches Ok(again) ==> slug@ == again@),
{
}

/// The result of shortening a URL of fingerprint `url_hash`, where the
/// store answered the insert with `inserted`: the slug of `url_hash` where
/// the row was written, the store's error where it was not.
pub fn shorten_outcome(url_hash: i64, inserted: Result<i64, StoreError>) -> (out: Result<
    String,
    ShortenerError,
>)
    ensures
        match inserted {
            Ok(_) => out matches Ok(slug) && slug@ == spec_get_slug(url_hash) && spec_slug_to_int(
                slug@,
            ) == Ok::<i64, DecodeError>(url_hash),
            Err(error) => out == Err::<String, ShortenerError>(ShortenerError::Store(error)),
        },
{
    match inserted {
        Ok(_) => Ok(UrlMapping::get_slug(url_hash)),
        Err(error) => Err(ShortenerError::Store(error)),
    }
}

/// Stores `url` under its fingerprint and returns its slug.
///
/// The slug depends on `url` alone, so shortening a URL again returns the
/// slug it had, and the slug reads back as the fingerprint that the row was
/// stored under.
pub fn shorten(url: &String, db: &Db) -> (out: Result<String, ShortenerError>)
    ensures
        is_shorten_result(url@, out),
{
    let url_hash = fingerprint(url.as_str());
    let inserted = UrlMapping::insert(db, url, url_hash);
    shorten_outcome(url_hash, inserted)
}

/// The result of resolving a slug, where the store answered the lookup of
/// its fingerprint with `found`: the long URL of the row, `NotFound` where
/// there is no row, the store's error where the lookup failed.
pub fn resolve_outcome(found: Result<Option<UrlMapping>, StoreError>) -> (out: Result<
    String,
    ShortenerError,
>)
    ensures
        out == spec_resolve_outcome(found),
{
    match found {
        Ok(Some(mapping)) => Ok(mapping.long_url),
        Ok(None) => Err(ShortenerError::NotFound),
        Err(error) => Err(ShortenerError::Store(error)),
    }
}

/// The long URL behind `slug`.
///
/// A text that is no slug is refused with the codec's error, and no other
/// text is; for a slug, the store's answer decides as `resolve_outcome` says.
pub fn resolve(slug: &String, db: &Db) -> (out: Result<String, ShortenerError>)
    ensures
        match spec_slug_to_int(slug@) {
            Err(error) => out == Err::<String, ShortenerError>(ShortenerError::Decode(error)),
            Ok(_) => out is Ok || out == Err::<String, ShortenerError>(ShortenerError::NotFound)
                || out matches Err(ShortenerError::Store(_)),
        },
{
    match UrlMapping::slug_to_int(slug) {
        Err(error) => Err(ShortenerError::Decode(error)),
        Ok(url_hash) => resolve_outcome(UrlMapping::query_by_url_hash(db, url_hash)),
    }
}

/// The result of removing a slug, where the store answered the delete of
/// its fingerprint with `removed`.
pub fn remove_outcome(removed: Result<bool, StoreError>) -> (out: Result<bool, ShortenerError>)
    ensures
        out == spec_remove_outcome(removed),
{
    match removed {
        Ok(removed) => Ok(removed),
        Err(error) => Err(ShortenerError::Store(error)),
    }
}

/// Removes the row behind `slug` and says whether there was one.
///
/// A text that is no slug is refused with the codec's error, and no other
/// text is; for a slug, the store's answer decides as `remove_outcome` says.
pub fn remove_by_slug(slug: &String, db: &Db) -> (out: Result<bool, ShortenerError>)
    ensures
        match spec_slug_to_int(slug@) {
            Err(error) => out == Err::<bool, ShortenerError>(ShortenerError::Decode(error)),
            Ok(_) => out is Ok || out matches Err(ShortenerError::Store(_)),
        },
{
    match UrlMapping::slug_to_int(slug) {
        Err(error) => Err(ShortenerError::Decode(error)),
        Ok(url_hash) => remove_outcome(UrlMapping::delete(db, url_hash)),
    }
}

/// The listing of `mappings`: one line for each, in the same order.
pub fn links_from_mappings(mappings: &Vec<UrlMapping>) -> (links: Vec<Link>)
    ensures
        links@.len() == mappings@.len(),
        forall|i: int| 0 <= i < mappings@.len() ==> link_shows(#[trigger] links@[i], mappings@[i]),
{
    let mut links: Vec<Link> = Vec::new();
    let mut i: usize = 0;
    while i < mappings.len()
        invariant
            i <= mappings.len(),
            links@.len() == i,
            forall|j: int| 0 <= j < i ==> link_shows(#[trigger] links@[j], mappings@[j]),
        decreases mappings.len() - i,
    {
        let mapping = &mappings[i];
        links.push(
            Link { slug: UrlMapping::get_slug(mapping.url_hash), long_url: mapping.long_url.clone() },
        );
        i += 1;
    }
    links
}

/// The result of listing, where the store answered with `all`.
pub fn list_outcome(all: Result<Vec<UrlMapping>, StoreError>) -> (out: Result<
    Vec<Link>,
    ShortenerError,
>)
    ensures
        match all {
            Ok(mappings) => out matches Ok(links) && links@.len() == mappings@.len() && forall|
                i: int,
            |
                0 <= i < mappings@.len() ==> link_shows(#[trigger] links@[i], mappings@[i]),
            Err(error) => out == Err::<Vec<Link>, ShortenerError>(ShortenerError::Store(error)),
        },
{
    match all {
        Ok(mappings) => Ok(links_from_mappings(&mappings)),
        Err(error) => Err(ShortenerError::Store(error)),
    }
}

/// Every stored URL with its slug, in the order in which the rows were
/// written.
///
/// Which rows there are is the store's answer, and `list_outcome` says what
/// is made of every answer. Whatever the answer, each slug listed is the
/// slug of a fingerprint, and the only error is the store's; a database
/// whose path holds NUL is never opened.
pub fn list_all(db: &Db) -> (out: Result<Vec<Link>, ShortenerError>)
    ensures
        out matches Ok(links) ==> all_slugs_read_back(links@),
        out matches Err(error) ==> error is Store,
        holds_nul(db@) ==> (out matches Err(ShortenerError::Store(error)) && error.step
            == StoreStep::Connect),
{
    list_outcome(UrlMapping::get_all(db))
}

} // verus!
