//! The write and search operations on a catalog item: their outcomes, and the
//! request that a metadata search sends.
use vstd::prelude::*;
use crate::detail::{catalog_error, from_catalog, MediaError};
use crate::model::CatalogError;
use crate::progress::ProgressStore;

verus! {

/// The most candidates a metadata search asks for.
pub const SEARCH_LIMIT: u32 = 15;

/// The outcome of an operation that returns no data.
#[derive(Clone, Copy, Debug, PartialEq, Eq, Structural)]
pub enum Status {
    /// Done.
    Done,
    /// Done; there is nothing to return.
    NoContent,
    /// Nothing was changed.
    NotModified,
}

/// The outcome of a rematch request.
#[derive(Clone, Copy, Debug, PartialEq, Eq, Structural)]
pub enum RematchResult {
    /// Rematching is not available: no attempt was made.
    Unavailable,
}

/// The kinds of item that the metadata provider can be searched for.
#[derive(Clone, Copy, Debug, PartialEq, Eq, Structural)]
pub enum SearchMediaType {
    Movie,
    Tv,
}

/// A search for candidate metadata records, to be sent to the provider.
#[derive(Clone, Debug, PartialEq, Eq)]
pub struct SearchRequest {
    pub query: String,
    pub year: Option<i32>,
    pub media_type: SearchMediaType,
    pub limit: u32,
}

/// The search type that a type name selects, if any.
pub open spec fn search_type_of(name: Seq<char>) -> Option<SearchMediaType> {
    if name == "movie"@ {
        Some(SearchMediaType::Movie)
    } else if name == "tv"@ {
        Some(SearchMediaType::Tv)
    } else {
        None
    }
}

/// The outcome of a partial update of an item: "no content" when the catalog
/// applied it, "not modified" whatever made it fail.
pub fn update_media_by_id(update: &Result<(), CatalogError>) -> (r: Result<Status, Status>)
    ensures
        update is Ok ==> r == Ok::<Status, Status>(Status::NoContent),
        update is Err ==> r == Err::<Status, Status>(Status::NotModified),
{
    match update {
        Ok(_) => Ok(Status::NoContent),
        Err(_) => Err(Status::NotModified),
    }
}

/// The outcome of deleting an item: done, or the catalog's error unchanged.
pub fn delete_media_by_id(delete: &Result<(), CatalogError>) -> (r: Result<Status, MediaError>)
    ensures
        match *delete {
            Ok(_) => r == Ok::<Status, MediaError>(Status::Done),
            Err(e) => r == Err::<Status, MediaError>(catalog_error(e)),
        },
{
    match delete {
        Ok(_) => Ok(Status::Done),
        Err(e) => Err(from_catalog(e)),
    }
}

/// The metadata search for `query`, optionally in `year`, of type
/// `media_type`, which must be `movie` or `tv`; any other type fails with
/// `InvalidMediaType` and yields no request. The provider returns up to
/// `SEARCH_LIMIT` candidates.
pub fn tmdb_search(query: &String, year: Option<i32>, media_type: &String) -> (r: Result<
    SearchRequest,
    MediaError,
>)
    ensures
        match search_type_of(media_type@) {
            None => r == Err::<SearchRequest, MediaError>(MediaError::InvalidMediaType),
            Some(t) => r matches Ok(q) && q.query == *query && q.year == year && q.media_type == t
                && q.limit == SEARCH_LIMIT,
        },
{
    let kind = if *media_type == String::from_str("movie") {
        SearchMediaType::Movie
    } else if *media_type == String::from_str("tv") {
        SearchMediaType::Tv
    } else {
        return Err(MediaError::InvalidMediaType);
    };
    Ok(SearchRequest { query: query.clone(), year, media_type: kind, limit: SEARCH_LIMIT })
}

/// Rematching item `id` to the provider's record `tmdb_id` is not available:
/// the request is refused without any attempt.
pub fn rematch(id: i32, tmdb_id: i32) -> (r: RematchResult)
    ensures
        r == RematchResult::Unavailable,
{
    RematchResult::Unavailable
}

/// Records that `user` reached `offset` seconds in item `id`, replacing any
/// earlier offset of that user in that item.
pub fn map_progress(progress: &mut ProgressStore, id: i32, offset: i32, user: i32) -> (r: Status)
    requires
        old(progress).wf(),
    ensures
        final(progress).wf(),
        final(progress)@ == old(progress)@.insert((user, id), offset),
        r == Status::Done,
{
    progress.set(offset, user, id);
    Status::Done
}

} // verus!
