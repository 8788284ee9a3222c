//! Catalog records as the aggregation reads them.
use vstd::prelude::*;

verus! {

/// The kind of a catalog item.
#[derive(Clone, Copy, Debug, PartialEq, Eq, Structural)]
pub enum MediaType {
    Movie,
    Tv,
    Episode,
}

/// Why a catalog lookup produced no value.
#[derive(Clone, Copy, Debug, PartialEq, Eq, Structural)]
pub enum CatalogError {
    /// The record asked for does not exist.
    NotFound,
    /// The store could not answer.
    Unavailable,
}

/// A catalog item: a movie, a show or the media part of an episode.
#[derive(Clone, Debug, PartialEq, Eq)]
pub struct Media {
    pub id: i32,
    pub library_id: i32,
    pub name: String,
    pub description: Option<String>,
    pub rating: Option<i32>,
    pub year: Option<i32>,
    pub added: Option<String>,
    pub poster_path: Option<String>,
    pub backdrop_path: Option<String>,
    /// `None` when the type was never set.
    pub media_type: Option<MediaType>,
}

/// One stored, encoded version of a media item.
#[derive(Clone, Debug, PartialEq, Eq)]
pub struct MediaFile {
    pub id: i32,
    pub media_id: Option<i32>,
    pub library_id: i32,
    pub target_file: String,
    pub codec: Option<String>,
    pub audio: Option<String>,
    pub original_resolution: Option<String>,
    /// Length in seconds; `None` until the file has been probed.
    pub duration: Option<i32>,
}

/// A genre attached to a media item.
#[derive(Clone, Debug, PartialEq, Eq)]
pub struct Genre {
    pub id: i32,
    pub name: String,
}

/// An episode: its number, its season, and its own media item.
#[derive(Clone, Debug, PartialEq, Eq)]
pub struct Episode {
    pub id: i32,
    pub episode: i32,
    pub seasonid: i32,
    pub media: Media,
}

/// A season of a show.
#[derive(Clone, Debug, PartialEq, Eq)]
pub struct Season {
    pub id: i32,
    pub season_number: i32,
    pub tvshowid: i32,
    pub added: Option<String>,
    pub poster: Option<String>,
}

/// A copy of an optional string.
pub fn clone_text(o: &Option<String>) -> (r: Option<String>)
    ensures
        r == *o,
{
    match o {
        Some(s) => Some(s.clone()),
        None => None,
    }
}

} // verus!
