//! The detail views of a catalog item: the summary with its duration, the
//! versions and progress of a playable item, and the season and episode tree
//! of a show. Catalog lookups arrive as `Result`s, so that a failed lookup is
//! a value the aggregation decides about.
use vstd::prelude::*;
use crate::duration::{duration_pretty, duration_pretty_of, files_duration, media_duration};
use crate::model::{clone_text, CatalogError, Episode, Genre, Media, MediaFile, MediaType, Season};
use crate::progress::{progress_value, ProgressStore};
use crate::versions::{list_versions, versions_of, Version};

verus! {

/// What a caller of the aggregation is told when a request fails.
#[derive(Clone, Copy, Debug, PartialEq, Eq, Structural)]
pub enum MediaError {
    /// The requested item does not exist.
    NotFound,
    /// The catalog could not answer a lookup that the request needs.
    CatalogUnavailable,
    /// A search named a type other than `movie` or `tv`.
    InvalidMediaType,
}

/// The request error that a failed catalog lookup becomes.
pub open spec fn catalog_error(e: CatalogError) -> MediaError {
    match e {
        CatalogError::NotFound => MediaError::NotFound,
        CatalogError::Unavailable => MediaError::CatalogUnavailable,
    }
}

/// Maps a failed catalog lookup to the request error.
pub fn from_catalog(e: &CatalogError) -> (r: MediaError)
    ensures
        r == catalog_error(*e),
{
    match e {
        CatalogError::NotFound => MediaError::NotFound,
        CatalogError::Unavailable => MediaError::CatalogUnavailable,
    }
}

/// The summary of a catalog item.
#[derive(Clone, Debug, PartialEq, Eq)]
pub struct MediaSummary {
    pub id: i32,
    pub library_id: i32,
    pub name: String,
    pub description: Option<String>,
    pub rating: Option<i32>,
    pub year: Option<i32>,
    pub added: Option<String>,
    pub poster_path: Option<String>,
    pub backdrop_path: Option<String>,
    pub media_type: Option<MediaType>,
    pub genres: Vec<String>,
    /// Seconds of the item's last file, `0` when unavailable.
    pub duration: i32,
    pub duration_pretty: String,
}

/// The episode file lookups that a summary rolls up: those of a show, none
/// when the listing failed.
pub open spec fn episode_lookups(
    episodes: Result<Vec<Result<Vec<MediaFile>, CatalogError>>, CatalogError>,
) -> Seq<Result<Vec<MediaFile>, CatalogError>> {
    match episodes {
        Ok(v) => v@,
        Err(_) => Seq::empty(),
    }
}

/// `s` summarises `m`, whose files, genres and episode file lookups are given.
pub open spec fn summary_of(
    s: MediaSummary,
    m: Media,
    files: Result<Vec<MediaFile>, CatalogError>,
    genres: Seq<Genre>,
    episodes: Seq<Result<Vec<MediaFile>, CatalogError>>,
) -> bool {
    &&& s.id == m.id
    &&& s.library_id == m.library_id
    &&& s.name == m.name
    &&& s.description == m.description
    &&& s.rating == m.rating
    &&& s.year == m.year
    &&& s.added == m.added
    &&& s.poster_path == m.poster_path
    &&& s.backdrop_path == m.backdrop_path
    &&& s.media_type == m.media_type
    &&& s.genres@.len() == genres.len()
    &&& forall|i: int| 0 <= i < genres.len() ==> #[trigger] s.genres@[i] == genres[i].name
    &&& s.duration as int == files_duration(files)
    &&& s.duration_pretty@ == duration_pretty_of(m.media_type, files_duration(files), episodes)
}

fn genre_names(genres: &Vec<Genre>) -> (r: Vec<String>)
    ensures
        r@.len() == genres@.len(),
        forall|i: int| 0 <= i < genres@.len() ==> #[trigger] r@[i] == genres@[i].name,
{
    let mut out: Vec<String> = Vec::new();
    let mut i: usize = 0;
    while i < genres.len()
        invariant
            i <= genres@.len(),
            out@.len() == i,
            forall|j: int| 0 <= j < i ==> #[trigger] out@[j] == genres@[j].name,
        decreases genres@.len() - i,
    {
        out.push(genres[i].name.clone());
        i = i + 1;
    }
    out
}

/// The summary of an item: its fields, its genre names, the duration of its
/// last file and the display duration. `files` is the item's file lookup,
/// `show_episodes` the file lookup of each of its episodes (read for a show
/// only). A failed item lookup, genre lookup or episode listing of a show
/// fails the request; a failed file lookup counts as no file.
pub fn get_media_by_id(
    media: &Result<Media, CatalogError>,
    files: &Result<Vec<MediaFile>, CatalogError>,
    genres: &Result<Vec<Genre>, CatalogError>,
    show_episodes: &Result<Vec<Result<Vec<MediaFile>, CatalogError>>, CatalogError>,
) -> (r: Result<MediaSummary, MediaError>)
    ensures
        match *media {
            Err(e) => r == Err::<MediaSummary, MediaError>(catalog_error(e)),
            Ok(m) => match *genres {
                Err(e) => r == Err::<MediaSummary, MediaError>(catalog_error(e)),
                Ok(g) => match *show_episodes {
                    Err(e) if m.media_type == Some(MediaType::Tv) => r == Err::<
                        MediaSummary,
                        MediaError,
                    >(catalog_error(e)),
                    _ => r is Ok && summary_of(
                        r->Ok_0,
                        m,
                        *files,
                        g@,
                        episode_lookups(*show_episodes),
                    ),
                },
            },
        },
{
    let m = match media {
        Ok(m) => m,
        Err(e) => {
            return Err(from_catalog(e));
        },
    };
    let duration = media_duration(files);
    let names = match genres {
        Ok(g) => genre_names(g),
        Err(e) => {
            return Err(from_catalog(e));
        },
    };
    let no_episodes: Vec<Result<Vec<MediaFile>, CatalogError>> = Vec::new();
    let episodes = match show_episodes {
        Ok(v) => v,
        Err(e) => {
            if m.media_type == Some(MediaType::Tv) {
                return Err(from_catalog(e));
            }
            &no_episodes
        },
    };
    let pretty = duration_pretty(m.media_type, duration, episodes);
    proof {
        assert(duration_pretty_of(m.media_type, duration as int, episodes@) == duration_pretty_of(
            m.media_type,
            duration as int,
            episode_lookups(*show_episodes),
        ));
    }
    Ok(
        MediaSummary {
            id: m.id,
            library_id: m.library_id,
            name: m.name.clone(),
            description: clone_text(&m.description),
            rating: m.rating,
            year: m.year,
            added: clone_text(&m.added),
            poster_path: clone_text(&m.poster_path),
            backdrop_path: clone_text(&m.backdrop_path),
            media_type: m.media_type,
            genres: names,
            duration,
            duration_pretty: pretty,
        },
    )
}

/// The detail of a movie, an episode or an item of unknown type.
#[derive(Clone, Debug, PartialEq, Eq)]
pub struct StreamableDetail {
    pub progress: i32,
    pub versions: Vec<Version>,
}

/// The detail of one episode inside a show's detail.
#[derive(Clone, Debug, PartialEq, Eq)]
pub struct EpisodeDetail {
    pub id: i32,
    pub progress: i32,
    pub episode: i32,
    pub description: Option<String>,
    pub rating: Option<i32>,
    pub backdrop: Option<String>,
    pub versions: Vec<Version>,
}

/// The detail of one season inside a show's detail.
#[derive(Clone, Debug, PartialEq, Eq)]
pub struct SeasonDetail {
    pub id: i32,
    pub season_number: i32,
    pub added: Option<String>,
    pub poster: Option<String>,
    pub episodes: Vec<EpisodeDetail>,
}

/// The detail of a show: its seasons and their episodes.
#[derive(Clone, Debug, PartialEq, Eq)]
pub struct ShowDetail {
    pub seasons: Vec<SeasonDetail>,
}

/// The detail of an item, by kind.
#[derive(Clone, Debug, PartialEq, Eq)]
pub enum MediaDetail {
    Streamable(StreamableDetail),
    Show(ShowDetail),
}

/// An episode of a season with the lookup of its media item's files.
#[derive(Debug, PartialEq, Eq)]
pub struct EpisodeFetch {
    pub episode: Episode,
    pub files: Result<Vec<MediaFile>, CatalogError>,
}

/// A season of a show with the lookup of its episodes.
#[derive(Debug, PartialEq, Eq)]
pub struct SeasonFetch {
    pub season: Season,
    pub episodes: Result<Vec<EpisodeFetch>, CatalogError>,
}

/// The lookups that the detail of an item is built from.
#[derive(Debug, PartialEq, Eq)]
pub enum DetailSource {
    /// The file lookup of a playable item.
    Files(Result<Vec<MediaFile>, CatalogError>),
    /// The season lookup of a show.
    Seasons(Result<Vec<SeasonFetch>, CatalogError>),
}

/// Which lookups the detail of an item is built from.
#[derive(Clone, Copy, Debug, PartialEq, Eq, Structural)]
pub enum DetailKind {
    Streamable,
    Show,
}

/// A show is detailed by seasons; any other item, of known type or not, by
/// its files.
pub open spec fn detail_kind_of(kind: Option<MediaType>) -> DetailKind {
    match kind {
        Some(MediaType::Tv) => DetailKind::Show,
        _ => DetailKind::Streamable,
    }
}

/// The kind of `source`.
pub open spec fn source_kind(source: DetailSource) -> DetailKind {
    match source {
        DetailSource::Files(_) => DetailKind::Streamable,
        DetailSource::Seasons(_) => DetailKind::Show,
    }
}

/// The kind of detail, and so of lookups, that an item of type `kind` takes.
pub fn detail_kind(kind: Option<MediaType>) -> (r: DetailKind)
    ensures
        r == detail_kind_of(kind),
{
    match kind {
        Some(MediaType::Tv) => DetailKind::Show,
        _ => DetailKind::Streamable,
    }
}

/// `d` is the detail of the playable item `media` with files `files`, as
/// `user` sees it.
pub open spec fn streamable_detail_of(
    d: StreamableDetail,
    media: Media,
    files: Seq<MediaFile>,
    progress: Map<(i32, i32), i32>,
    user: i32,
) -> bool {
    &&& d.progress == progress_value(progress, user, media.id)
    &&& versions_of(d.versions@, files)
}

/// `d` is the detail of the episode `f`, whose file lookup succeeded.
pub open spec fn episode_detail_of(
    d: EpisodeDetail,
    f: EpisodeFetch,
    progress: Map<(i32, i32), i32>,
    user: i32,
) -> bool {
    &&& f.files is Ok
    &&& d.id == f.episode.id
    &&& d.progress == progress_value(progress, user, f.episode.media.id)
    &&& d.episode == f.episode.episode
    &&& d.description == f.episode.media.description
    &&& d.rating == f.episode.media.rating
    &&& d.backdrop == f.episode.media.backdrop_path
    &&& versions_of(d.versions@, f.files->Ok_0@)
}

/// The episodes whose file lookup succeeded, in order.
pub open spec fn kept_episodes(s: Seq<EpisodeFetch>) -> Seq<EpisodeFetch>
    decreases s.len(),
{
    if s.len() == 0 {
        Seq::empty()
    } else if s.last().files is Ok {
        kept_episodes(s.drop_last()).push(s.last())
    } else {
        kept_episodes(s.drop_last())
    }
}

/// The seasons whose episode lookup succeeded, in order.
pub open spec fn kept_seasons(s: Seq<SeasonFetch>) -> Seq<SeasonFetch>
    decreases s.len(),
{
    if s.len() == 0 {
        Seq::empty()
    } else if s.last().episodes is Ok {
        kept_seasons(s.drop_last()).push(s.last())
    } else {
        kept_seasons(s.drop_last())
    }
}

/// `ds` details the episodes `fs`, one for one.
pub open spec fn episode_details_of(
    ds: Seq<EpisodeDetail>,
    fs: Seq<EpisodeFetch>,
    progress: Map<(i32, i32), i32>,
    user: i32,
) -> bool {
    &&& ds.len() == fs.len()
    &&& forall|i: int| 0 <= i < ds.len() ==> #[trigger] episode_detail_of(ds[i], fs[i], progress, user)
}

/// `d` is the detail of the season `f`, whose episode lookup succeeded: the
/// episodes whose files could be read, in order.
pub open spec fn season_detail_of(
    d: SeasonDetail,
    f: SeasonFetch,
    progress: Map<(i32, i32), i32>,
    user: i32,
) -> bool {
    &&& f.episodes is Ok
    &&& d.id == f.season.id
    &&& d.season_number == f.season.season_number
    &&& d.added == f.season.added
    &&& d.poster == f.season.poster
    &&& episode_details_of(d.episodes@, kept_episodes(f.episodes->Ok_0@), progress, user)
}

/// `ds` details the seasons `fs`, one for one.
pub open spec fn season_details_of(
    ds: Seq<SeasonDetail>,
    fs: Seq<SeasonFetch>,
    progress: Map<(i32, i32), i32>,
    user: i32,
) -> bool {
    &&& ds.len() == fs.len()
    &&& forall|i: int| 0 <= i < ds.len() ==> #[trigger] season_detail_of(ds[i], fs[i], progress, user)
}

/// The detail of a playable item: `user`'s progress in it (`0` when none is
/// stored) and one version per file. A failed file lookup fails the request.
pub fn get_for_streamable(
    media: &Media,
    files: &Result<Vec<MediaFile>, CatalogError>,
    progress: &ProgressStore,
    user: i32,
) -> (r: Result<StreamableDetail, MediaError>)
    requires
        progress.wf(),
    ensures
        match *files {
            Err(e) => r == Err::<StreamableDetail, MediaError>(catalog_error(e)),
            Ok(v) => r is Ok && streamable_detail_of(r->Ok_0, *media, v@, progress@, user),
        },
{
    match files {
        Ok(v) => Ok(
            StreamableDetail {
                progress: progress.get_for_media_user(user, media.id),
                versions: list_versions(v),
            },
        ),
        Err(e) => Err(from_catalog(e)),
    }
}

/// The detail of one episode of a show, built as for a playable item from the
/// episode's own media item. A failed file lookup fails it.
pub fn get_for_episode(fetch: &EpisodeFetch, progress: &ProgressStore, user: i32) -> (r: Result<
    EpisodeDetail,
    MediaError,
>)
    requires
        progress.wf(),
    ensures
        match fetch.files {
            Err(e) => r == Err::<EpisodeDetail, MediaError>(catalog_error(e)),
            Ok(_) => r is Ok && episode_detail_of(r->Ok_0, *fetch, progress@, user),
        },
{
    match &fetch.files {
        Ok(v) => {
            let ep = &fetch.episode;
            Ok(
                EpisodeDetail {
                    id: ep.id,
                    progress: progress.get_for_media_user(user, ep.media.id),
                    episode: ep.episode,
                    description: clone_text(&ep.media.description),
                    rating: ep.media.rating,
                    backdrop: clone_text(&ep.media.backdrop_path),
                    versions: list_versions(v),
                },
            )
        },
        Err(e) => Err(from_catalog(e)),
    }
}

fn season_episodes(episodes: &Vec<EpisodeFetch>, progress: &ProgressStore, user: i32) -> (r: Vec<
    EpisodeDetail,
>)
    requires
        progress.wf(),
    ensures
        episode_details_of(r@, kept_episodes(episodes@), progress@, user),
{
    let mut out: Vec<EpisodeDetail> = Vec::new();
    let mut i: usize = 0;
    while i < episodes.len()
        invariant
            i <= episodes@.len(),
            progress.wf(),
            episode_details_of(out@, kept_episodes(episodes@.take(i as int)), progress@, user),
        decreases episodes@.len() - i,
    {
        proof {
            assert(episodes@.take(i + 1).drop_last() =~= episodes@.take(i as int));
            assert(episodes@.take(i + 1).last() == episodes@[i as int]);
        }
        let ghost before = out@;
        match get_for_episode(&episodes[i], progress, user) {
            Ok(d) => {
                out.push(d);
            },
            Err(_) => {},
        }
        proof {
            let k = kept_episodes(episodes@.take(i + 1));
            assert forall|j: int| 0 <= j < out@.len() implies #[trigger] episode_detail_of(
                out@[j],
                k[j],
                progress@,
                user,
            ) by {
                if j < before.len() {
                    assert(out@[j] == before[j]);
                    assert(k[j] == kept_episodes(episodes@.take(i as int))[j]);
                }
            }
        }
        i = i + 1;
    }
    proof {
        assert(episodes@.take(i as int) =~= episodes@);
    }
    out
}

fn season_detail(fetch: &SeasonFetch, episodes: &Vec<EpisodeFetch>, progress: &ProgressStore, user: i32) -> (r: SeasonDetail)
    requires
        progress.wf(),
        fetch.episodes == Ok::<Vec<EpisodeFetch>, CatalogError>(*episodes),
    ensures
        season_detail_of(r, *fetch, progress@, user),
{
    let s = &fetch.season;
    SeasonDetail {
        id: s.id,
        season_number: s.season_number,
        added: clone_text(&s.added),
        poster: clone_text(&s.poster),
        episodes: season_episodes(episodes, progress, user),
    }
}

/// The detail of a show: for each season whose episode lookup succeeded, in
/// catalog order, its fields and the details of those of its episodes whose
/// file lookup succeeded. Seasons and episodes whose lookup failed are left
/// out; only a failed season listing fails the request.
pub fn get_for_show(
    seasons: &Result<Vec<SeasonFetch>, CatalogError>,
    progress: &ProgressStore,
    user: i32,
) -> (r: Result<ShowDetail, MediaError>)
    requires
        progress.wf(),
    ensures
        match *seasons {
            Err(e) => r == Err::<ShowDetail, MediaError>(catalog_error(e)),
            Ok(v) => r is Ok && season_details_of(
                r->Ok_0.seasons@,
                kept_seasons(v@),
                progress@,
                user,
            ),
        },
{
    let all = match seasons {
        Ok(v) => v,
        Err(e) => {
            return Err(from_catalog(e));
        },
    };
    let mut out: Vec<SeasonDetail> = Vec::new();
    let mut i: usize = 0;
    while i < all.len()
        invariant
            i <= all@.len(),
            progress.wf(),
            season_details_of(out@, kept_seasons(all@.take(i as int)), progress@, user),
        decreases all@.len() - i,
    {
        proof {
            assert(all@.take(i + 1).drop_last() =~= all@.take(i as int));
            assert(all@.take(i + 1).last() == all@[i as int]);
        }
        let ghost before = out@;
        let fetch = &all[i];
        match &fetch.episodes {
            Ok(eps) => {
                out.push(season_detail(fetch, eps, progress, user));
            },
            Err(_) => {},
        }
        proof {
            let k = kept_seasons(all@.take(i + 1));
            assert forall|j: int| 0 <= j < out@.len() implies #[trigger] season_detail_of(
                out@[j],
                k[j],
                progress@,
                user,
            ) by {
                if j < before.len() {
                    assert(out@[j] == before[j]);
                    assert(k[j] == kept_seasons(all@.take(i as int))[j]);
                }
            }
        }
        i = i + 1;
    }
    proof {
        assert(all@.take(i as int) =~= all@);
    }
    Ok(ShowDetail { seasons: out })
}

/// The detail of an item for `user`, dispatched once on its type: a show is
/// detailed by its seasons, anything else by its files. `source` holds the
/// lookups that `detail_kind` names for the item's type. A failed item
/// lookup fails the request with its error.
pub fn get_extra_info_by_id(
    media: &Result<Media, CatalogError>,
    source: &DetailSource,
    progress: &ProgressStore,
    user: i32,
) -> (r: Result<MediaDetail, MediaError>)
    requires
        progress.wf(),
        media is Ok ==> source_kind(*source) == detail_kind_of(media->Ok_0.media_type),
    ensures
        match *media {
            Err(e) => r == Err::<MediaDetail, MediaError>(catalog_error(e)),
            Ok(m) => match *source {
                DetailSource::Files(Err(e)) => r == Err::<MediaDetail, MediaError>(catalog_error(e)),
                DetailSource::Files(Ok(v)) => r matches Ok(MediaDetail::Streamable(d))
                    && streamable_detail_of(d, m, v@, progress@, user),
                DetailSource::Seasons(Err(e)) => r == Err::<MediaDetail, MediaError>(
                    catalog_error(e),
                ),
                DetailSource::Seasons(Ok(v)) => r matches Ok(MediaDetail::Show(d))
                    && season_details_of(d.seasons@, kept_seasons(v@), progress@, user),
            },
        },
{
    let m = match media {
        Ok(m) => m,
        Err(e) => {
            return Err(from_catalog(e));
        },
    };
    match source {
        DetailSource::Files(files) => match get_for_streamable(m, files, progress, user) {
            Ok(d) => Ok(MediaDetail::Streamable(d)),
            Err(e) => Err(e),
        },
        DetailSource::Seasons(seasons) => match get_for_show(seasons, progress, user) {
            Ok(d) => Ok(MediaDetail::Show(d)),
            Err(e) => Err(e),
        },
    }
}

/// A show's detail holds no season whose episode lookup failed, and holds
/// every season whose lookup succeeded, in catalog order.
pub proof fn lemma_failed_seasons_omitted(seasons: Seq<SeasonFetch>)
    ensures
        forall|k: int| 0 <= k < kept_seasons(seasons).len() ==> (#[trigger] kept_seasons(seasons)[k]).episodes is Ok,
        forall|j: int| 0 <= j < seasons.len() && (#[trigger] seasons[j]).episodes is Ok
            ==> kept_seasons(seasons).contains(seasons[j]),
        kept_seasons(seasons).len() <= seasons.len(),
    decreases seasons.len(),
{
    if seasons.len() > 0 {
        let init = seasons.drop_last();
        lemma_failed_seasons_omitted(init);
        let k = kept_seasons(seasons);
        let ki = kept_seasons(init);
        assert forall|j: int| 0 <= j < seasons.len() && (#[trigger] seasons[j]).episodes is Ok
            implies k.contains(seasons[j]) by {
            if j < init.len() {
                assert(init[j] == seasons[j]);
                assert(ki.contains(init[j]));
                let w = choose|w: int| 0 <= w < ki.len() && ki[w] == init[j];
                assert(k[w] == ki[w]);
            } else {
                assert(k[k.len() - 1] == seasons[j]);
            }
        }
    }
}

} // verus!
