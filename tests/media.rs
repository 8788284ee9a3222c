use dim_media::actions::{
    delete_media_by_id, map_progress, rematch, tmdb_search, update_media_by_id, RematchResult,
    SearchMediaType, Status, SEARCH_LIMIT,
};
use dim_media::detail::{
    get_extra_info_by_id, get_for_episode, get_for_show, get_for_streamable, get_media_by_id,
    detail_kind, DetailKind, DetailSource, EpisodeFetch, MediaDetail, MediaError, SeasonFetch,
};
use dim_media::duration::{duration_pretty, media_duration, show_total_seconds};
use dim_media::model::{CatalogError, Episode, Genre, Media, MediaFile, MediaType, Season};
use dim_media::progress::ProgressStore;
use dim_media::versions::{display_name, list_versions};

fn media(id: i32, kind: Option<MediaType>) -> Media {
    Media {
        id,
        library_id: 1,
        name: format!("item {}", id),
        description: Some("a description".to_string()),
        rating: Some(8),
        year: Some(2019),
        added: Some("2020-01-01".to_string()),
        poster_path: Some("/p.jpg".to_string()),
        backdrop_path: Some("/b.jpg".to_string()),
        media_type: kind,
    }
}

fn file(id: i32, duration: Option<i32>) -> MediaFile {
    MediaFile {
        id,
        media_id: Some(1),
        library_id: 3,
        target_file: format!("/media/{}.mkv", id),
        codec: Some("h264".to_string()),
        audio: Some("aac".to_string()),
        original_resolution: Some("1080p".to_string()),
        duration,
    }
}

fn bare_file(id: i32) -> MediaFile {
    MediaFile {
        id,
        media_id: Some(1),
        library_id: 7,
        target_file: "/media/bare.mkv".to_string(),
        codec: None,
        audio: None,
        original_resolution: None,
        duration: None,
    }
}

fn episode(id: i32, number: i32, season: i32) -> Episode {
    Episode { id, episode: number, seasonid: season, media: media(id, Some(MediaType::Episode)) }
}

fn season(id: i32, number: i32) -> Season {
    Season { id, season_number: number, tvshowid: 2, added: None, poster: Some("/s.jpg".to_string()) }
}

fn no_episodes() -> Result<Vec<Result<Vec<MediaFile>, CatalogError>>, CatalogError> {
    Ok(Vec::new())
}

#[test]
fn movie_summary_in_minutes() {
    let m = Ok(media(1, Some(MediaType::Movie)));
    let genres = Ok(vec![Genre { id: 1, name: "Drama".to_string() }]);
    let s = get_media_by_id(&m, &Ok(vec![file(10, Some(7230))]), &genres, &no_episodes()).unwrap();
    assert_eq!(s.id, 1);
    assert_eq!(s.name, "item 1");
    assert_eq!(s.genres, vec!["Drama".to_string()]);
    assert_eq!(s.duration, 7230);
    assert_eq!(s.duration_pretty, "120 min");
    assert_eq!(s.media_type, Some(MediaType::Movie));
}

#[test]
fn no_files_means_zero_minutes() {
    for kind in [Some(MediaType::Movie), Some(MediaType::Episode), None] {
        let m = Ok(media(4, kind));
        let s = get_media_by_id(&m, &Ok(Vec::new()), &Ok(Vec::new()), &no_episodes()).unwrap();
        assert_eq!(s.duration, 0);
        assert_eq!(s.duration_pretty, "0 min");
        let s = get_media_by_id(&m, &Err(CatalogError::Unavailable), &Ok(Vec::new()), &no_episodes())
            .unwrap();
        assert_eq!(s.duration, 0);
        assert_eq!(s.duration_pretty, "0 min");
    }
}

#[test]
fn last_file_is_authoritative() {
    let files = Ok(vec![file(1, Some(600)), file(2, Some(5999))]);
    assert_eq!(media_duration(&files), 5999);
    assert_eq!(media_duration(&Ok(vec![file(1, Some(600)), file(2, None)])), 0);
    let eps = Vec::new();
    assert_eq!(duration_pretty(None, 5999, &eps), "99 min");
    assert_eq!(duration_pretty(Some(MediaType::Episode), 59, &eps), "0 min");
    assert_eq!(duration_pretty(Some(MediaType::Movie), -61, &eps), "-1 min");
}

#[test]
fn show_summary_counts_episodes_and_hours() {
    let m = Ok(media(2, Some(MediaType::Tv)));
    let episodes = Ok(vec![
        Ok(vec![file(1, Some(1800))]),
        Ok(vec![file(2, Some(2400))]),
        Ok(Vec::new()),
    ]);
    let s = get_media_by_id(&m, &Ok(Vec::new()), &Ok(Vec::new()), &episodes).unwrap();
    assert_eq!(s.duration_pretty, "3 episodes | 1 hr");
    assert_eq!(s.duration, 0);
}

#[test]
fn episode_count_ignores_missing_durations() {
    let eps = vec![
        Ok(vec![file(1, None)]),
        Err(CatalogError::Unavailable),
        Ok(Vec::new()),
        Ok(vec![file(2, Some(7200)), file(3, Some(3600))]),
    ];
    assert_eq!(show_total_seconds(&eps), 3600);
    assert_eq!(duration_pretty(Some(MediaType::Tv), 0, &eps), "4 episodes | 1 hr");
    let none: Vec<Result<Vec<MediaFile>, CatalogError>> = Vec::new();
    assert_eq!(duration_pretty(Some(MediaType::Tv), 0, &none), "0 episodes | 0 hr");
}

#[test]
fn summary_errors() {
    let r = get_media_by_id(&Err(CatalogError::NotFound), &Ok(Vec::new()), &Ok(Vec::new()), &no_episodes());
    assert_eq!(r, Err(MediaError::NotFound));
    let m = Ok(media(2, Some(MediaType::Tv)));
    let r = get_media_by_id(&m, &Ok(Vec::new()), &Err(CatalogError::Unavailable), &no_episodes());
    assert_eq!(r, Err(MediaError::CatalogUnavailable));
    let r = get_media_by_id(&m, &Ok(Vec::new()), &Ok(Vec::new()), &Err(CatalogError::Unavailable));
    assert_eq!(r, Err(MediaError::CatalogUnavailable));
    let movie = Ok(media(3, Some(MediaType::Movie)));
    let r = get_media_by_id(&movie, &Ok(Vec::new()), &Ok(Vec::new()), &Err(CatalogError::Unavailable));
    assert_eq!(r.unwrap().duration_pretty, "0 min");
}

#[test]
fn version_display_names() {
    assert_eq!(display_name(&file(1, None)), "h264 - aac - 1080p - Library 3");
    assert_eq!(display_name(&bare_file(2)), "Unknown VC - Unknown AC - Unknown res - Library 7");
    let vs = list_versions(&vec![file(5, None), bare_file(6)]);
    assert_eq!(vs.len(), 2);
    assert_eq!(vs[0].id, 5);
    assert_eq!(vs[0].file, "/media/5.mkv");
    assert_eq!(vs[1].id, 6);
    assert_eq!(vs[1].display_name, "Unknown VC - Unknown AC - Unknown res - Library 7");
}

#[test]
fn recorded_progress_shows_in_detail() {
    let mut store = ProgressStore::new();
    assert_eq!(map_progress(&mut store, 5, 300, 9), Status::Done);
    let m = media(5, Some(MediaType::Movie));
    let r = get_extra_info_by_id(&Ok(m), &DetailSource::Files(Ok(vec![file(1, Some(60))])), &store, 9);
    match r {
        Ok(MediaDetail::Streamable(d)) => {
            assert_eq!(d.progress, 300);
            assert_eq!(d.versions.len(), 1);
        },
        _ => panic!("expected a streamable detail"),
    }
}

#[test]
fn progress_is_idempotent_and_overwrites() {
    let mut once = ProgressStore::new();
    once.set(120, 9, 5);
    let mut twice = ProgressStore::new();
    twice.set(120, 9, 5);
    twice.set(120, 9, 5);
    assert_eq!(once.get_for_media_user(9, 5), twice.get_for_media_user(9, 5));
    twice.set(400, 9, 5);
    assert_eq!(twice.get_for_media_user(9, 5), 400);
    assert_eq!(twice.get_for_media_user(9, 6), 0);
    assert_eq!(twice.get_for_media_user(8, 5), 0);
}

#[test]
fn streamable_detail_without_progress() {
    let store = ProgressStore::new();
    let m = media(7, None);
    let d = get_for_streamable(&m, &Ok(vec![bare_file(1), file(2, None)]), &store, 1).unwrap();
    assert_eq!(d.progress, 0);
    assert_eq!(d.versions[1].display_name, "h264 - aac - 1080p - Library 3");
    let r = get_for_streamable(&m, &Err(CatalogError::NotFound), &store, 1);
    assert_eq!(r, Err(MediaError::NotFound));
}

#[test]
fn show_detail_omits_failed_lookups() {
    let mut store = ProgressStore::new();
    store.set(42, 1, 21);
    let seasons = Ok(vec![
        SeasonFetch {
            season: season(100, 1),
            episodes: Ok(vec![
                EpisodeFetch { episode: episode(21, 1, 100), files: Ok(vec![file(1, Some(1800))]) },
                EpisodeFetch { episode: episode(22, 2, 100), files: Err(CatalogError::Unavailable) },
                EpisodeFetch { episode: episode(23, 3, 100), files: Ok(Vec::new()) },
            ]),
        },
        SeasonFetch { season: season(101, 2), episodes: Err(CatalogError::Unavailable) },
        SeasonFetch { season: season(102, 3), episodes: Ok(Vec::new()) },
    ]);
    let d = get_for_show(&seasons, &store, 1).unwrap();
    assert_eq!(d.seasons.len(), 2);
    assert_eq!(d.seasons[0].id, 100);
    assert_eq!(d.seasons[0].poster, Some("/s.jpg".to_string()));
    assert_eq!(d.seasons[0].episodes.len(), 2);
    assert_eq!(d.seasons[0].episodes[0].id, 21);
    assert_eq!(d.seasons[0].episodes[0].progress, 42);
    assert_eq!(d.seasons[0].episodes[0].episode, 1);
    assert_eq!(d.seasons[0].episodes[0].backdrop, Some("/b.jpg".to_string()));
    assert_eq!(d.seasons[0].episodes[1].id, 23);
    assert_eq!(d.seasons[0].episodes[1].progress, 0);
    assert_eq!(d.seasons[1].id, 102);
    assert_eq!(d.seasons[1].season_number, 3);
    assert!(d.seasons[1].episodes.is_empty());
    assert_eq!(get_for_show(&Err(CatalogError::NotFound), &store, 1), Err(MediaError::NotFound));
}

#[test]
fn episode_detail_and_its_failure() {
    let store = ProgressStore::new();
    let ok = EpisodeFetch { episode: episode(30, 4, 1), files: Ok(vec![bare_file(9)]) };
    let d = get_for_episode(&ok, &store, 2).unwrap();
    assert_eq!(d.id, 30);
    assert_eq!(d.episode, 4);
    assert_eq!(d.rating, Some(8));
    assert_eq!(d.description, Some("a description".to_string()));
    assert_eq!(d.versions[0].id, 9);
    let bad = EpisodeFetch { episode: episode(31, 5, 1), files: Err(CatalogError::Unavailable) };
    assert_eq!(get_for_episode(&bad, &store, 2), Err(MediaError::CatalogUnavailable));
}

#[test]
fn detail_dispatch_by_type() {
    assert_eq!(detail_kind(Some(MediaType::Tv)), DetailKind::Show);
    assert_eq!(detail_kind(Some(MediaType::Movie)), DetailKind::Streamable);
    assert_eq!(detail_kind(Some(MediaType::Episode)), DetailKind::Streamable);
    assert_eq!(detail_kind(None), DetailKind::Streamable);
    let store = ProgressStore::new();
    let show = Ok(media(2, Some(MediaType::Tv)));
    match get_extra_info_by_id(&show, &DetailSource::Seasons(Ok(Vec::new())), &store, 1) {
        Ok(MediaDetail::Show(d)) => assert!(d.seasons.is_empty()),
        _ => panic!("expected a show detail"),
    }
    let missing = get_extra_info_by_id(&Err(CatalogError::NotFound), &DetailSource::Files(Ok(Vec::new())), &store, 1);
    assert_eq!(missing, Err(MediaError::NotFound));
}

#[test]
fn search_validates_type() {
    let q = "Alien".to_string();
    let r = tmdb_search(&q, Some(1979), &"movie".to_string()).unwrap();
    assert_eq!(r.query, "Alien");
    assert_eq!(r.year, Some(1979));
    assert_eq!(r.media_type, SearchMediaType::Movie);
    assert_eq!(r.limit, SEARCH_LIMIT);
    assert_eq!(SEARCH_LIMIT, 15);
    let r = tmdb_search(&q, None, &"tv".to_string()).unwrap();
    assert_eq!(r.media_type, SearchMediaType::Tv);
    assert_eq!(tmdb_search(&q, None, &"bogus".to_string()), Err(MediaError::InvalidMediaType));
    assert_eq!(tmdb_search(&q, None, &"Movie".to_string()), Err(MediaError::InvalidMediaType));
}

#[test]
fn update_delete_and_rematch_outcomes() {
    assert_eq!(update_media_by_id(&Ok(())), Ok(Status::NoContent));
    assert_eq!(update_media_by_id(&Err(CatalogError::NotFound)), Err(Status::NotModified));
    assert_eq!(update_media_by_id(&Err(CatalogError::Unavailable)), Err(Status::NotModified));
    assert_eq!(delete_media_by_id(&Ok(())), Ok(Status::Done));
    assert_eq!(delete_media_by_id(&Err(CatalogError::NotFound)), Err(MediaError::NotFound));
    assert_eq!(rematch(3, 550), RematchResult::Unavailable);
}
