use ryot_misc::media::{
    AudioBookSpecifics, BookSpecifics, MediaSpecifics, MetadataLot, MetadataModel, MetadataSource,
    MovieSpecifics, PodcastEpisode, PodcastSpecifics, SeenExtraInformation, SeenModel,
    SeenPodcastExtraInformation, SeenShowExtraInformation, ShowEpisode, ShowSeason, ShowSpecifics,
    VideoGameSpecifics,
};
use ryot_misc::summary::{
    summarize, AudioBooksSummary, BooksSummary, MoviesSummary, PodcastsSummary, SeenItem,
    ShowsSummary, UserSummary, VideoGamesSummary,
};

fn item(
    metadata_id: i32,
    specifics: MediaSpecifics,
    extra_information: Option<SeenExtraInformation>,
) -> SeenItem {
    let seen = SeenModel { id: 1, progress: 100, user_id: 1, metadata_id, extra_information };
    let meta = MetadataModel {
        id: metadata_id,
        lot: MetadataLot::Book,
        title: String::new(),
        publish_year: None,
        source: MetadataSource::Custom,
        identifier: String::new(),
        specifics,
    };
    (seen, meta)
}

fn book(pages: Option<i32>) -> SeenItem {
    item(1, MediaSpecifics::Book(BookSpecifics { pages }), None)
}

fn movie(runtime: Option<i32>) -> SeenItem {
    item(2, MediaSpecifics::Movie(MovieSpecifics { runtime }), None)
}

fn audio_book(runtime: Option<i32>) -> SeenItem {
    item(3, MediaSpecifics::AudioBook(AudioBookSpecifics { runtime }), None)
}

fn video_game() -> SeenItem {
    item(4, MediaSpecifics::VideoGame(VideoGameSpecifics {}), None)
}

fn podcast_episode(id: &str, number: i32, runtime: Option<i32>) -> PodcastEpisode {
    PodcastEpisode { id: id.to_string(), number, runtime }
}

fn podcast(metadata_id: i32, episodes: Vec<PodcastEpisode>, heard: Option<i32>) -> SeenItem {
    let part =
        heard.map(|episode| SeenExtraInformation::Podcast(SeenPodcastExtraInformation { episode }));
    item(metadata_id, MediaSpecifics::Podcast(PodcastSpecifics { episodes }), part)
}

fn season(id: i32, season_number: i32, episodes: Vec<(i32, Option<i32>)>) -> ShowSeason {
    let episodes = episodes
        .into_iter()
        .map(|(episode_number, runtime)| ShowEpisode { episode_number, runtime })
        .collect();
    ShowSeason { id, season_number, episodes }
}

fn show(metadata_id: i32, seasons: Vec<ShowSeason>, seen: Option<(i32, i32)>) -> SeenItem {
    let part = seen.map(|(season, episode)| {
        SeenExtraInformation::Show(SeenShowExtraInformation { season, episode })
    });
    item(metadata_id, MediaSpecifics::Show(ShowSpecifics { seasons }), part)
}

#[test]
fn nothing_seen_gives_the_default() {
    assert_eq!(summarize(&vec![]), Some(UserSummary::default()));
    let empty = UserSummary::default();
    assert_eq!(empty.books, BooksSummary { pages: 0, read: 0 });
    assert_eq!(
        empty.shows,
        ShowsSummary { runtime: 0, watched: 0, watched_episodes: 0, watched_seasons: 0 }
    );
}

#[test]
fn one_of_each_plain_kind() {
    let items = vec![
        book(Some(320)),
        book(None),
        book(Some(80)),
        movie(Some(95)),
        movie(Some(120)),
        audio_book(Some(600)),
        audio_book(None),
        video_game(),
        video_game(),
        video_game(),
    ];
    let summary = summarize(&items).unwrap();
    assert_eq!(summary.books, BooksSummary { pages: 400, read: 3 });
    assert_eq!(summary.movies, MoviesSummary { runtime: 215, watched: 2 });
    assert_eq!(summary.audio_books, AudioBooksSummary { runtime: 600, played: 2 });
    assert_eq!(summary.video_games, VideoGamesSummary { played: 3 });
    assert_eq!(
        summary.podcasts,
        PodcastsSummary { runtime: 0, played: 0, played_episodes: 0 }
    );
}

#[test]
fn unknown_media_add_nothing() {
    let items = vec![item(9, MediaSpecifics::Unknown, None), book(Some(5))];
    assert_eq!(summarize(&items), summarize(&vec![book(Some(5))]));
}

#[test]
fn podcasts_count_distinct_episodes() {
    let episodes = || {
        vec![
            podcast_episode("a", 1, Some(10)),
            podcast_episode("b", 2, Some(20)),
            podcast_episode("c", 2, None),
        ]
    };
    let items = vec![
        podcast(50, episodes(), Some(1)),
        podcast(50, episodes(), Some(1)),
        podcast(50, episodes(), Some(2)),
        podcast(51, episodes(), Some(7)),
        podcast(52, episodes(), None),
    ];
    let summary = summarize(&items).unwrap();
    assert_eq!(
        summary.podcasts,
        PodcastsSummary { runtime: 40, played: 3, played_episodes: 3 }
    );
}

#[test]
fn episodes_of_two_podcasts_with_one_id_are_one() {
    let items = vec![
        podcast(50, vec![podcast_episode("x", 1, Some(1))], Some(1)),
        podcast(51, vec![podcast_episode("x", 1, Some(1))], Some(1)),
    ];
    let summary = summarize(&items).unwrap();
    assert_eq!(summary.podcasts, PodcastsSummary { runtime: 2, played: 2, played_episodes: 1 });
}

#[test]
fn shows_count_every_episode_and_distinct_seasons() {
    let seasons = || {
        vec![
            season(100, 1, vec![(1, Some(40)), (2, Some(45))]),
            season(101, 2, vec![(1, None)]),
        ]
    };
    let items = vec![
        show(60, seasons(), Some((1, 1))),
        show(60, seasons(), Some((1, 2))),
        show(60, seasons(), Some((1, 2))),
        show(60, seasons(), Some((2, 1))),
        show(61, seasons(), Some((3, 1))),
    ];
    let summary = summarize(&items).unwrap();
    assert_eq!(
        summary.shows,
        ShowsSummary { runtime: 130, watched: 2, watched_episodes: 4, watched_seasons: 2 }
    );
}

#[test]
fn the_order_of_seen_items_does_not_matter() {
    let seasons = || vec![season(100, 1, vec![(1, Some(40)), (2, Some(45))])];
    let forth = vec![
        show(60, seasons(), Some((1, 1))),
        book(Some(7)),
        show(60, seasons(), Some((1, 2))),
        movie(None),
    ];
    let back = vec![
        movie(None),
        show(60, seasons(), Some((1, 2))),
        book(Some(7)),
        show(60, seasons(), Some((1, 1))),
    ];
    assert_eq!(summarize(&forth), summarize(&back));
}

#[test]
fn a_show_needs_a_part() {
    let seasons = || vec![season(100, 1, vec![(1, Some(40))])];
    assert_eq!(summarize(&vec![show(60, seasons(), None)]), None);
    let wrong = item(
        60,
        MediaSpecifics::Show(ShowSpecifics { seasons: seasons() }),
        Some(SeenExtraInformation::Podcast(SeenPodcastExtraInformation { episode: 1 })),
    );
    assert_eq!(summarize(&vec![wrong]), None);
}

#[test]
fn a_show_without_episodes_needs_no_part() {
    let summary = summarize(&vec![show(60, vec![season(100, 1, vec![])], None)]).unwrap();
    assert_eq!(
        summary.shows,
        ShowsSummary { runtime: 0, watched: 1, watched_episodes: 0, watched_seasons: 0 }
    );
}

#[test]
fn a_podcast_has_no_show_part() {
    let part =
        Some(SeenExtraInformation::Show(SeenShowExtraInformation { season: 1, episode: 1 }));
    let episodes = vec![podcast_episode("a", 1, None)];
    let wrong = item(50, MediaSpecifics::Podcast(PodcastSpecifics { episodes }), part);
    assert_eq!(summarize(&vec![wrong]), None);
}

#[test]
fn figures_stay_in_range() {
    assert_eq!(summarize(&vec![book(Some(i32::MAX)), book(Some(1))]), None);
    assert_eq!(summarize(&vec![movie(Some(i32::MIN)), movie(Some(-1))]), None);
    let summary = summarize(&vec![book(Some(i32::MAX)), book(Some(-1))]).unwrap();
    assert_eq!(summary.books, BooksSummary { pages: i32::MAX - 1, read: 2 });
}

#[test]
fn extreme_season_numbers_are_told_apart() {
    let seasons = || {
        vec![
            season(i32::MIN, i32::MIN, vec![(1, None)]),
            season(i32::MAX, i32::MIN, vec![(1, None)]),
            season(i32::MIN, i32::MAX, vec![(1, None)]),
        ]
    };
    let items = vec![
        show(60, seasons(), Some((i32::MIN, 1))),
        show(60, seasons(), Some((i32::MAX, 1))),
    ];
    let summary = summarize(&items).unwrap();
    assert_eq!(
        summary.shows,
        ShowsSummary { runtime: 0, watched: 1, watched_episodes: 3, watched_seasons: 3 }
    );
}
