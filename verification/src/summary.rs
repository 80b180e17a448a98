//! A user's summary: how much of each kind of media they have finished.
use std::collections::HashSet;
use vstd::prelude::*;

use crate::media::{
    AudioBookSpecifics, BookSpecifics, MediaSpecifics, MetadataModel, MovieSpecifics,
    PodcastEpisode, SeenExtraInformation, SeenModel, SeenShowExtraInformation, ShowEpisode,
    ShowSeason, VideoGameSpecifics,
};
use crate::totals::{small_len, NamedSet, PairSet, RunningCount, RunningTotal};

verus! {

#[derive(Debug, Clone, Copy, PartialEq, Eq, Default)]
pub struct AudioBooksSummary {
    pub runtime: i32,
    pub played: i32,
}

#[derive(Debug, Clone, Copy, PartialEq, Eq, Default)]
pub struct VideoGamesSummary {
    pub played: i32,
}

#[derive(Debug, Clone, Copy, PartialEq, Eq, Default)]
pub struct BooksSummary {
    pub pages: i32,
    pub read: i32,
}

#[derive(Debug, Clone, Copy, PartialEq, Eq, Default)]
pub struct MoviesSummary {
    pub runtime: i32,
    pub watched: i32,
}

#[derive(Debug, Clone, Copy, PartialEq, Eq, Default)]
pub struct PodcastsSummary {
    pub runtime: i32,
    pub played: i32,
    pub played_episodes: i32,
}

#[derive(Debug, Clone, Copy, PartialEq, Eq, Default)]
pub struct ShowsSummary {
    pub runtime: i32,
    pub watched: i32,
    pub watched_episodes: i32,
    pub watched_seasons: i32,
}

#[derive(Debug, Clone, Copy, PartialEq, Eq)]
pub struct UserSummary {
    pub books: BooksSummary,
    pub movies: MoviesSummary,
    pub podcasts: PodcastsSummary,
    pub shows: ShowsSummary,
    pub video_games: VideoGamesSummary,
    pub audio_books: AudioBooksSummary,
}

/// Nothing of any kind.
pub open spec fn nothing() -> UserSummary {
    UserSummary {
        books: BooksSummary { pages: 0, read: 0 },
        movies: MoviesSummary { runtime: 0, watched: 0 },
        podcasts: PodcastsSummary { runtime: 0, played: 0, played_episodes: 0 },
        shows: ShowsSummary { runtime: 0, watched: 0, watched_episodes: 0, watched_seasons: 0 },
        video_games: VideoGamesSummary { played: 0 },
        audio_books: AudioBooksSummary { runtime: 0, played: 0 },
    }
}

impl Default for UserSummary {
    fn default() -> (summary: Self)
        ensures
            summary == nothing(),
    {
        UserSummary {
            books: BooksSummary { pages: 0, read: 0 },
            movies: MoviesSummary { runtime: 0, watched: 0 },
            podcasts: PodcastsSummary { runtime: 0, played: 0, played_episodes: 0 },
            shows: ShowsSummary { runtime: 0, watched: 0, watched_episodes: 0, watched_seasons: 0 },
            video_games: VideoGamesSummary { played: 0 },
            audio_books: AudioBooksSummary { runtime: 0, played: 0 },
        }
    }
}

/// A finished entry of a user's history, with the media item that it is about.
pub type SeenItem = (SeenModel, MetadataModel);

/// All that the items contribute, in order.
pub open spec fn gather<T>(items: Seq<SeenItem>, part: spec_fn(SeenItem) -> Seq<T>) -> Seq<T>
    decreases items.len(),
{
    if items.len() == 0 {
        Seq::empty()
    } else {
        gather(items.drop_last(), part) + part(items.last())
    }
}

pub(crate) proof fn lemma_gather_push<T>(
    items: Seq<SeenItem>,
    item: SeenItem,
    part: spec_fn(SeenItem) -> Seq<T>,
)
    ensures
        gather(items.push(item), part) == gather(items, part) + part(item),
{
    assert(items.push(item).drop_last() =~= items);
}

pub open spec fn audio_book_of(item: SeenItem) -> Seq<AudioBookSpecifics> {
    match item.1.specifics {
        MediaSpecifics::AudioBook(book) => seq![book],
        _ => Seq::empty(),
    }
}

/// The audio books that were played, once for each time.
pub open spec fn audio_books(items: Seq<SeenItem>) -> Seq<AudioBookSpecifics> {
    gather(items, |item: SeenItem| audio_book_of(item))
}

pub open spec fn audio_book_runtimes(items: Seq<SeenItem>) -> Seq<int> {
    audio_books(items).map_values(|book: AudioBookSpecifics| crate::totals::amount(book.runtime))
}

pub open spec fn is_audio_books_summary(items: Seq<SeenItem>, summary: AudioBooksSummary) -> bool {
    &&& summary.played == audio_books(items).len()
    &&& summary.runtime == crate::totals::sum(audio_book_runtimes(items))
}

pub open spec fn audio_books_fit(items: Seq<SeenItem>) -> bool {
    &&& audio_books(items).len() <= i32::MAX
    &&& crate::totals::stays_in_range(audio_book_runtimes(items))
}

struct AudioBooksTally {
    played: RunningCount,
    runtime: RunningTotal,
    items: Ghost<Seq<SeenItem>>,
}

impl AudioBooksTally {
    spec fn wf(self) -> bool {
        &&& self.played.wf() && self.played@ == audio_books(self.items@).len()
        &&& self.runtime.wf() && self.runtime@ == audio_book_runtimes(self.items@)
    }

    fn new() -> (tally: Self)
        ensures
            tally.wf(),
            tally.items@ == Seq::<SeenItem>::empty(),
    {
        let tally = AudioBooksTally {
            played: RunningCount::new(),
            runtime: RunningTotal::new(),
            items: Ghost(Seq::empty()),
        };
        assert(audio_book_runtimes(tally.items@) =~= Seq::<int>::empty());
        tally
    }

    fn record(&mut self, item: &SeenItem)
        requires
            old(self).wf(),
        ensures
            final(self).wf(),
            final(self).items@ == old(self).items@.push(*item),
    {
        let ghost before = self.items@;
        proof {
            lemma_gather_push(before, *item, |item: SeenItem| audio_book_of(item));
        }
        if let MediaSpecifics::AudioBook(book) = &item.1.specifics {
            self.played.raise();
            self.runtime.increase_by(book.runtime);
        }
        self.items = Ghost(before.push(*item));
        assert(self.runtime@ =~= audio_book_runtimes(self.items@));
    }

    fn summary(&self) -> (summary: Option<AudioBooksSummary>)
        requires
            self.wf(),
        ensures
            match summary {
                Some(s) => audio_books_fit(self.items@) && is_audio_books_summary(self.items@, s),
                None => !audio_books_fit(self.items@),
            },
    {
        match (self.runtime.value(), self.played.value()) {
            (Some(runtime), Some(played)) => Some(AudioBooksSummary { runtime, played }),
            _ => None,
        }
    }
}

pub open spec fn book_of(item: SeenItem) -> Seq<BookSpecifics> {
    match item.1.specifics {
        MediaSpecifics::Book(book) => seq![book],
        _ => Seq::empty(),
    }
}

/// The books that were read, once for each time.
pub open spec fn books(items: Seq<SeenItem>) -> Seq<BookSpecifics> {
    gather(items, |item: SeenItem| book_of(item))
}

pub open spec fn book_pages(items: Seq<SeenItem>) -> Seq<int> {
    books(items).map_values(|book: BookSpecifics| crate::totals::amount(book.pages))
}

pub open spec fn is_books_summary(items: Seq<SeenItem>, summary: BooksSummary) -> bool {
    &&& summary.read == books(items).len()
    &&& summary.pages == crate::totals::sum(book_pages(items))
}

pub open spec fn books_fit(items: Seq<SeenItem>) -> bool {
    &&& books(items).len() <= i32::MAX
    &&& crate::totals::stays_in_range(book_pages(items))
}

struct BooksTally {
    read: RunningCount,
    pages: RunningTotal,
    items: Ghost<Seq<SeenItem>>,
}

impl BooksTally {
    spec fn wf(self) -> bool {
        &&& self.read.wf() && self.read@ == books(self.items@).len()
        &&& self.pages.wf() && self.pages@ == book_pages(self.items@)
    }

    fn new() -> (tally: Self)
        ensures
            tally.wf(),
            tally.items@ == Seq::<SeenItem>::empty(),
    {
        let tally = BooksTally {
            read: RunningCount::new(),
            pages: RunningTotal::new(),
            items: Ghost(Seq::empty()),
        };
        assert(book_pages(tally.items@) =~= Seq::<int>::empty());
        tally
    }

    fn record(&mut self, item: &SeenItem)
        requires
            old(self).wf(),
        ensures
            final(self).wf(),
            final(self).items@ == old(self).items@.push(*item),
    {
        let ghost before = self.items@;
        proof {
            lemma_gather_push(before, *item, |item: SeenItem| book_of(item));
        }
        if let MediaSpecifics::Book(book) = &item.1.specifics {
            self.read.raise();
            self.pages.increase_by(book.pages);
        }
        self.items = Ghost(before.push(*item));
        assert(self.pages@ =~= book_pages(self.items@));
    }

    fn summary(&self) -> (summary: Option<BooksSummary>)
        requires
            self.wf(),
        ensures
            match summary {
                Some(s) => books_fit(self.items@) && is_books_summary(self.items@, s),
                None => !books_fit(self.items@),
            },
    {
        match (self.pages.value(), self.read.value()) {
            (Some(pages), Some(read)) => Some(BooksSummary { pages, read }),
            _ => None,
        }
    }
}

pub open spec fn movie_of(item: SeenItem) -> Seq<MovieSpecifics> {
    match item.1.specifics {
        MediaSpecifics::Movie(movie) => seq![movie],
        _ => Seq::empty(),
    }
}

/// The movies that were watched, once for each time.
pub open spec fn movies(items: Seq<SeenItem>) -> Seq<MovieSpecifics> {
    gather(items, |item: SeenItem| movie_of(item))
}

pub open spec fn movie_runtimes(items: Seq<SeenItem>) -> Seq<int> {
    movies(items).map_values(|movie: MovieSpecifics| crate::totals::amount(movie.runtime))
}

pub open spec fn is_movies_summary(items: Seq<SeenItem>, summary: MoviesSummary) -> bool {
    &&& summary.watched == movies(items).len()
    &&& summary.runtime == crate::totals::sum(movie_runtimes(items))
}

pub open spec fn movies_fit(items: Seq<SeenItem>) -> bool {
    &&& movies(items).len() <= i32::MAX
    &&& crate::totals::stays_in_range(movie_runtimes(items))
}

struct MoviesTally {
    watched: RunningCount,
    runtime: RunningTotal,
    items: Ghost<Seq<SeenItem>>,
}

impl MoviesTally {
    spec fn wf(self) -> bool {
        &&& self.watched.wf() && self.watched@ == movies(self.items@).len()
        &&& self.runtime.wf() && self.runtime@ == movie_runtimes(self.items@)
    }

    fn new() -> (tally: Self)
        ensures
            tally.wf(),
            tally.items@ == Seq::<SeenItem>::empty(),
    {
        let tally = MoviesTally {
            watched: RunningCount::new(),
            runtime: RunningTotal::new(),
            items: Ghost(Seq::empty()),
        };
        assert(movie_runtimes(tally.items@) =~= Seq::<int>::empty());
        tally
    }

    fn record(&mut self, item: &SeenItem)
        requires
            old(self).wf(),
        ensures
            final(self).wf(),
            final(self).items@ == old(self).items@.push(*item),
    {
        let ghost before = self.items@;
        proof {
            lemma_gather_push(before, *item, |item: SeenItem| movie_of(item));
        }
        if let MediaSpecifics::Movie(movie) = &item.1.specifics {
            self.watched.raise();
            self.runtime.increase_by(movie.runtime);
        }
        self.items = Ghost(before.push(*item));
        assert(self.runtime@ =~= movie_runtimes(self.items@));
    }

    fn summary(&self) -> (summary: Option<MoviesSummary>)
        requires
            self.wf(),
        ensures
            match summary {
                Some(s) => movies_fit(self.items@) && is_movies_summary(self.items@, s),
                None => !movies_fit(self.items@),
            },
    {
        match (self.runtime.value(), self.watched.value()) {
            (Some(runtime), Some(watched)) => Some(MoviesSummary { runtime, watched }),
            _ => None,
        }
    }
}

pub open spec fn video_game_of(item: SeenItem) -> Seq<VideoGameSpecifics> {
    match item.1.specifics {
        MediaSpecifics::VideoGame(game) => seq![game],
        _ => Seq::empty(),
    }
}

/// The video games that were played, once for each time.
pub open spec fn video_games(items: Seq<SeenItem>) -> Seq<VideoGameSpecifics> {
    gather(items, |item: SeenItem| video_game_of(item))
}

pub open spec fn is_video_games_summary(items: Seq<SeenItem>, summary: VideoGamesSummary) -> bool {
    summary.played == video_games(items).len()
}

pub open spec fn video_games_fit(items: Seq<SeenItem>) -> bool {
    video_games(items).len() <= i32::MAX
}

struct VideoGamesTally {
    played: RunningCount,
    items: Ghost<Seq<SeenItem>>,
}

impl VideoGamesTally {
    spec fn wf(self) -> bool {
        self.played.wf() && self.played@ == video_games(self.items@).len()
    }

    fn new() -> (tally: Self)
        ensures
            tally.wf(),
            tally.items@ == Seq::<SeenItem>::empty(),
    {
        VideoGamesTally { played: RunningCount::new(), items: Ghost(Seq::empty()) }
    }

    fn record(&mut self, item: &SeenItem)
        requires
            old(self).wf(),
        ensures
            final(self).wf(),
            final(self).items@ == old(self).items@.push(*item),
    {
        let ghost before = self.items@;
        proof {
            lemma_gather_push(before, *item, |item: SeenItem| video_game_of(item));
        }
        if let MediaSpecifics::VideoGame(_) = &item.1.specifics {
            self.played.raise();
        }
        self.items = Ghost(before.push(*item));
    }

    fn summary(&self) -> (summary: Option<VideoGamesSummary>)
        requires
            self.wf(),
        ensures
            match summary {
                Some(s) => video_games_fit(self.items@) && is_video_games_summary(self.items@, s),
                None => !video_games_fit(self.items@),
            },
    {
        match self.played.value() {
            Some(played) => Some(VideoGamesSummary { played }),
            None => None,
        }
    }
}

pub open spec fn podcast_of(item: SeenItem) -> Seq<i32> {
    match item.1.specifics {
        MediaSpecifics::Podcast(_) => seq![item.0.metadata_id],
        _ => Seq::empty(),
    }
}

/// The podcasts of which something was heard, once for each time.
pub open spec fn podcasts(items: Seq<SeenItem>) -> Seq<i32> {
    gather(items, |item: SeenItem| podcast_of(item))
}

/// The episodes that carry the given number.
pub open spec fn numbered(episodes: Seq<PodcastEpisode>, number: i32) -> Seq<PodcastEpisode> {
    episodes.filter(|episode: PodcastEpisode| episode.number == number)
}

/// The episodes of a podcast that an item says were heard.
pub open spec fn podcast_episodes_of(item: SeenItem) -> Seq<PodcastEpisode> {
    match (item.1.specifics, item.0.extra_information) {
        (
            MediaSpecifics::Podcast(podcast),
            Some(SeenExtraInformation::Podcast(heard)),
        ) => numbered(podcast.episodes@, heard.episode),
        _ => Seq::empty(),
    }
}

/// The podcast episodes that were heard, once for each time.
pub open spec fn podcast_episodes(items: Seq<SeenItem>) -> Seq<PodcastEpisode> {
    gather(items, |item: SeenItem| podcast_episodes_of(item))
}

pub open spec fn podcast_runtimes(items: Seq<SeenItem>) -> Seq<int> {
    podcast_episodes(items).map_values(
        |episode: PodcastEpisode| crate::totals::amount(episode.runtime),
    )
}

/// What tells one podcast episode from another.
pub open spec fn podcast_episode_keys(items: Seq<SeenItem>) -> Seq<(i32, Seq<char>)> {
    podcast_episodes(items).map_values(
        |episode: PodcastEpisode| (episode.number, episode.id@),
    )
}

pub open spec fn is_podcasts_summary(items: Seq<SeenItem>, summary: PodcastsSummary) -> bool {
    &&& summary.runtime == crate::totals::sum(podcast_runtimes(items))
    &&& summary.played == podcasts(items).to_set().len()
    &&& summary.played_episodes == podcast_episode_keys(items).to_set().len()
}

pub open spec fn podcasts_fit(items: Seq<SeenItem>) -> bool {
    &&& crate::totals::stays_in_range(podcast_runtimes(items))
    &&& podcasts(items).to_set().len() <= i32::MAX
    &&& podcast_episode_keys(items).to_set().len() <= i32::MAX
}

/// An item of a podcast that has episodes does not point at an episode of a show.
pub open spec fn podcast_agrees(item: SeenItem) -> bool {
    match (item.1.specifics, item.0.extra_information) {
        (
            MediaSpecifics::Podcast(podcast),
            Some(SeenExtraInformation::Show(_)),
        ) => podcast.episodes@.len() == 0,
        _ => true,
    }
}

pub open spec fn podcasts_agree(items: Seq<SeenItem>) -> bool {
    forall|i: int| 0 <= i < items.len() ==> #[trigger] podcast_agrees(items[i])
}

struct PodcastsTally {
    podcasts: HashSet<i32>,
    episodes: NamedSet,
    runtime: RunningTotal,
    agree: bool,
    items: Ghost<Seq<SeenItem>>,
}

impl PodcastsTally {
    spec fn wf(self) -> bool {
        &&& self.podcasts@ == podcasts(self.items@).to_set()
        &&& self.episodes.wf() && self.episodes@ == podcast_episode_keys(self.items@).to_set()
        &&& self.runtime.wf() && self.runtime@ == podcast_runtimes(self.items@)
        &&& self.agree == podcasts_agree(self.items@)
    }

    fn new() -> (tally: Self)
        ensures
            tally.wf(),
            tally.items@ == Seq::<SeenItem>::empty(),
    {
        broadcast use vstd::std_specs::hash::group_hash_axioms;

        let tally = PodcastsTally {
            podcasts: HashSet::new(),
            episodes: NamedSet::new(),
            runtime: RunningTotal::new(),
            agree: true,
            items: Ghost(Seq::empty()),
        };
        assert(tally.podcasts@ =~= podcasts(tally.items@).to_set());
        assert(tally.episodes@ =~= podcast_episode_keys(tally.items@).to_set());
        assert(podcast_runtimes(tally.items@) =~= Seq::<int>::empty());
        tally
    }

    /// Notes the episodes that carry the given number.
    fn hear(&mut self, episodes: &Vec<PodcastEpisode>, number: i32, earlier: Ghost<Seq<PodcastEpisode>>)
        requires
            old(self).episodes.wf(),
            old(self).episodes@ == earlier@.map_values(
                |episode: PodcastEpisode| (episode.number, episode.id@),
            ).to_set(),
            old(self).runtime.wf(),
            old(self).runtime@ == earlier@.map_values(
                |episode: PodcastEpisode| crate::totals::amount(episode.runtime),
            ),
        ensures
            final(self).episodes.wf(),
            final(self).episodes@ == (earlier@ + numbered(episodes@, number)).map_values(
                |episode: PodcastEpisode| (episode.number, episode.id@),
            ).to_set(),
            final(self).runtime.wf(),
            final(self).runtime@ == (earlier@ + numbered(episodes@, number)).map_values(
                |episode: PodcastEpisode| crate::totals::amount(episode.runtime),
            ),
            final(self).podcasts == old(self).podcasts,
            final(self).agree == old(self).agree,
            final(self).items == old(self).items,
    {
        let ghost key = |episode: PodcastEpisode| (episode.number, episode.id@);
        let ghost runtime = |episode: PodcastEpisode| crate::totals::amount(episode.runtime);
        let ghost hit = |episode: PodcastEpisode| episode.number == number;
        let ghost mut heard = earlier@;
        proof {
            reveal(Seq::filter);
            assert(episodes@.take(0).filter(hit) =~= Seq::<PodcastEpisode>::empty());
            assert(heard =~= earlier@ + episodes@.take(0).filter(hit));
        }
        for i in 0..episodes.len()
            invariant
                key == (|episode: PodcastEpisode| (episode.number, episode.id@)),
                runtime == (|episode: PodcastEpisode| crate::totals::amount(episode.runtime)),
                hit == (|episode: PodcastEpisode| episode.number == number),
                heard == earlier@ + episodes@.take(i as int).filter(hit),
                self.episodes.wf(),
                self.episodes@ == heard.map_values(key).to_set(),
                self.runtime.wf(),
                self.runtime@ == heard.map_values(runtime),
                self.podcasts == old(self).podcasts,
                self.agree == old(self).agree,
                self.items == old(self).items,
        {
            let episode = &episodes[i];
            proof {
                crate::totals::lemma_filter_take(episodes@, hit, i as int);
            }
            if episode.number == number {
                self.runtime.increase_by(episode.runtime);
                self.episodes.insert(number, &episode.id);
                proof {
                    let longer = heard.push(*episode);
                    assert(longer.map_values(key) =~= heard.map_values(key).push(key(*episode)));
                    assert(longer.map_values(runtime) =~= heard.map_values(runtime).push(
                        runtime(*episode),
                    ));
                    crate::totals::lemma_push_to_set(heard.map_values(key), key(*episode));
                    heard = longer;
                }
            }
            assert(heard =~= earlier@ + episodes@.take(i + 1).filter(hit));
        }
        assert(episodes@.take(episodes@.len() as int) =~= episodes@);
    }

    fn record(&mut self, item: &SeenItem)
        requires
            old(self).wf(),
        ensures
            final(self).wf(),
            final(self).items@ == old(self).items@.push(*item),
    {
        broadcast use vstd::std_specs::hash::group_hash_axioms;

        let ghost before = self.items@;
        let ghost after = before.push(*item);
        proof {
            lemma_gather_push(before, *item, |item: SeenItem| podcast_of(item));
            lemma_gather_push(before, *item, |item: SeenItem| podcast_episodes_of(item));
            assert(podcasts_agree(after) <==> podcasts_agree(before) && podcast_agrees(*item)) by {
                assert(after[before.len() as int] == *item);
                assert forall|i: int| 0 <= i < before.len() implies after[i] == #[trigger] before[i] by {}
                if podcasts_agree(after) {
                    assert(podcast_agrees(after[before.len() as int]));
                    assert forall|i: int| 0 <= i < before.len() implies #[trigger] podcast_agrees(
                        before[i],
                    ) by {
                        assert(podcast_agrees(after[i]));
                    }
                }
            }
        }
        if let MediaSpecifics::Podcast(podcast) = &item.1.specifics {
            self.podcasts.insert(item.0.metadata_id);
            proof {
                crate::totals::lemma_push_to_set(podcasts(before), item.0.metadata_id);
                assert(podcasts(after) =~= podcasts(before).push(item.0.metadata_id));
            }
            match &item.0.extra_information {
                None => {},
                Some(SeenExtraInformation::Show(_)) => {
                    if podcast.episodes.len() > 0 {
                        self.agree = false;
                    }
                },
                Some(SeenExtraInformation::Podcast(heard)) => {
                    self.hear(&podcast.episodes, heard.episode, Ghost(podcast_episodes(before)));
                },
            }
        }
        self.items = Ghost(after);
        assert(podcasts(after).to_set() =~= self.podcasts@);
        assert(podcast_episodes(after) =~= podcast_episodes(before) + podcast_episodes_of(*item));
    }

    fn summary(&self) -> (summary: Option<PodcastsSummary>)
        requires
            self.wf(),
        ensures
            match summary {
                Some(s) => podcasts_fit(self.items@) && podcasts_agree(self.items@)
                    && is_podcasts_summary(self.items@, s),
                None => !podcasts_fit(self.items@) || !podcasts_agree(self.items@),
            },
    {
        broadcast use vstd::std_specs::hash::group_hash_axioms;

        if !self.agree {
            return None;
        }
        match (
            self.runtime.value(),
            small_len(self.podcasts.len()),
            small_len(self.episodes.len()),
        ) {
            (Some(runtime), Some(played), Some(played_episodes)) => Some(
                PodcastsSummary { runtime, played, played_episodes },
            ),
            _ => None,
        }
    }
}

pub open spec fn show_of(item: SeenItem) -> Seq<i32> {
    match item.1.specifics {
        MediaSpecifics::Show(_) => seq![item.0.metadata_id],
        _ => Seq::empty(),
    }
}

/// The shows of which something was watched, once for each time.
pub open spec fn shows(items: Seq<SeenItem>) -> Seq<i32> {
    gather(items, |item: SeenItem| show_of(item))
}

/// The episodes of a season that carry the given number, each with its season.
pub open spec fn season_hits(season: ShowSeason, watched: SeenShowExtraInformation) -> Seq<
    (ShowSeason, ShowEpisode),
> {
    if season.season_number == watched.season {
        season.episodes@.filter(
            |episode: ShowEpisode| episode.episode_number == watched.episode,
        ).map_values(|episode: ShowEpisode| (season, episode))
    } else {
        Seq::empty()
    }
}

/// The episodes that carry the given season and episode numbers, each with its season.
pub open spec fn show_hits(seasons: Seq<ShowSeason>, watched: SeenShowExtraInformation) -> Seq<
    (ShowSeason, ShowEpisode),
>
    decreases seasons.len(),
{
    if seasons.len() == 0 {
        Seq::empty()
    } else {
        show_hits(seasons.drop_last(), watched) + season_hits(seasons.last(), watched)
    }
}

/// The episodes of a show that an item says were watched.
pub open spec fn show_episodes_of(item: SeenItem) -> Seq<(ShowSeason, ShowEpisode)> {
    match (item.1.specifics, item.0.extra_information) {
        (
            MediaSpecifics::Show(show),
            Some(SeenExtraInformation::Show(watched)),
        ) => show_hits(show.seasons@, watched),
        _ => Seq::empty(),
    }
}

/// The show episodes that were watched, once for each time.
pub open spec fn show_episodes(items: Seq<SeenItem>) -> Seq<(ShowSeason, ShowEpisode)> {
    gather(items, |item: SeenItem| show_episodes_of(item))
}

pub open spec fn show_runtimes(items: Seq<SeenItem>) -> Seq<int> {
    show_episodes(items).map_values(
        |hit: (ShowSeason, ShowEpisode)| crate::totals::amount(hit.1.runtime),
    )
}

/// What tells one season from another.
pub open spec fn season_keys(items: Seq<SeenItem>) -> Seq<(i32, i32)> {
    show_episodes(items).map_values(
        |hit: (ShowSeason, ShowEpisode)| (hit.0.season_number, hit.0.id),
    )
}

pub open spec fn is_shows_summary(items: Seq<SeenItem>, summary: ShowsSummary) -> bool {
    &&& summary.runtime == crate::totals::sum(show_runtimes(items))
    &&& summary.watched == shows(items).to_set().len()
    &&& summary.watched_episodes == show_episodes(items).len()
    &&& summary.watched_seasons == season_keys(items).to_set().len()
}

pub open spec fn shows_fit(items: Seq<SeenItem>) -> bool {
    &&& crate::totals::stays_in_range(show_runtimes(items))
    &&& shows(items).to_set().len() <= i32::MAX
    &&& show_episodes(items).len() <= i32::MAX
    &&& season_keys(items).to_set().len() <= i32::MAX
}

/// None of the seasons has an episode.
pub open spec fn no_episodes(seasons: Seq<ShowSeason>) -> bool {
    forall|i: int| 0 <= i < seasons.len() ==> #[trigger] seasons[i].episodes@.len() == 0
}

/// An item of a show that has episodes points at an episode of a show.
pub open spec fn show_agrees(item: SeenItem) -> bool {
    match item.1.specifics {
        MediaSpecifics::Show(show) => no_episodes(show.seasons@)
            || item.0.extra_information matches Some(SeenExtraInformation::Show(_)),
        _ => true,
    }
}

pub open spec fn shows_agree(items: Seq<SeenItem>) -> bool {
    forall|i: int| 0 <= i < items.len() ==> #[trigger] show_agrees(items[i])
}

fn has_no_episodes(seasons: &Vec<ShowSeason>) -> (none: bool)
    ensures
        none == no_episodes(seasons@),
{
    for i in 0..seasons.len()
        invariant
            forall|j: int| 0 <= j < i ==> #[trigger] seasons@[j].episodes@.len() == 0,
    {
        if seasons[i].episodes.len() > 0 {
            assert(seasons@[i as int].episodes@.len() != 0);
            return false;
        }
    }
    true
}

struct ShowsTally {
    shows: HashSet<i32>,
    seasons: PairSet,
    episodes: RunningCount,
    runtime: RunningTotal,
    agree: bool,
    items: Ghost<Seq<SeenItem>>,
}

impl ShowsTally {
    /// The figures on episodes are those of the given ones.
    spec fn counts(self, hits: Seq<(ShowSeason, ShowEpisode)>) -> bool {
        &&& self.seasons.wf() && self.seasons@ == hits.map_values(
            |hit: (ShowSeason, ShowEpisode)| (hit.0.season_number, hit.0.id),
        ).to_set()
        &&& self.episodes.wf() && self.episodes@ == hits.len()
        &&& self.runtime.wf() && self.runtime@ == hits.map_values(
            |hit: (ShowSeason, ShowEpisode)| crate::totals::amount(hit.1.runtime),
        )
    }

    spec fn wf(self) -> bool {
        &&& self.shows@ == shows(self.items@).to_set()
        &&& self.counts(show_episodes(self.items@))
        &&& self.agree == shows_agree(self.items@)
    }

    fn new() -> (tally: Self)
        ensures
            tally.wf(),
            tally.items@ == Seq::<SeenItem>::empty(),
    {
        broadcast use vstd::std_specs::hash::group_hash_axioms;

        let tally = ShowsTally {
            shows: HashSet::new(),
            seasons: PairSet::new(),
            episodes: RunningCount::new(),
            runtime: RunningTotal::new(),
            agree: true,
            items: Ghost(Seq::empty()),
        };
        assert(tally.shows@ =~= shows(tally.items@).to_set());
        assert(tally.seasons@ =~= season_keys(tally.items@).to_set());
        assert(show_runtimes(tally.items@) =~= Seq::<int>::empty());
        tally
    }

    /// Notes one episode.
    fn watch_episode(
        &mut self,
        season: &ShowSeason,
        episode: &ShowEpisode,
        earlier: Ghost<Seq<(ShowSeason, ShowEpisode)>>,
    )
        requires
            old(self).counts(earlier@),
        ensures
            final(self).counts(earlier@.push((*season, *episode))),
            final(self).shows == old(self).shows,
            final(self).agree == old(self).agree,
            final(self).items == old(self).items,
    {
        self.runtime.increase_by(episode.runtime);
        self.episodes.raise();
        self.seasons.insert(season.season_number, season.id);
        proof {
            let key = |hit: (ShowSeason, ShowEpisode)| (hit.0.season_number, hit.0.id);
            let runtime = |hit: (ShowSeason, ShowEpisode)| crate::totals::amount(hit.1.runtime);
            let hit = (*season, *episode);
            let longer = earlier@.push(hit);
            assert(longer.map_values(key) =~= earlier@.map_values(key).push(key(hit)));
            assert(longer.map_values(runtime) =~= earlier@.map_values(runtime).push(runtime(hit)));
            crate::totals::lemma_push_to_set(earlier@.map_values(key), key(hit));
        }
    }

    /// Notes the episodes of one season.
    fn watch_season(
        &mut self,
        season: &ShowSeason,
        watched: SeenShowExtraInformation,
        earlier: Ghost<Seq<(ShowSeason, ShowEpisode)>>,
    )
        requires
            old(self).counts(earlier@),
        ensures
            final(self).counts(earlier@ + season_hits(*season, watched)),
            final(self).shows == old(self).shows,
            final(self).agree == old(self).agree,
            final(self).items == old(self).items,
    {
        let ghost mut all = earlier@;
        assert(all =~= earlier@ + Seq::<(ShowSeason, ShowEpisode)>::empty());
        if season.season_number != watched.season {
            return;
        }
        let ghost hit = |episode: ShowEpisode| episode.episode_number == watched.episode;
        let ghost with_season = |episode: ShowEpisode| (*season, episode);
        let ghost episodes = season.episodes@;
        proof {
            reveal(Seq::filter);
            assert(episodes.take(0).filter(hit) =~= Seq::<ShowEpisode>::empty());
            assert(all =~= earlier@ + episodes.take(0).filter(hit).map_values(with_season));
        }
        for i in 0..season.episodes.len()
            invariant
                episodes == season.episodes@,
                hit == (|episode: ShowEpisode| episode.episode_number == watched.episode),
                with_season == (|episode: ShowEpisode| (*season, episode)),
                all == earlier@ + episodes.take(i as int).filter(hit).map_values(with_season),
                self.counts(all),
                self.shows == old(self).shows,
                self.agree == old(self).agree,
                self.items == old(self).items,
        {
            let episode = &season.episodes[i];
            proof {
                crate::totals::lemma_filter_take(episodes, hit, i as int);
            }
            if episode.episode_number == watched.episode {
                self.watch_episode(season, episode, Ghost(all));
                proof {
                    all = all.push((*season, *episode));
                }
            }
            assert(all =~= earlier@ + episodes.take(i + 1).filter(hit).map_values(with_season));
        }
        assert(episodes.take(episodes.len() as int) =~= episodes);
    }

    /// Notes the episodes of all seasons.
    fn watch(
        &mut self,
        seasons: &Vec<ShowSeason>,
        watched: SeenShowExtraInformation,
        earlier: Ghost<Seq<(ShowSeason, ShowEpisode)>>,
    )
        requires
            old(self).counts(earlier@),
        ensures
            final(self).counts(earlier@ + show_hits(seasons@, watched)),
            final(self).shows == old(self).shows,
            final(self).agree == old(self).agree,
            final(self).items == old(self).items,
    {
        let ghost mut all = earlier@;
        assert(all =~= earlier@ + show_hits(seasons@.take(0), watched));
        for i in 0..seasons.len()
            invariant
                all == earlier@ + show_hits(seasons@.take(i as int), watched),
                self.counts(all),
                self.shows == old(self).shows,
                self.agree == old(self).agree,
                self.items == old(self).items,
        {
            self.watch_season(&seasons[i], watched, Ghost(all));
            proof {
                all = all + season_hits(seasons@[i as int], watched);
                assert(seasons@.take(i + 1).drop_last() =~= seasons@.take(i as int));
                assert(all =~= earlier@ + show_hits(seasons@.take(i + 1), watched));
            }
        }
        assert(seasons@.take(seasons@.len() as int) =~= seasons@);
    }

    fn record(&mut self, item: &SeenItem)
        requires
            old(self).wf(),
        ensures
            final(self).wf(),
            final(self).items@ == old(self).items@.push(*item),
    {
        broadcast use vstd::std_specs::hash::group_hash_axioms;

        let ghost before = self.items@;
        let ghost after = before.push(*item);
        proof {
            lemma_gather_push(before, *item, |item: SeenItem| show_of(item));
            lemma_gather_push(before, *item, |item: SeenItem| show_episodes_of(item));
            assert(shows_agree(after) <==> shows_agree(before) && show_agrees(*item)) by {
                assert(after[before.len() as int] == *item);
                assert forall|i: int| 0 <= i < before.len() implies after[i] == #[trigger] before[i] by {}
                if shows_agree(after) {
                    assert(show_agrees(after[before.len() as int]));
                    assert forall|i: int| 0 <= i < before.len() implies #[trigger] show_agrees(
                        before[i],
                    ) by {
                        assert(show_agrees(after[i]));
                    }
                }
            }
        }
        if let MediaSpecifics::Show(show) = &item.1.specifics {
            self.shows.insert(item.0.metadata_id);
            proof {
                crate::totals::lemma_push_to_set(shows(before), item.0.metadata_id);
                assert(shows(after) =~= shows(before).push(item.0.metadata_id));
            }
            match &item.0.extra_information {
                Some(SeenExtraInformation::Show(watched)) => {
                    self.watch(&show.seasons, *watched, Ghost(show_episodes(before)));
                },
                _ => {
                    if !has_no_episodes(&show.seasons) {
                        self.agree = false;
                    }
                },
            }
        }
        self.items = Ghost(after);
        assert(shows(after).to_set() =~= self.shows@);
        assert(show_episodes(after) =~= show_episodes(before) + show_episodes_of(*item));
    }

    fn summary(&self) -> (summary: Option<ShowsSummary>)
        requires
            self.wf(),
        ensures
            match summary {
                Some(s) => shows_fit(self.items@) && shows_agree(self.items@)
                    && is_shows_summary(self.items@, s),
                None => !shows_fit(self.items@) || !shows_agree(self.items@),
            },
    {
        broadcast use vstd::std_specs::hash::group_hash_axioms;

        if !self.agree {
            return None;
        }
        match (
            self.runtime.value(),
            small_len(self.shows.len()),
            self.episodes.value(),
            small_len(self.seasons.len()),
        ) {
            (
                Some(runtime),
                Some(watched),
                Some(watched_episodes),
                Some(watched_seasons),
            ) => Some(ShowsSummary { runtime, watched, watched_episodes, watched_seasons }),
            _ => None,
        }
    }
}

/// The summary says exactly how much of each kind of media the items amount to.
pub open spec fn is_summary(items: Seq<SeenItem>, summary: UserSummary) -> bool {
    &&& is_audio_books_summary(items, summary.audio_books)
    &&& is_books_summary(items, summary.books)
    &&& is_movies_summary(items, summary.movies)
    &&& is_video_games_summary(items, summary.video_games)
    &&& is_podcasts_summary(items, summary.podcasts)
    &&& is_shows_summary(items, summary.shows)
}

/// Every figure stays in the range of an `i32` while the items are gone through, and each
/// item points at a part that its media item can have.
pub open spec fn summarizable(items: Seq<SeenItem>) -> bool {
    &&& audio_books_fit(items)
    &&& books_fit(items)
    &&& movies_fit(items)
    &&& video_games_fit(items)
    &&& podcasts_fit(items)
    &&& podcasts_agree(items)
    &&& shows_fit(items)
    &&& shows_agree(items)
}

/// The summary of the items, or nothing where they cannot be summarized.
pub fn summarize(items: &Vec<SeenItem>) -> (summary: Option<UserSummary>)
    ensures
        match summary {
            Some(s) => summarizable(items@) && is_summary(items@, s),
            None => !summarizable(items@),
        },
{
    let mut audio_books = AudioBooksTally::new();
    let mut books = BooksTally::new();
    let mut movies = MoviesTally::new();
    let mut video_games = VideoGamesTally::new();
    let mut podcasts = PodcastsTally::new();
    let mut shows = ShowsTally::new();
    assert(items@.take(0) =~= Seq::<SeenItem>::empty());
    for i in 0..items.len()
        invariant
            audio_books.wf() && audio_books.items@ == items@.take(i as int),
            books.wf() && books.items@ == items@.take(i as int),
            movies.wf() && movies.items@ == items@.take(i as int),
            video_games.wf() && video_games.items@ == items@.take(i as int),
            podcasts.wf() && podcasts.items@ == items@.take(i as int),
            shows.wf() && shows.items@ == items@.take(i as int),
    {
        let item = &items[i];
        audio_books.record(item);
        books.record(item);
        movies.record(item);
        video_games.record(item);
        podcasts.record(item);
        shows.record(item);
        assert(items@.take(i + 1) =~= items@.take(i as int).push(*item));
    }
    assert(items@.take(items@.len() as int) =~= items@);
    match (
        audio_books.summary(),
        books.summary(),
        movies.summary(),
        video_games.summary(),
        podcasts.summary(),
        shows.summary(),
    ) {
        (
            Some(audio_books),
            Some(books),
            Some(movies),
            Some(video_games),
            Some(podcasts),
            Some(shows),
        ) => Some(UserSummary { books, movies, podcasts, shows, video_games, audio_books }),
        _ => None,
    }
}

/// Law: a user who has finished nothing has the empty summary, and no other.
pub proof fn law_nothing_seen(summary: UserSummary)
    ensures
        summarizable(Seq::empty()),
        is_summary(Seq::empty(), summary) <==> summary == nothing(),
{
    let none = Seq::<SeenItem>::empty();
    lemma_in_range_empty(audio_book_runtimes(none));
    lemma_in_range_empty(book_pages(none));
    lemma_in_range_empty(movie_runtimes(none));
    lemma_in_range_empty(podcast_runtimes(none));
    lemma_in_range_empty(show_runtimes(none));
    assert(podcasts(none).to_set() =~= Set::<i32>::empty());
    assert(podcast_episode_keys(none).to_set() =~= Set::<(i32, Seq<char>)>::empty());
    assert(shows(none).to_set() =~= Set::<i32>::empty());
    assert(season_keys(none).to_set() =~= Set::<(i32, i32)>::empty());
}

proof fn lemma_in_range_empty(amounts: Seq<int>)
    requires
        amounts.len() == 0,
    ensures
        crate::totals::stays_in_range(amounts),
        crate::totals::sum(amounts) == 0,
{
    assert forall|k: int| 0 <= k <= amounts.len() implies i32::MIN <= #[trigger] crate::totals::sum(
        amounts.take(k),
    ) <= i32::MAX by {
        assert(amounts.take(k) =~= amounts);
    }
}

/// Taking one item away takes away just what it contributes.
proof fn lemma_gather_remove<T>(items: Seq<SeenItem>, j: int, part: spec_fn(SeenItem) -> Seq<T>)
    requires
        0 <= j < items.len(),
    ensures
        gather(items, part).to_multiset() == gather(items.remove(j), part).to_multiset().add(
            part(items[j]).to_multiset(),
        ),
    decreases items.len(),
{
    broadcast use vstd::seq_lib::group_to_multiset_ensures;

    let last = items.len() - 1;
    vstd::seq_lib::lemma_multiset_commutative(
        gather(items.drop_last(), part),
        part(items.last()),
    );
    if j == last {
        assert(items.remove(j) =~= items.drop_last());
    } else {
        lemma_gather_remove(items.drop_last(), j, part);
        assert(items.remove(j).drop_last() =~= items.drop_last().remove(j));
        assert(items.remove(j).last() == items.last());
        vstd::seq_lib::lemma_multiset_commutative(
            gather(items.drop_last().remove(j), part),
            part(items.last()),
        );
        assert(gather(items, part).to_multiset() =~= gather(
            items.remove(j),
            part,
        ).to_multiset().add(part(items[j]).to_multiset()));
    }
}

/// What the items contribute, as a whole, does not depend on their order.
proof fn lemma_gather_any_order<T>(
    a: Seq<SeenItem>,
    b: Seq<SeenItem>,
    part: spec_fn(SeenItem) -> Seq<T>,
)
    requires
        a.to_multiset() == b.to_multiset(),
    ensures
        gather(a, part).to_multiset() == gather(b, part).to_multiset(),
    decreases a.len(),
{
    broadcast use vstd::seq_lib::group_to_multiset_ensures;

    assert(a.len() == a.to_multiset().len());
    assert(b.len() == b.to_multiset().len());
    if a.len() > 0 {
        let last = a.len() - 1;
        assert(a.to_multiset().count(a[last]) > 0) by {
            assert(a.contains(a[last]));
        }
        assert(b.contains(a[last]));
        let j = choose|j: int| 0 <= j < b.len() && b[j] == a[last];
        assert(a.remove(last).to_multiset() =~= b.remove(j).to_multiset());
        lemma_gather_any_order(a.remove(last), b.remove(j), part);
        lemma_gather_remove(a, last, part);
        lemma_gather_remove(b, j, part);
    }
}

proof fn lemma_sum_remove<T>(s: Seq<T>, j: int, f: spec_fn(T) -> int)
    requires
        0 <= j < s.len(),
    ensures
        crate::totals::sum(s.map_values(f)) == crate::totals::sum(s.remove(j).map_values(f)) + f(s[j]),
    decreases s.len(),
{
    let last = s.len() - 1;
    assert(s.map_values(f).drop_last() =~= s.drop_last().map_values(f));
    if j == last {
        assert(s.remove(j) =~= s.drop_last());
    } else {
        lemma_sum_remove(s.drop_last(), j, f);
        assert(s.remove(j).map_values(f).drop_last() =~= s.drop_last().remove(j).map_values(f));
        assert(s.remove(j).map_values(f).last() == f(s.last()));
    }
}

/// Neither the sum of some figures, nor their number, nor the set of some marks depends on
/// the order.
proof fn lemma_figures_any_order<T, K>(a: Seq<T>, b: Seq<T>, f: spec_fn(T) -> int, key: spec_fn(T) -> K)
    requires
        a.to_multiset() == b.to_multiset(),
    ensures
        a.len() == b.len(),
        crate::totals::sum(a.map_values(f)) == crate::totals::sum(b.map_values(f)),
        a.map_values(key).to_set() == b.map_values(key).to_set(),
    decreases a.len(),
{
    broadcast use vstd::seq_lib::group_to_multiset_ensures;

    assert(a.len() == a.to_multiset().len());
    assert(b.len() == b.to_multiset().len());
    assert forall|k: K| #[trigger] a.map_values(key).to_set().contains(k) <==> b.map_values(
        key,
    ).to_set().contains(k) by {
        if a.map_values(key).contains(k) {
            let i = choose|i: int| 0 <= i < a.len() && a.map_values(key)[i] == k;
            assert(a.contains(a[i]));
            assert(a.to_multiset().count(a[i]) > 0);
            assert(b.contains(a[i]));
            let j = choose|j: int| 0 <= j < b.len() && b[j] == a[i];
            assert(b.map_values(key)[j] == k);
        }
        if b.map_values(key).contains(k) {
            let i = choose|i: int| 0 <= i < b.len() && b.map_values(key)[i] == k;
            assert(b.contains(b[i]));
            assert(b.to_multiset().count(b[i]) > 0);
            assert(a.contains(b[i]));
            let j = choose|j: int| 0 <= j < a.len() && a[j] == b[i];
            assert(a.map_values(key)[j] == k);
        }
    }
    assert(a.map_values(key).to_set() =~= b.map_values(key).to_set());
    if a.len() > 0 {
        let last = a.len() - 1;
        assert(a.contains(a[last]));
        assert(a.to_multiset().count(a[last]) > 0);
        assert(b.contains(a[last]));
        let j = choose|j: int| 0 <= j < b.len() && b[j] == a[last];
        assert(a.remove(last).to_multiset() =~= b.remove(j).to_multiset());
        lemma_figures_any_order(a.remove(last), b.remove(j), f, key);
        lemma_sum_remove(a, last, f);
        lemma_sum_remove(b, j, f);
    }
}

/// Law: a summary does not depend on the order in which the items come.
pub proof fn law_summary_any_order(a: Seq<SeenItem>, b: Seq<SeenItem>, summary: UserSummary)
    requires
        a.to_multiset() == b.to_multiset(),
    ensures
        is_summary(a, summary) <==> is_summary(b, summary),
{
    lemma_gather_any_order(a, b, |item: SeenItem| audio_book_of(item));
    lemma_gather_any_order(a, b, |item: SeenItem| book_of(item));
    lemma_gather_any_order(a, b, |item: SeenItem| movie_of(item));
    lemma_gather_any_order(a, b, |item: SeenItem| video_game_of(item));
    lemma_gather_any_order(a, b, |item: SeenItem| podcast_of(item));
    lemma_gather_any_order(a, b, |item: SeenItem| podcast_episodes_of(item));
    lemma_gather_any_order(a, b, |item: SeenItem| show_of(item));
    lemma_gather_any_order(a, b, |item: SeenItem| show_episodes_of(item));
    lemma_figures_any_order(
        audio_books(a),
        audio_books(b),
        |book: AudioBookSpecifics| crate::totals::amount(book.runtime),
        |book: AudioBookSpecifics| book,
    );
    lemma_figures_any_order(
        books(a),
        books(b),
        |book: BookSpecifics| crate::totals::amount(book.pages),
        |book: BookSpecifics| book,
    );
    lemma_figures_any_order(
        movies(a),
        movies(b),
        |movie: MovieSpecifics| crate::totals::amount(movie.runtime),
        |movie: MovieSpecifics| movie,
    );
    lemma_figures_any_order(
        video_games(a),
        video_games(b),
        |game: VideoGameSpecifics| 0int,
        |game: VideoGameSpecifics| game,
    );
    lemma_figures_any_order(podcasts(a), podcasts(b), |id: i32| 0int, |id: i32| id);
    assert(podcasts(a).map_values(|id: i32| id) =~= podcasts(a));
    assert(podcasts(b).map_values(|id: i32| id) =~= podcasts(b));
    lemma_figures_any_order(
        podcast_episodes(a),
        podcast_episodes(b),
        |episode: PodcastEpisode| crate::totals::amount(episode.runtime),
        |episode: PodcastEpisode| (episode.number, episode.id@),
    );
    lemma_figures_any_order(shows(a), shows(b), |id: i32| 0int, |id: i32| id);
    assert(shows(a).map_values(|id: i32| id) =~= shows(a));
    assert(shows(b).map_values(|id: i32| id) =~= shows(b));
    lemma_figures_any_order(
        show_episodes(a),
        show_episodes(b),
        |hit: (ShowSeason, ShowEpisode)| crate::totals::amount(hit.1.runtime),
        |hit: (ShowSeason, ShowEpisode)| (hit.0.season_number, hit.0.id),
    );
}

/// Law: an item of which nothing is known adds nothing to a summary.
pub proof fn law_unknown_adds_nothing(items: Seq<SeenItem>, item: SeenItem, summary: UserSummary)
    requires
        item.1.specifics is Unknown,
    ensures
        is_summary(items.push(item), summary) <==> is_summary(items, summary),
{
    lemma_gather_push(items, item, |item: SeenItem| audio_book_of(item));
    lemma_gather_push(items, item, |item: SeenItem| book_of(item));
    lemma_gather_push(items, item, |item: SeenItem| movie_of(item));
    lemma_gather_push(items, item, |item: SeenItem| video_game_of(item));
    lemma_gather_push(items, item, |item: SeenItem| podcast_of(item));
    lemma_gather_push(items, item, |item: SeenItem| podcast_episodes_of(item));
    lemma_gather_push(items, item, |item: SeenItem| show_of(item));
    lemma_gather_push(items, item, |item: SeenItem| show_episodes_of(item));
    let longer = items.push(item);
    assert(audio_books(longer) =~= audio_books(items));
    assert(books(longer) =~= books(items));
    assert(movies(longer) =~= movies(items));
    assert(video_games(longer) =~= video_games(items));
    assert(podcasts(longer) =~= podcasts(items));
    assert(podcast_episodes(longer) =~= podcast_episodes(items));
    assert(shows(longer) =~= shows(items));
    assert(show_episodes(longer) =~= show_episodes(items));
}

/// Law: going through the same part of a show or podcast again leaves the number of shows,
/// seasons, podcasts and podcast episodes as it is.
pub proof fn law_repeats_are_not_counted_again(
    items: Seq<SeenItem>,
    item: SeenItem,
    before: UserSummary,
    after: UserSummary,
)
    requires
        items.contains(item),
        is_summary(items, before),
        is_summary(items.push(item), after),
    ensures
        after.shows.watched == before.shows.watched,
        after.shows.watched_seasons == before.shows.watched_seasons,
        after.podcasts.played == before.podcasts.played,
        after.podcasts.played_episodes == before.podcasts.played_episodes,
{
    let j = choose|j: int| 0 <= j < items.len() && items[j] == item;
    lemma_repeat(items, j, |item: SeenItem| show_of(item), |id: i32| id);
    lemma_repeat(items, j, |item: SeenItem| podcast_of(item), |id: i32| id);
    lemma_repeat(
        items,
        j,
        |item: SeenItem| show_episodes_of(item),
        |hit: (ShowSeason, ShowEpisode)| (hit.0.season_number, hit.0.id),
    );
    lemma_repeat(
        items,
        j,
        |item: SeenItem| podcast_episodes_of(item),
        |episode: PodcastEpisode| (episode.number, episode.id@),
    );
    let longer = items.push(item);
    assert(shows(items).map_values(|id: i32| id) =~= shows(items));
    assert(shows(longer).map_values(|id: i32| id) =~= shows(longer));
    assert(podcasts(items).map_values(|id: i32| id) =~= podcasts(items));
    assert(podcasts(longer).map_values(|id: i32| id) =~= podcasts(longer));
}

/// What an item contributes is among what all items contribute.
proof fn lemma_gather_contains<T>(items: Seq<SeenItem>, j: int, part: spec_fn(SeenItem) -> Seq<T>, x: T)
    requires
        0 <= j < items.len(),
        part(items[j]).contains(x),
    ensures
        gather(items, part).contains(x),
    decreases items.len(),
{
    let rest = gather(items.drop_last(), part);
    let own = part(items.last());
    if j == items.len() - 1 {
        let k = choose|k: int| 0 <= k < own.len() && own[k] == x;
        assert((rest + own)[rest.len() + k] == x);
    } else {
        lemma_gather_contains(items.drop_last(), j, part, x);
        let k = choose|k: int| 0 <= k < rest.len() && rest[k] == x;
        assert((rest + own)[k] == x);
    }
}

proof fn lemma_repeat<T, K>(
    items: Seq<SeenItem>,
    j: int,
    part: spec_fn(SeenItem) -> Seq<T>,
    key: spec_fn(T) -> K,
)
    requires
        0 <= j < items.len(),
    ensures
        gather(items.push(items[j]), part).map_values(key).to_set() == gather(
            items,
            part,
        ).map_values(key).to_set(),
{
    lemma_gather_push(items, items[j], part);
    let all = gather(items, part);
    let own = part(items[j]);
    assert forall|k: K| #[trigger] (all + own).map_values(key).to_set().contains(k)
        <==> all.map_values(key).to_set().contains(k) by {
        if all.map_values(key).contains(k) {
            let i = choose|i: int| 0 <= i < all.len() && all.map_values(key)[i] == k;
            assert((all + own).map_values(key)[i] == k);
        }
        if (all + own).map_values(key).contains(k) {
            let i = choose|i: int|
                0 <= i < (all + own).len() && (all + own).map_values(key)[i] == k;
            if i < all.len() {
                assert(all.map_values(key)[i] == k);
            } else {
                let x = own[i - all.len()];
                assert(own.contains(x));
                lemma_gather_contains(items, j, part, x);
                let m = choose|m: int| 0 <= m < all.len() && all[m] == x;
                assert(all.map_values(key)[m] == k);
            }
        }
    }
    assert((all + own).map_values(key).to_set() =~= all.map_values(key).to_set());
}

} // verus!
