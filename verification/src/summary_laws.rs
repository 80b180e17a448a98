//! What a summary must satisfy: how each finished item, and each part of it, changes the
//! figures, and when figures can be given at all.
use vstd::prelude::*;

use crate::media::{
    MediaSpecifics, PodcastEpisode, SeenExtraInformation, ShowEpisode, ShowSeason,
};
use crate::summary::{SeenItem, UserSummary};

verus! {

/// What all items contribute is what single items contribute.
proof fn lemma_gather_has<T>(items: Seq<SeenItem>, part: spec_fn(SeenItem) -> Seq<T>, x: T)
    ensures
        crate::summary::gather(items, part).contains(x) <==> exists|i: int|
            0 <= i < items.len() && part(#[trigger] items[i]).contains(x),
    decreases items.len(),
{
    if items.len() > 0 {
        let fewer = items.drop_last();
        let rest = crate::summary::gather(fewer, part);
        let own = part(items.last());
        lemma_gather_has(fewer, part, x);
        if (rest + own).contains(x) {
            let k = choose|k: int| 0 <= k < (rest + own).len() && (rest + own)[k] == x;
            if k < rest.len() {
                assert(rest[k] == x);
                let i = choose|i: int| 0 <= i < fewer.len() && part(#[trigger] fewer[i]).contains(x);
                assert(part(items[i]).contains(x));
            } else {
                assert(own[k - rest.len()] == x);
                assert(part(items[items.len() - 1]).contains(x));
            }
        }
        if exists|i: int| 0 <= i < items.len() && part(#[trigger] items[i]).contains(x) {
            let i = choose|i: int| 0 <= i < items.len() && part(#[trigger] items[i]).contains(x);
            if i < fewer.len() {
                assert(part(fewer[i]).contains(x));
                let k = choose|k: int| 0 <= k < rest.len() && rest[k] == x;
                assert((rest + own)[k] == x);
            } else {
                let k = choose|k: int| 0 <= k < own.len() && own[k] == x;
                assert((rest + own)[rest.len() + k] == x);
            }
        }
    }
}

/// One more entry makes the set of entries larger exactly if it is new.
proof fn lemma_set_grows<T>(s: Seq<T>, x: T)
    ensures
        s.push(x).to_set().len() == s.to_set().len() + if s.contains(x) {
            0int
        } else {
            1
        },
{
    broadcast use vstd::seq_lib::seq_to_set_is_finite;

    crate::totals::lemma_push_to_set(s, x);
    if s.contains(x) {
        assert(s.to_set().insert(x) =~= s.to_set());
    }
}

/// What one more item contributes comes after what was there.
proof fn lemma_item(items: Seq<SeenItem>, item: SeenItem)
    ensures
        crate::summary::audio_books(items.push(item)) == crate::summary::audio_books(items)
            + crate::summary::audio_book_of(item),
        crate::summary::books(items.push(item)) == crate::summary::books(items)
            + crate::summary::book_of(item),
        crate::summary::movies(items.push(item)) == crate::summary::movies(items)
            + crate::summary::movie_of(item),
        crate::summary::video_games(items.push(item)) == crate::summary::video_games(items)
            + crate::summary::video_game_of(item),
        crate::summary::podcasts(items.push(item)) == crate::summary::podcasts(items)
            + crate::summary::podcast_of(item),
        crate::summary::podcast_episodes(items.push(item)) == crate::summary::podcast_episodes(
            items,
        ) + crate::summary::podcast_episodes_of(item),
        crate::summary::shows(items.push(item)) == crate::summary::shows(items)
            + crate::summary::show_of(item),
        crate::summary::show_episodes(items.push(item)) == crate::summary::show_episodes(items)
            + crate::summary::show_episodes_of(item),
{
    crate::summary::lemma_gather_push(items, item, |i: SeenItem| crate::summary::audio_book_of(i));
    crate::summary::lemma_gather_push(items, item, |i: SeenItem| crate::summary::book_of(i));
    crate::summary::lemma_gather_push(items, item, |i: SeenItem| crate::summary::movie_of(i));
    crate::summary::lemma_gather_push(items, item, |i: SeenItem| crate::summary::video_game_of(i));
    crate::summary::lemma_gather_push(items, item, |i: SeenItem| crate::summary::podcast_of(i));
    crate::summary::lemma_gather_push(
        items,
        item,
        |i: SeenItem| crate::summary::podcast_episodes_of(i),
    );
    crate::summary::lemma_gather_push(items, item, |i: SeenItem| crate::summary::show_of(i));
    crate::summary::lemma_gather_push(
        items,
        item,
        |i: SeenItem| crate::summary::show_episodes_of(i),
    );
}

/// Which podcasts are known already.
proof fn lemma_podcast_known(items: Seq<SeenItem>, metadata_id: i32)
    ensures
        crate::summary::podcasts(items).contains(metadata_id) <==> exists|i: int|
            0 <= i < items.len() && (#[trigger] items[i]).1.specifics is Podcast
                && items[i].0.metadata_id == metadata_id,
{
    let part = |i: SeenItem| crate::summary::podcast_of(i);
    lemma_gather_has(items, part, metadata_id);
    if crate::summary::podcasts(items).contains(metadata_id) {
        let i = choose|i: int|
            0 <= i < items.len() && part(#[trigger] items[i]).contains(metadata_id);
        assert(items[i].1.specifics is Podcast && items[i].0.metadata_id == metadata_id);
    }
    if exists|i: int|
        0 <= i < items.len() && (#[trigger] items[i]).1.specifics is Podcast
            && items[i].0.metadata_id == metadata_id {
        let i = choose|i: int|
            0 <= i < items.len() && (#[trigger] items[i]).1.specifics is Podcast
                && items[i].0.metadata_id == metadata_id;
        assert(part(items[i])[0] == metadata_id);
        assert(part(items[i]).contains(metadata_id));
    }
}

/// Which shows are known already.
proof fn lemma_show_known(items: Seq<SeenItem>, metadata_id: i32)
    ensures
        crate::summary::shows(items).contains(metadata_id) <==> exists|i: int|
            0 <= i < items.len() && (#[trigger] items[i]).1.specifics is Show
                && items[i].0.metadata_id == metadata_id,
{
    let part = |i: SeenItem| crate::summary::show_of(i);
    lemma_gather_has(items, part, metadata_id);
    if crate::summary::shows(items).contains(metadata_id) {
        let i = choose|i: int|
            0 <= i < items.len() && part(#[trigger] items[i]).contains(metadata_id);
        assert(items[i].1.specifics is Show && items[i].0.metadata_id == metadata_id);
    }
    if exists|i: int|
        0 <= i < items.len() && (#[trigger] items[i]).1.specifics is Show
            && items[i].0.metadata_id == metadata_id {
        let i = choose|i: int|
            0 <= i < items.len() && (#[trigger] items[i]).1.specifics is Show
                && items[i].0.metadata_id == metadata_id;
        assert(part(items[i])[0] == metadata_id);
        assert(part(items[i]).contains(metadata_id));
    }
}

/// Law: somebody who has finished nothing has a summary, and all of its figures are zero.
pub proof fn law_all_figures_start_at_zero(summary: UserSummary)
    ensures
        crate::summary::summarizable(Seq::empty()),
        crate::summary::is_summary(Seq::empty(), summary) <==> {
            &&& summary.books.pages == 0 && summary.books.read == 0
            &&& summary.movies.runtime == 0 && summary.movies.watched == 0
            &&& summary.podcasts.runtime == 0 && summary.podcasts.played == 0
                && summary.podcasts.played_episodes == 0
            &&& summary.shows.runtime == 0 && summary.shows.watched == 0
                && summary.shows.watched_episodes == 0 && summary.shows.watched_seasons == 0
            &&& summary.video_games.played == 0
            &&& summary.audio_books.runtime == 0 && summary.audio_books.played == 0
        },
{
    crate::summary::law_nothing_seen(summary);
}

/// Law: every finished book, movie, audio book and video game counts once each time it was
/// finished. What is known of its length is added, and where nothing is known, nothing is. A
/// podcast or a show counts the first time that something of it comes. Nothing else changes.
pub proof fn law_finished_item_is_counted(
    items: Seq<SeenItem>,
    item: SeenItem,
    before: UserSummary,
    after: UserSummary,
)
    requires
        crate::summary::is_summary(items, before),
        crate::summary::is_summary(items.push(item), after),
    ensures
        after.books.read == before.books.read + if item.1.specifics is Book {
            1int
        } else {
            0
        },
        after.books.pages == before.books.pages + match item.1.specifics {
            MediaSpecifics::Book(book) => match book.pages {
                Some(pages) => pages as int,
                None => 0,
            },
            _ => 0,
        },
        after.movies.watched == before.movies.watched + if item.1.specifics is Movie {
            1int
        } else {
            0
        },
        after.movies.runtime == before.movies.runtime + match item.1.specifics {
            MediaSpecifics::Movie(movie) => match movie.runtime {
                Some(runtime) => runtime as int,
                None => 0,
            },
            _ => 0,
        },
        after.audio_books.played == before.audio_books.played + if item.1.specifics is AudioBook {
            1int
        } else {
            0
        },
        after.audio_books.runtime == before.audio_books.runtime + match item.1.specifics {
            MediaSpecifics::AudioBook(book) => match book.runtime {
                Some(runtime) => runtime as int,
                None => 0,
            },
            _ => 0,
        },
        after.video_games.played == before.video_games.played + if item.1.specifics is VideoGame {
            1int
        } else {
            0
        },
        !(item.1.specifics is Podcast) ==> after.podcasts == before.podcasts,
        item.1.specifics is Podcast ==> {
            let known = exists|i: int|
                0 <= i < items.len() && (#[trigger] items[i]).1.specifics is Podcast
                    && items[i].0.metadata_id == item.0.metadata_id;
            after.podcasts.played == before.podcasts.played + if known {
                0int
            } else {
                1
            }
        },
        !(item.1.specifics is Show) ==> after.shows == before.shows,
        item.1.specifics is Show ==> {
            let known = exists|i: int|
                0 <= i < items.len() && (#[trigger] items[i]).1.specifics is Show
                    && items[i].0.metadata_id == item.0.metadata_id;
            after.shows.watched == before.shows.watched + if known {
                0int
            } else {
                1
            }
        },
{
    let longer = items.push(item);
    lemma_item(items, item);
    lemma_plain_figures(items, item);
    match item.1.specifics {
        MediaSpecifics::Podcast(_) => {
            let id = item.0.metadata_id;
            assert(crate::summary::podcasts(longer) =~= crate::summary::podcasts(items).push(id));
            lemma_set_grows(crate::summary::podcasts(items), id);
            lemma_podcast_known(items, id);
        },
        _ => {
            assert(crate::summary::podcasts(longer) =~= crate::summary::podcasts(items));
            assert(crate::summary::podcast_episodes(longer) =~= crate::summary::podcast_episodes(
                items,
            ));
        },
    }
    match item.1.specifics {
        MediaSpecifics::Show(_) => {
            let id = item.0.metadata_id;
            assert(crate::summary::shows(longer) =~= crate::summary::shows(items).push(id));
            lemma_set_grows(crate::summary::shows(items), id);
            lemma_show_known(items, id);
        },
        _ => {
            assert(crate::summary::shows(longer) =~= crate::summary::shows(items));
            assert(crate::summary::show_episodes(longer) =~= crate::summary::show_episodes(items));
        },
    }
}

/// How one more item changes the figures of books, movies, audio books and video games, and
/// whether they stay in range.
proof fn lemma_plain_figures(items: Seq<SeenItem>, item: SeenItem)
    ensures
        match item.1.specifics {
            MediaSpecifics::Book(book) => {
                &&& crate::summary::books(items.push(item)).len() == crate::summary::books(
                    items,
                ).len() + 1
                &&& crate::summary::book_pages(items.push(item)) == crate::summary::book_pages(
                    items,
                ).push(crate::totals::amount(book.pages))
            },
            _ => crate::summary::books(items.push(item)) == crate::summary::books(items),
        },
        match item.1.specifics {
            MediaSpecifics::Movie(movie) => {
                &&& crate::summary::movies(items.push(item)).len() == crate::summary::movies(
                    items,
                ).len() + 1
                &&& crate::summary::movie_runtimes(items.push(item))
                    == crate::summary::movie_runtimes(items).push(
                    crate::totals::amount(movie.runtime),
                )
            },
            _ => crate::summary::movies(items.push(item)) == crate::summary::movies(items),
        },
        match item.1.specifics {
            MediaSpecifics::AudioBook(book) => {
                &&& crate::summary::audio_books(items.push(item)).len()
                    == crate::summary::audio_books(items).len() + 1
                &&& crate::summary::audio_book_runtimes(items.push(item))
                    == crate::summary::audio_book_runtimes(items).push(
                    crate::totals::amount(book.runtime),
                )
            },
            _ => crate::summary::audio_books(items.push(item)) == crate::summary::audio_books(
                items,
            ),
        },
        match item.1.specifics {
            MediaSpecifics::VideoGame(_) => crate::summary::video_games(items.push(item)).len()
                == crate::summary::video_games(items).len() + 1,
            _ => crate::summary::video_games(items.push(item)) == crate::summary::video_games(
                items,
            ),
        },
        forall|amounts: Seq<int>, a: int|
            crate::totals::sum(#[trigger] amounts.push(a)) == crate::totals::sum(amounts) + a,
{
    let longer = items.push(item);
    lemma_item(items, item);
    assert forall|amounts: Seq<int>, a: int|
        crate::totals::sum(#[trigger] amounts.push(a)) == crate::totals::sum(amounts) + a by {
        crate::totals::lemma_sum_push(amounts, a);
    }
    match item.1.specifics {
        MediaSpecifics::Book(book) => {
            assert(crate::summary::book_pages(longer) =~= crate::summary::book_pages(items).push(
                crate::totals::amount(book.pages),
            ));
        },
        _ => {
            assert(crate::summary::books(longer) =~= crate::summary::books(items));
        },
    }
    match item.1.specifics {
        MediaSpecifics::Movie(movie) => {
            assert(crate::summary::movie_runtimes(longer) =~= crate::summary::movie_runtimes(
                items,
            ).push(crate::totals::amount(movie.runtime)));
        },
        _ => {
            assert(crate::summary::movies(longer) =~= crate::summary::movies(items));
        },
    }
    match item.1.specifics {
        MediaSpecifics::AudioBook(book) => {
            assert(crate::summary::audio_book_runtimes(longer)
                =~= crate::summary::audio_book_runtimes(items).push(
                crate::totals::amount(book.runtime),
            ));
        },
        _ => {
            assert(crate::summary::audio_books(longer) =~= crate::summary::audio_books(items));
        },
    }
    match item.1.specifics {
        MediaSpecifics::VideoGame(_) => {},
        _ => {
            assert(crate::summary::video_games(longer) =~= crate::summary::video_games(items));
        },
    }
}

/// Law: the number of books, movies, audio books and video games is the number of finished
/// entries about one, whatever else is known of them.
pub proof fn law_counts_are_numbers_of_entries(items: Seq<SeenItem>, summary: UserSummary)
    requires
        crate::summary::is_summary(items, summary),
    ensures
        summary.books.read == items.filter(|item: SeenItem| item.1.specifics is Book).len(),
        summary.movies.watched == items.filter(|item: SeenItem| item.1.specifics is Movie).len(),
        summary.audio_books.played == items.filter(
            |item: SeenItem| item.1.specifics is AudioBook,
        ).len(),
        summary.video_games.played == items.filter(
            |item: SeenItem| item.1.specifics is VideoGame,
        ).len(),
{
    lemma_counts(items);
}

proof fn lemma_counts(items: Seq<SeenItem>)
    ensures
        crate::summary::books(items).len() == items.filter(
            |item: SeenItem| item.1.specifics is Book,
        ).len(),
        crate::summary::movies(items).len() == items.filter(
            |item: SeenItem| item.1.specifics is Movie,
        ).len(),
        crate::summary::audio_books(items).len() == items.filter(
            |item: SeenItem| item.1.specifics is AudioBook,
        ).len(),
        crate::summary::video_games(items).len() == items.filter(
            |item: SeenItem| item.1.specifics is VideoGame,
        ).len(),
    decreases items.len(),
{
    reveal(Seq::filter);
    if items.len() > 0 {
        lemma_counts(items.drop_last());
        assert(items =~= items.drop_last().push(items.last()));
        lemma_plain_figures(items.drop_last(), items.last());
    }
}

/// Which podcast episodes are known already.
proof fn lemma_heard(items: Seq<SeenItem>, number: i32, id: Seq<char>)
    ensures
        crate::summary::podcast_episode_keys(items).contains((number, id)) <==> exists|i: int|
            0 <= i < items.len() && match (
                (#[trigger] items[i]).1.specifics,
                items[i].0.extra_information,
            ) {
                (
                    MediaSpecifics::Podcast(podcast),
                    Some(SeenExtraInformation::Podcast(heard)),
                ) => heard.episode == number && exists|j: int|
                    0 <= j < podcast.episodes@.len() && (#[trigger] podcast.episodes@[j]).number
                        == number && podcast.episodes@[j].id@ == id,
                _ => false,
            },
{
    let part = |i: SeenItem| crate::summary::podcast_episodes_of(i);
    let key = |episode: PodcastEpisode| (episode.number, episode.id@);
    let all = crate::summary::podcast_episodes(items);
    if all.map_values(key).contains((number, id)) {
        let k = choose|k: int| 0 <= k < all.len() && all.map_values(key)[k] == (number, id);
        let episode = all[k];
        assert(all.contains(episode));
        lemma_gather_has(items, part, episode);
        let i = choose|i: int| 0 <= i < items.len() && part(#[trigger] items[i]).contains(episode);
        match (items[i].1.specifics, items[i].0.extra_information) {
            (
                MediaSpecifics::Podcast(podcast),
                Some(SeenExtraInformation::Podcast(heard)),
            ) => {
                let pick = |e: PodcastEpisode| e.number == heard.episode;
                let own = podcast.episodes@.filter(pick);
                let m = choose|m: int| 0 <= m < own.len() && own[m] == episode;
                crate::reviews::lemma_filtered(podcast.episodes@, pick, m);
                let j = choose|j: int|
                    0 <= j < podcast.episodes@.len() && podcast.episodes@[j] == episode;
                assert(podcast.episodes@[j].number == number);
            },
            _ => {},
        }
    }
    if exists|i: int|
        0 <= i < items.len() && match (
            (#[trigger] items[i]).1.specifics,
            items[i].0.extra_information,
        ) {
            (
                MediaSpecifics::Podcast(podcast),
                Some(SeenExtraInformation::Podcast(heard)),
            ) => heard.episode == number && exists|j: int|
                0 <= j < podcast.episodes@.len() && (#[trigger] podcast.episodes@[j]).number
                    == number && podcast.episodes@[j].id@ == id,
            _ => false,
        } {
        let i = choose|i: int|
            0 <= i < items.len() && match (
                (#[trigger] items[i]).1.specifics,
                items[i].0.extra_information,
            ) {
                (
                    MediaSpecifics::Podcast(podcast),
                    Some(SeenExtraInformation::Podcast(heard)),
                ) => heard.episode == number && exists|j: int|
                    0 <= j < podcast.episodes@.len() && (#[trigger] podcast.episodes@[j]).number
                        == number && podcast.episodes@[j].id@ == id,
                _ => false,
            };
        match (items[i].1.specifics, items[i].0.extra_information) {
            (
                MediaSpecifics::Podcast(podcast),
                Some(SeenExtraInformation::Podcast(heard)),
            ) => {
                let j = choose|j: int|
                    0 <= j < podcast.episodes@.len() && (#[trigger] podcast.episodes@[j]).number
                        == number && podcast.episodes@[j].id@ == id;
                let episode = podcast.episodes@[j];
                crate::reviews::lemma_kept(
                    podcast.episodes@,
                    |e: PodcastEpisode| e.number == heard.episode,
                    j,
                );
                assert(part(items[i]).contains(episode));
                lemma_gather_has(items, part, episode);
                let k = choose|k: int| 0 <= k < all.len() && all[k] == episode;
                assert(all.map_values(key)[k] == (number, id));
            },
            _ => {},
        }
    }
}

/// How one more episode at the end of a podcast changes what was heard.
proof fn lemma_longer_podcast(
    items: Seq<SeenItem>,
    shorter: SeenItem,
    longer: SeenItem,
    episode: PodcastEpisode,
)
    requires
        shorter.1.specifics is Podcast,
        longer.1.specifics is Podcast,
        longer.1.specifics->Podcast_0.episodes@ == shorter.1.specifics->Podcast_0.episodes@.push(
            episode,
        ),
        longer.0.metadata_id == shorter.0.metadata_id,
        longer.0.extra_information == shorter.0.extra_information,
    ensures
        crate::summary::audio_books(items.push(longer)) == crate::summary::audio_books(
            items.push(shorter),
        ),
        crate::summary::books(items.push(longer)) == crate::summary::books(items.push(shorter)),
        crate::summary::movies(items.push(longer)) == crate::summary::movies(items.push(shorter)),
        crate::summary::video_games(items.push(longer)) == crate::summary::video_games(
            items.push(shorter),
        ),
        crate::summary::podcasts(items.push(longer)) == crate::summary::podcasts(
            items.push(shorter),
        ),
        crate::summary::shows(items.push(longer)) == crate::summary::shows(items.push(shorter)),
        crate::summary::show_episodes(items.push(longer)) == crate::summary::show_episodes(
            items.push(shorter),
        ),
        crate::summary::podcast_episodes(items.push(longer)) == match shorter.0.extra_information {
            Some(SeenExtraInformation::Podcast(heard)) => if heard.episode == episode.number {
                crate::summary::podcast_episodes(items.push(shorter)).push(episode)
            } else {
                crate::summary::podcast_episodes(items.push(shorter))
            },
            _ => crate::summary::podcast_episodes(items.push(shorter)),
        },
{
    lemma_item(items, shorter);
    lemma_item(items, longer);
    let few = shorter.1.specifics->Podcast_0.episodes@;
    let more = longer.1.specifics->Podcast_0.episodes@;
    match shorter.0.extra_information {
        Some(SeenExtraInformation::Podcast(heard)) => {
            reveal(Seq::filter);
            assert(more.drop_last() =~= few);
            assert(crate::summary::podcast_episodes(items.push(longer)) =~= if heard.episode
                == episode.number {
                crate::summary::podcast_episodes(items.push(shorter)).push(episode)
            } else {
                crate::summary::podcast_episodes(items.push(shorter))
            });
        },
        _ => {},
    }
}

/// Law: of a podcast without episodes, or of which no episode was named, no episode was heard.
pub proof fn law_podcast_without_episode(
    items: Seq<SeenItem>,
    item: SeenItem,
    before: UserSummary,
    after: UserSummary,
)
    requires
        item.1.specifics is Podcast,
        item.1.specifics->Podcast_0.episodes@.len() == 0 || item.0.extra_information is None,
        crate::summary::is_summary(items, before),
        crate::summary::is_summary(items.push(item), after),
    ensures
        after.podcasts.runtime == before.podcasts.runtime,
        after.podcasts.played_episodes == before.podcasts.played_episodes,
{
    lemma_item(items, item);
    reveal(Seq::filter);
    assert(crate::summary::podcast_episodes_of(item) =~= Seq::<PodcastEpisode>::empty());
    assert(crate::summary::podcast_episodes(items.push(item)) =~= crate::summary::podcast_episodes(
        items,
    ));
}

/// Law: one more episode at the end of a podcast counts exactly if it carries the number that
/// was heard. Then its length is added each time, and it is a new episode exactly if none of
/// its number and id was heard before.
pub proof fn law_heard_episode_is_counted(
    items: Seq<SeenItem>,
    shorter: SeenItem,
    longer: SeenItem,
    episode: PodcastEpisode,
    before: UserSummary,
    after: UserSummary,
)
    requires
        shorter.1.specifics is Podcast,
        longer.1.specifics is Podcast,
        longer.1.specifics->Podcast_0.episodes@ == shorter.1.specifics->Podcast_0.episodes@.push(
            episode,
        ),
        longer.0.metadata_id == shorter.0.metadata_id,
        longer.0.extra_information == shorter.0.extra_information,
        crate::summary::is_summary(items.push(shorter), before),
        crate::summary::is_summary(items.push(longer), after),
    ensures
        after.books == before.books,
        after.movies == before.movies,
        after.audio_books == before.audio_books,
        after.video_games == before.video_games,
        after.shows == before.shows,
        after.podcasts.played == before.podcasts.played,
        ({
            let earlier = items.push(shorter);
            let hit = match shorter.0.extra_information {
                Some(SeenExtraInformation::Podcast(heard)) => heard.episode == episode.number,
                _ => false,
            };
            let known = exists|i: int|
                0 <= i < earlier.len() && match (
                    (#[trigger] earlier[i]).1.specifics,
                    earlier[i].0.extra_information,
                ) {
                    (
                        MediaSpecifics::Podcast(podcast),
                        Some(SeenExtraInformation::Podcast(heard)),
                    ) => heard.episode == episode.number && exists|j: int|
                        0 <= j < podcast.episodes@.len() && (#[trigger] podcast.episodes@[j]).number
                            == episode.number && podcast.episodes@[j].id@ == episode.id@,
                    _ => false,
                };
            &&& !hit ==> after == before
            &&& hit ==> after.podcasts.runtime == before.podcasts.runtime + match episode.runtime {
                Some(runtime) => runtime as int,
                None => 0,
            }
            &&& hit ==> after.podcasts.played_episodes == before.podcasts.played_episodes + if known {
                0int
            } else {
                1
            }
        }),
{
    lemma_longer_podcast(items, shorter, longer, episode);
    lemma_new_podcast_episode(items.push(shorter), items.push(longer), episode);
    lemma_heard(items.push(shorter), episode.number, episode.id@);
}

/// One more episode that was heard.
proof fn lemma_new_podcast_episode(
    earlier: Seq<SeenItem>,
    later: Seq<SeenItem>,
    episode: PodcastEpisode,
)
    ensures
        crate::summary::podcast_episodes(later) == crate::summary::podcast_episodes(earlier).push(
            episode,
        ) ==> {
            &&& crate::summary::podcast_runtimes(later) == crate::summary::podcast_runtimes(
                earlier,
            ).push(crate::totals::amount(episode.runtime))
            &&& crate::totals::sum(crate::summary::podcast_runtimes(later)) == crate::totals::sum(
                crate::summary::podcast_runtimes(earlier),
            ) + crate::totals::amount(episode.runtime)
            &&& crate::summary::podcast_episode_keys(later).to_set().len()
                == crate::summary::podcast_episode_keys(earlier).to_set().len()
                + if crate::summary::podcast_episode_keys(earlier).contains(
                (episode.number, episode.id@),
            ) {
                0int
            } else {
                1
            }
        },
{
    if crate::summary::podcast_episodes(later) == crate::summary::podcast_episodes(earlier).push(
        episode,
    ) {
        let amount = crate::totals::amount(episode.runtime);
        let key = (episode.number, episode.id@);
        assert(crate::summary::podcast_runtimes(later) =~= crate::summary::podcast_runtimes(
            earlier,
        ).push(amount));
        crate::totals::lemma_sum_push(crate::summary::podcast_runtimes(earlier), amount);
        assert(crate::summary::podcast_episode_keys(later)
            =~= crate::summary::podcast_episode_keys(earlier).push(key));
        lemma_set_grows(crate::summary::podcast_episode_keys(earlier), key);
    }
}

/// Which seasons an item has hit.
proof fn lemma_hits(
    seasons: Seq<ShowSeason>,
    watched: crate::media::SeenShowExtraInformation,
    number: i32,
    id: i32,
)
    ensures
        crate::summary::show_hits(seasons, watched).map_values(
            |hit: (ShowSeason, ShowEpisode)| (hit.0.season_number, hit.0.id),
        ).contains((number, id)) <==> watched.season == number && exists|j: int, k: int|
            0 <= j < seasons.len() && 0 <= k < seasons[j].episodes@.len()
                && seasons[j].season_number == number && seasons[j].id == id
                && (#[trigger] seasons[j].episodes@[k]).episode_number == watched.episode,
    decreases seasons.len(),
{
    let key = |hit: (ShowSeason, ShowEpisode)| (hit.0.season_number, hit.0.id);
    if seasons.len() > 0 {
        let fewer = seasons.drop_last();
        let last = seasons.last();
        lemma_hits(fewer, watched, number, id);
        let rest = crate::summary::show_hits(fewer, watched).map_values(key);
        let own = crate::summary::season_hits(last, watched).map_values(key);
        let all = crate::summary::show_hits(seasons, watched).map_values(key);
        assert(all =~= rest + own);
        let pick = |e: ShowEpisode| e.episode_number == watched.episode;
        let picked = last.episodes@.filter(pick);
        if all.contains((number, id)) {
            let m = choose|m: int| 0 <= m < all.len() && all[m] == (number, id);
            if m < rest.len() {
                assert(rest[m] == (number, id));
                let (j, k) = choose|j: int, k: int|
                    0 <= j < fewer.len() && 0 <= k < fewer[j].episodes@.len()
                        && fewer[j].season_number == number && fewer[j].id == id
                        && (#[trigger] fewer[j].episodes@[k]).episode_number == watched.episode;
                assert(seasons[j].episodes@[k].episode_number == watched.episode);
            } else {
                assert(own[m - rest.len()] == (number, id));
                crate::reviews::lemma_filtered(last.episodes@, pick, m - rest.len());
                let episode = picked[m - rest.len()];
                let k = choose|k: int|
                    0 <= k < last.episodes@.len() && last.episodes@[k] == episode;
                assert(seasons[seasons.len() - 1].episodes@[k].episode_number == watched.episode);
            }
        }
        if watched.season == number && exists|j: int, k: int|
            0 <= j < seasons.len() && 0 <= k < seasons[j].episodes@.len()
                && seasons[j].season_number == number && seasons[j].id == id
                && (#[trigger] seasons[j].episodes@[k]).episode_number == watched.episode {
            let (j, k) = choose|j: int, k: int|
                0 <= j < seasons.len() && 0 <= k < seasons[j].episodes@.len()
                    && seasons[j].season_number == number && seasons[j].id == id
                    && (#[trigger] seasons[j].episodes@[k]).episode_number == watched.episode;
            if j < fewer.len() {
                assert(fewer[j].episodes@[k].episode_number == watched.episode);
                let m = choose|m: int| 0 <= m < rest.len() && rest[m] == (number, id);
                assert(all[m] == (number, id));
            } else {
                crate::reviews::lemma_kept(last.episodes@, pick, k);
                let m = choose|m: int|
                    0 <= m < picked.len() && picked[m] == last.episodes@[k];
                assert(own[m] == (number, id));
                assert(all[rest.len() + m] == (number, id));
            }
        }
    }
}

/// Which seasons are known already.
proof fn lemma_watched(items: Seq<SeenItem>, number: i32, id: i32)
    ensures
        crate::summary::season_keys(items).contains((number, id)) <==> exists|i: int|
            0 <= i < items.len() && match (
                (#[trigger] items[i]).1.specifics,
                items[i].0.extra_information,
            ) {
                (
                    MediaSpecifics::Show(show),
                    Some(SeenExtraInformation::Show(watched)),
                ) => watched.season == number && exists|j: int, k: int|
                    0 <= j < show.seasons@.len() && 0 <= k < show.seasons@[j].episodes@.len()
                        && show.seasons@[j].season_number == number && show.seasons@[j].id == id
                        && (#[trigger] show.seasons@[j].episodes@[k]).episode_number
                        == watched.episode,
                _ => false,
            },
{
    let part = |i: SeenItem| crate::summary::show_episodes_of(i);
    let key = |hit: (ShowSeason, ShowEpisode)| (hit.0.season_number, hit.0.id);
    let all = crate::summary::show_episodes(items);
    if all.map_values(key).contains((number, id)) {
        let m = choose|m: int| 0 <= m < all.len() && all.map_values(key)[m] == (number, id);
        let hit = all[m];
        assert(all.contains(hit));
        lemma_gather_has(items, part, hit);
        let i = choose|i: int| 0 <= i < items.len() && part(#[trigger] items[i]).contains(hit);
        match (items[i].1.specifics, items[i].0.extra_information) {
            (
                MediaSpecifics::Show(show),
                Some(SeenExtraInformation::Show(watched)),
            ) => {
                let own = crate::summary::show_hits(show.seasons@, watched);
                let k = choose|k: int| 0 <= k < own.len() && own[k] == hit;
                assert(own.map_values(key)[k] == (number, id));
                lemma_hits(show.seasons@, watched, number, id);
            },
            _ => {},
        }
    }
    if exists|i: int|
        0 <= i < items.len() && match (
            (#[trigger] items[i]).1.specifics,
            items[i].0.extra_information,
        ) {
            (
                MediaSpecifics::Show(show),
                Some(SeenExtraInformation::Show(watched)),
            ) => watched.season == number && exists|j: int, k: int|
                0 <= j < show.seasons@.len() && 0 <= k < show.seasons@[j].episodes@.len()
                    && show.seasons@[j].season_number == number && show.seasons@[j].id == id
                    && (#[trigger] show.seasons@[j].episodes@[k]).episode_number
                    == watched.episode,
            _ => false,
        } {
        let i = choose|i: int|
            0 <= i < items.len() && match (
                (#[trigger] items[i]).1.specifics,
                items[i].0.extra_information,
            ) {
                (
                    MediaSpecifics::Show(show),
                    Some(SeenExtraInformation::Show(watched)),
                ) => watched.season == number && exists|j: int, k: int|
                    0 <= j < show.seasons@.len() && 0 <= k < show.seasons@[j].episodes@.len()
                        && show.seasons@[j].season_number == number && show.seasons@[j].id == id
                        && (#[trigger] show.seasons@[j].episodes@[k]).episode_number
                        == watched.episode,
                _ => false,
            };
        match (items[i].1.specifics, items[i].0.extra_information) {
            (
                MediaSpecifics::Show(show),
                Some(SeenExtraInformation::Show(watched)),
            ) => {
                lemma_hits(show.seasons@, watched, number, id);
                let own = crate::summary::show_hits(show.seasons@, watched);
                let k = choose|k: int|
                    0 <= k < own.len() && own.map_values(key)[k] == (number, id);
                assert(part(items[i]).contains(own[k]));
                lemma_gather_has(items, part, own[k]);
                let m = choose|m: int| 0 <= m < all.len() && all[m] == own[k];
                assert(all.map_values(key)[m] == (number, id));
            },
            _ => {},
        }
    }
}

/// How one more episode at the end of the last season changes what was watched.
proof fn lemma_longer_show(
    items: Seq<SeenItem>,
    shorter: SeenItem,
    longer: SeenItem,
    episode: ShowEpisode,
)
    requires
        shorter.1.specifics is Show,
        longer.1.specifics is Show,
        ({
            let few = shorter.1.specifics->Show_0.seasons@;
            let more = longer.1.specifics->Show_0.seasons@;
            &&& few.len() > 0 && more.len() > 0
            &&& more.drop_last() == few.drop_last()
            &&& more.last().id == few.last().id
            &&& more.last().season_number == few.last().season_number
            &&& more.last().episodes@ == few.last().episodes@.push(episode)
        }),
        longer.0.metadata_id == shorter.0.metadata_id,
        longer.0.extra_information == shorter.0.extra_information,
    ensures
        ({
            let season = shorter.1.specifics->Show_0.seasons@.last();
            let hit = match shorter.0.extra_information {
                Some(SeenExtraInformation::Show(watched)) => watched.season == season.season_number
                    && watched.episode == episode.episode_number,
                _ => false,
            };
            let runtimes = crate::summary::show_runtimes(items.push(shorter));
            let keys = crate::summary::season_keys(items.push(shorter));
            &&& crate::summary::show_runtimes(items.push(longer)) == if hit {
                runtimes.push(crate::totals::amount(episode.runtime))
            } else {
                runtimes
            }
            &&& crate::summary::season_keys(items.push(longer)) == if hit {
                keys.push((season.season_number, season.id))
            } else {
                keys
            }
            &&& crate::summary::show_episodes(items.push(longer)).len()
                == crate::summary::show_episodes(items.push(shorter)).len() + if hit {
                1int
            } else {
                0
            }
        }),
{
    lemma_item(items, shorter);
    lemma_item(items, longer);
    let key = |hit: (ShowSeason, ShowEpisode)| (hit.0.season_number, hit.0.id);
    let runtime = |hit: (ShowSeason, ShowEpisode)| crate::totals::amount(hit.1.runtime);
    let few = shorter.1.specifics->Show_0.seasons@;
    let more = longer.1.specifics->Show_0.seasons@;
    match shorter.0.extra_information {
        Some(SeenExtraInformation::Show(watched)) => {
            reveal(Seq::filter);
            assert(more.last().episodes@.drop_last() =~= few.last().episodes@);
            let rest = crate::summary::show_hits(few.drop_last(), watched);
            let old_own = crate::summary::season_hits(few.last(), watched);
            let new_own = crate::summary::season_hits(more.last(), watched);
            let hit = watched.season == few.last().season_number && watched.episode
                == episode.episode_number;
            assert(new_own.map_values(runtime) =~= if hit {
                old_own.map_values(runtime).push(crate::totals::amount(episode.runtime))
            } else {
                old_own.map_values(runtime)
            });
            assert(new_own.map_values(key) =~= if hit {
                old_own.map_values(key).push((few.last().season_number, few.last().id))
            } else {
                old_own.map_values(key)
            });
            let before = crate::summary::show_episodes(items);
            assert(crate::summary::show_runtimes(items.push(longer)) =~= before.map_values(runtime)
                + rest.map_values(runtime) + new_own.map_values(runtime));
            assert(crate::summary::show_runtimes(items.push(shorter)) =~= before.map_values(runtime)
                + rest.map_values(runtime) + old_own.map_values(runtime));
            assert(crate::summary::season_keys(items.push(longer)) =~= before.map_values(key)
                + rest.map_values(key) + new_own.map_values(key));
            assert(crate::summary::season_keys(items.push(shorter)) =~= before.map_values(key)
                + rest.map_values(key) + old_own.map_values(key));
            assert(crate::summary::show_runtimes(items.push(longer)) =~= if hit {
                crate::summary::show_runtimes(items.push(shorter)).push(
                    crate::totals::amount(episode.runtime),
                )
            } else {
                crate::summary::show_runtimes(items.push(shorter))
            });
            assert(crate::summary::season_keys(items.push(longer)) =~= if hit {
                crate::summary::season_keys(items.push(shorter)).push(
                    (few.last().season_number, few.last().id),
                )
            } else {
                crate::summary::season_keys(items.push(shorter))
            });
            assert(new_own.len() == new_own.map_values(key).len());
            assert(old_own.len() == old_own.map_values(key).len());
        },
        _ => {},
    }
}

/// Shows do not touch the figures of other kinds.
proof fn lemma_other_kinds(items: Seq<SeenItem>, a: SeenItem, b: SeenItem)
    requires
        a.1.specifics is Show,
        b.1.specifics is Show,
        a.0.metadata_id == b.0.metadata_id,
    ensures
        crate::summary::audio_books(items.push(a)) == crate::summary::audio_books(items.push(b)),
        crate::summary::books(items.push(a)) == crate::summary::books(items.push(b)),
        crate::summary::movies(items.push(a)) == crate::summary::movies(items.push(b)),
        crate::summary::video_games(items.push(a)) == crate::summary::video_games(items.push(b)),
        crate::summary::podcasts(items.push(a)) == crate::summary::podcasts(items.push(b)),
        crate::summary::podcast_episodes(items.push(a)) == crate::summary::podcast_episodes(
            items.push(b),
        ),
        crate::summary::shows(items.push(a)) == crate::summary::shows(items.push(b)),
{
    lemma_item(items, a);
    lemma_item(items, b);
}

/// Law: of a show without seasons, no episode was watched.
pub proof fn law_show_without_season(
    items: Seq<SeenItem>,
    item: SeenItem,
    before: UserSummary,
    after: UserSummary,
)
    requires
        item.1.specifics is Show,
        item.1.specifics->Show_0.seasons@.len() == 0,
        crate::summary::is_summary(items, before),
        crate::summary::is_summary(items.push(item), after),
    ensures
        after.shows.runtime == before.shows.runtime,
        after.shows.watched_episodes == before.shows.watched_episodes,
        after.shows.watched_seasons == before.shows.watched_seasons,
{
    lemma_item(items, item);
    assert(crate::summary::show_episodes(items.push(item)) =~= crate::summary::show_episodes(
        items,
    ));
}

/// Law: one more season without episodes at the end of a show changes nothing.
pub proof fn law_season_without_episode(
    items: Seq<SeenItem>,
    shorter: SeenItem,
    longer: SeenItem,
    season: ShowSeason,
    summary: UserSummary,
)
    requires
        shorter.1.specifics is Show,
        longer.1.specifics is Show,
        longer.1.specifics->Show_0.seasons@ == shorter.1.specifics->Show_0.seasons@.push(season),
        season.episodes@.len() == 0,
        longer.0.metadata_id == shorter.0.metadata_id,
        longer.0.extra_information == shorter.0.extra_information,
    ensures
        crate::summary::is_summary(items.push(longer), summary) <==> crate::summary::is_summary(
            items.push(shorter),
            summary,
        ),
        crate::summary::summarizable(items.push(longer)) <==> crate::summary::summarizable(
            items.push(shorter),
        ),
{
    lemma_other_kinds(items, shorter, longer);
    lemma_item(items, shorter);
    lemma_item(items, longer);
    lemma_empty_season(items, shorter, longer, season);
    lemma_agreement(items, shorter);
    lemma_agreement(items, longer);
    let few = shorter.1.specifics->Show_0.seasons@;
    let more = longer.1.specifics->Show_0.seasons@;
    if crate::summary::no_episodes(few) {
        assert forall|i: int| 0 <= i < more.len() implies #[trigger] more[i].episodes@.len()
            == 0 by {
            if i < few.len() {
                assert(few[i].episodes@.len() == 0);
            }
        }
    }
    if crate::summary::no_episodes(more) {
        assert forall|i: int| 0 <= i < few.len() implies #[trigger] few[i].episodes@.len() == 0 by {
            assert(more[i].episodes@.len() == 0);
        }
    }
}

proof fn lemma_empty_season(
    items: Seq<SeenItem>,
    shorter: SeenItem,
    longer: SeenItem,
    season: ShowSeason,
)
    requires
        shorter.1.specifics is Show,
        longer.1.specifics is Show,
        longer.1.specifics->Show_0.seasons@ == shorter.1.specifics->Show_0.seasons@.push(season),
        season.episodes@.len() == 0,
        longer.0.extra_information == shorter.0.extra_information,
    ensures
        crate::summary::show_episodes(items.push(longer)) == crate::summary::show_episodes(
            items.push(shorter),
        ),
{
    lemma_item(items, shorter);
    lemma_item(items, longer);
    let few = shorter.1.specifics->Show_0.seasons@;
    let more = longer.1.specifics->Show_0.seasons@;
    assert(more.drop_last() =~= few);
    match shorter.0.extra_information {
        Some(SeenExtraInformation::Show(watched)) => {
            reveal(Seq::filter);
            assert(crate::summary::season_hits(season, watched) =~= Seq::<
                (ShowSeason, ShowEpisode),
            >::empty());
            assert(crate::summary::show_hits(more, watched) =~= crate::summary::show_hits(
                few,
                watched,
            ));
        },
        _ => {},
    }
}

/// Whether items agree with their media is settled item by item.
proof fn lemma_agreement(items: Seq<SeenItem>, item: SeenItem)
    ensures
        crate::summary::podcasts_agree(items.push(item)) <==> crate::summary::podcasts_agree(items)
            && crate::summary::podcast_agrees(item),
        crate::summary::shows_agree(items.push(item)) <==> crate::summary::shows_agree(items)
            && crate::summary::show_agrees(item),
{
    let longer = items.push(item);
    if crate::summary::podcasts_agree(longer) {
        assert forall|i: int| 0 <= i < items.len() implies
            #[trigger] crate::summary::podcast_agrees(items[i]) by {
            assert(crate::summary::podcast_agrees(longer[i]));
        }
        assert(crate::summary::podcast_agrees(longer[items.len() as int]));
    }
    if crate::summary::podcasts_agree(items) && crate::summary::podcast_agrees(item) {
        assert forall|i: int| 0 <= i < longer.len() implies
            #[trigger] crate::summary::podcast_agrees(longer[i]) by {
            if i < items.len() {
                assert(crate::summary::podcast_agrees(items[i]));
            }
        }
    }
    if crate::summary::shows_agree(longer) {
        assert forall|i: int| 0 <= i < items.len() implies #[trigger] crate::summary::show_agrees(
            items[i],
        ) by {
            assert(crate::summary::show_agrees(longer[i]));
        }
        assert(crate::summary::show_agrees(longer[items.len() as int]));
    }
    if crate::summary::shows_agree(items) && crate::summary::show_agrees(item) {
        assert forall|i: int| 0 <= i < longer.len() implies #[trigger] crate::summary::show_agrees(
            longer[i],
        ) by {
            if i < items.len() {
                assert(crate::summary::show_agrees(items[i]));
            }
        }
    }
}

/// Law: one more episode at the end of a show's last season counts exactly if it carries the
/// numbers of season and episode that were watched. Then it counts and its length is added
/// each time, and its season is a new one exactly if nothing of a season of that number and id
/// was watched before.
pub proof fn law_watched_episode_is_counted(
    items: Seq<SeenItem>,
    shorter: SeenItem,
    longer: SeenItem,
    episode: ShowEpisode,
    before: UserSummary,
    after: UserSummary,
)
    requires
        shorter.1.specifics is Show,
        longer.1.specifics is Show,
        ({
            let few = shorter.1.specifics->Show_0.seasons@;
            let more = longer.1.specifics->Show_0.seasons@;
            &&& few.len() > 0 && more.len() > 0
            &&& more.drop_last() == few.drop_last()
            &&& more.last().id == few.last().id
            &&& more.last().season_number == few.last().season_number
            &&& more.last().episodes@ == few.last().episodes@.push(episode)
        }),
        longer.0.metadata_id == shorter.0.metadata_id,
        longer.0.extra_information == shorter.0.extra_information,
        crate::summary::is_summary(items.push(shorter), before),
        crate::summary::is_summary(items.push(longer), after),
    ensures
        after.books == before.books,
        after.movies == before.movies,
        after.audio_books == before.audio_books,
        after.video_games == before.video_games,
        after.podcasts == before.podcasts,
        after.shows.watched == before.shows.watched,
        ({
            let earlier = items.push(shorter);
            let season = shorter.1.specifics->Show_0.seasons@.last();
            let hit = match shorter.0.extra_information {
                Some(SeenExtraInformation::Show(watched)) => watched.season == season.season_number
                    && watched.episode == episode.episode_number,
                _ => false,
            };
            let known = exists|i: int|
                0 <= i < earlier.len() && match (
                    (#[trigger] earlier[i]).1.specifics,
                    earlier[i].0.extra_information,
                ) {
                    (
                        MediaSpecifics::Show(show),
                        Some(SeenExtraInformation::Show(watched)),
                    ) => watched.season == season.season_number && exists|j: int, k: int|
                        0 <= j < show.seasons@.len() && 0 <= k < show.seasons@[j].episodes@.len()
                            && show.seasons@[j].season_number == season.season_number && show.seasons@[j].id == season.id
                            && (#[trigger] show.seasons@[j].episodes@[k]).episode_number
                            == watched.episode,
                    _ => false,
                };
            &&& !hit ==> after == before
            &&& hit ==> after.shows.watched_episodes == before.shows.watched_episodes + 1
            &&& hit ==> after.shows.runtime == before.shows.runtime + match episode.runtime {
                Some(runtime) => runtime as int,
                None => 0,
            }
            &&& hit ==> after.shows.watched_seasons == before.shows.watched_seasons + if known {
                0int
            } else {
                1
            }
        }),
{
    let season = shorter.1.specifics->Show_0.seasons@.last();
    let earlier = items.push(shorter);
    lemma_other_kinds(items, shorter, longer);
    lemma_longer_show(items, shorter, longer, episode);
    crate::totals::lemma_sum_push(
        crate::summary::show_runtimes(earlier),
        crate::totals::amount(episode.runtime),
    );
    lemma_set_grows(crate::summary::season_keys(earlier), (season.season_number, season.id));
    lemma_watched(earlier, season.season_number, season.id);
}

/// What stays in range stays in range up to any point.
proof fn lemma_in_range_prefix(first: Seq<int>, second: Seq<int>)
    requires
        crate::totals::stays_in_range(first + second),
    ensures
        crate::totals::stays_in_range(first),
{
    assert forall|k: int| 0 <= k <= first.len() implies i32::MIN <= #[trigger] crate::totals::sum(
        first.take(k),
    ) <= i32::MAX by {
        assert((first + second).take(k) =~= first.take(k));
        assert(i32::MIN <= crate::totals::sum((first + second).take(k)) <= i32::MAX);
    }
}

proof fn lemma_set_of_more<T>(first: Seq<T>, second: Seq<T>)
    ensures
        first.to_set().len() <= (first + second).to_set().len(),
{
    broadcast use vstd::seq_lib::seq_to_set_is_finite;

    assert forall|x: T| #[trigger] first.to_set().contains(x) implies (first
        + second).to_set().contains(x) by {
        let k = choose|k: int| 0 <= k < first.len() && first[k] == x;
        assert((first + second)[k] == x);
    }
    vstd::set_lib::lemma_len_subset(first.to_set(), (first + second).to_set());
}

/// Law: once there are items that cannot be summarized, no further item helps.
pub proof fn law_too_much_stays_too_much(items: Seq<SeenItem>, item: SeenItem)
    ensures
        crate::summary::summarizable(items.push(item)) ==> crate::summary::summarizable(items),
{
    if crate::summary::summarizable(items.push(item)) {
        let longer = items.push(item);
        lemma_item(items, item);
        lemma_agreement(items, item);
        let more = crate::summary::audio_book_of(item).map_values(
            |book: crate::media::AudioBookSpecifics| crate::totals::amount(book.runtime),
        );
        assert(crate::summary::audio_book_runtimes(longer) =~= crate::summary::audio_book_runtimes(
            items,
        ) + more);
        lemma_in_range_prefix(crate::summary::audio_book_runtimes(items), more);
        let more = crate::summary::book_of(item).map_values(
            |book: crate::media::BookSpecifics| crate::totals::amount(book.pages),
        );
        assert(crate::summary::book_pages(longer) =~= crate::summary::book_pages(items) + more);
        lemma_in_range_prefix(crate::summary::book_pages(items), more);
        let more = crate::summary::movie_of(item).map_values(
            |movie: crate::media::MovieSpecifics| crate::totals::amount(movie.runtime),
        );
        assert(crate::summary::movie_runtimes(longer) =~= crate::summary::movie_runtimes(items)
            + more);
        lemma_in_range_prefix(crate::summary::movie_runtimes(items), more);
        let heard = crate::summary::podcast_episodes_of(item);
        let more = heard.map_values(|e: PodcastEpisode| crate::totals::amount(e.runtime));
        assert(crate::summary::podcast_runtimes(longer) =~= crate::summary::podcast_runtimes(items)
            + more);
        lemma_in_range_prefix(crate::summary::podcast_runtimes(items), more);
        let keys = heard.map_values(|e: PodcastEpisode| (e.number, e.id@));
        assert(crate::summary::podcast_episode_keys(longer)
            =~= crate::summary::podcast_episode_keys(items) + keys);
        lemma_set_of_more(crate::summary::podcast_episode_keys(items), keys);
        lemma_set_of_more(crate::summary::podcasts(items), crate::summary::podcast_of(item));
        let watched = crate::summary::show_episodes_of(item);
        let more = watched.map_values(
            |hit: (ShowSeason, ShowEpisode)| crate::totals::amount(hit.1.runtime),
        );
        assert(crate::summary::show_runtimes(longer) =~= crate::summary::show_runtimes(items)
            + more);
        lemma_in_range_prefix(crate::summary::show_runtimes(items), more);
        let keys = watched.map_values(
            |hit: (ShowSeason, ShowEpisode)| (hit.0.season_number, hit.0.id),
        );
        assert(crate::summary::season_keys(longer) =~= crate::summary::season_keys(items) + keys);
        lemma_set_of_more(crate::summary::season_keys(items), keys);
        lemma_set_of_more(crate::summary::shows(items), crate::summary::show_of(item));
    }
}

/// Law: one more book, movie, audio book or video game, or podcast without episodes or show
/// without seasons, can be summarized exactly if the figures that it raises stay in the range
/// of an `i32`.
pub proof fn law_item_fits(items: Seq<SeenItem>, item: SeenItem, before: UserSummary)
    requires
        crate::summary::summarizable(items),
        crate::summary::is_summary(items, before),
    ensures
        match item.1.specifics {
            MediaSpecifics::Book(book) => crate::summary::summarizable(items.push(item)) <==> {
                let pages: int = match book.pages {
                    Some(pages) => pages as int,
                    None => 0,
                };
                before.books.read < i32::MAX && i32::MIN <= before.books.pages + pages <= i32::MAX
            },
            MediaSpecifics::Movie(movie) => crate::summary::summarizable(items.push(item)) <==> {
                let runtime: int = match movie.runtime {
                    Some(runtime) => runtime as int,
                    None => 0,
                };
                before.movies.watched < i32::MAX && i32::MIN <= before.movies.runtime + runtime
                    <= i32::MAX
            },
            MediaSpecifics::AudioBook(book) => crate::summary::summarizable(items.push(item)) <==> {
                let runtime: int = match book.runtime {
                    Some(runtime) => runtime as int,
                    None => 0,
                };
                before.audio_books.played < i32::MAX && i32::MIN <= before.audio_books.runtime
                    + runtime <= i32::MAX
            },
            MediaSpecifics::VideoGame(_) => crate::summary::summarizable(items.push(item))
                <==> before.video_games.played < i32::MAX,
            MediaSpecifics::Unknown => crate::summary::summarizable(items.push(item)),
            MediaSpecifics::Podcast(podcast) => podcast.episodes@.len() == 0 ==> (
            crate::summary::summarizable(items.push(item)) <==> {
                let known = exists|i: int|
                    0 <= i < items.len() && (#[trigger] items[i]).1.specifics is Podcast
                        && items[i].0.metadata_id == item.0.metadata_id;
                known || before.podcasts.played < i32::MAX
            }),
            MediaSpecifics::Show(show) => show.seasons@.len() == 0 ==> (
            crate::summary::summarizable(items.push(item)) <==> {
                let known = exists|i: int|
                    0 <= i < items.len() && (#[trigger] items[i]).1.specifics is Show
                        && items[i].0.metadata_id == item.0.metadata_id;
                known || before.shows.watched < i32::MAX
            }),
        },
{
    let longer = items.push(item);
    lemma_item(items, item);
    lemma_plain_figures(items, item);
    lemma_agreement(items, item);
    if !(item.1.specifics is Podcast) || item.1.specifics->Podcast_0.episodes@.len() == 0 {
        reveal(Seq::filter);
        assert(crate::summary::podcast_episodes_of(item) =~= Seq::<PodcastEpisode>::empty());
        assert(crate::summary::podcast_episodes(longer) =~= crate::summary::podcast_episodes(
            items,
        ));
    }
    if !(item.1.specifics is Show) || item.1.specifics->Show_0.seasons@.len() == 0 {
        assert(crate::summary::show_episodes(longer) =~= crate::summary::show_episodes(items));
    }
    match item.1.specifics {
        MediaSpecifics::Book(book) => {
            crate::totals::lemma_in_range_push(
                crate::summary::book_pages(items),
                crate::totals::amount(book.pages),
            );
        },
        MediaSpecifics::Movie(movie) => {
            crate::totals::lemma_in_range_push(
                crate::summary::movie_runtimes(items),
                crate::totals::amount(movie.runtime),
            );
        },
        MediaSpecifics::AudioBook(book) => {
            crate::totals::lemma_in_range_push(
                crate::summary::audio_book_runtimes(items),
                crate::totals::amount(book.runtime),
            );
        },
        _ => {},
    }
    if item.1.specifics is Podcast {
        let id = item.0.metadata_id;
        assert(crate::summary::podcasts(longer) =~= crate::summary::podcasts(items).push(id));
        lemma_set_grows(crate::summary::podcasts(items), id);
        lemma_podcast_known(items, id);
    } else {
        assert(crate::summary::podcasts(longer) =~= crate::summary::podcasts(items));
    }
    if item.1.specifics is Show {
        let id = item.0.metadata_id;
        assert(crate::summary::shows(longer) =~= crate::summary::shows(items).push(id));
        lemma_set_grows(crate::summary::shows(items), id);
        lemma_show_known(items, id);
    } else {
        assert(crate::summary::shows(longer) =~= crate::summary::shows(items));
    }
}

/// Law: one more episode at the end of a podcast can be summarized exactly if the rest can,
/// the entry does not point at an episode of a show, and the figures that it raises stay in
/// the range of an `i32`.
pub proof fn law_podcast_episode_fits(
    items: Seq<SeenItem>,
    shorter: SeenItem,
    longer: SeenItem,
    episode: PodcastEpisode,
    before: UserSummary,
)
    requires
        shorter.1.specifics is Podcast,
        longer.1.specifics is Podcast,
        longer.1.specifics->Podcast_0.episodes@ == shorter.1.specifics->Podcast_0.episodes@.push(
            episode,
        ),
        longer.0.metadata_id == shorter.0.metadata_id,
        longer.0.extra_information == shorter.0.extra_information,
        crate::summary::summarizable(items.push(shorter)),
        crate::summary::is_summary(items.push(shorter), before),
    ensures
        ({
            let earlier = items.push(shorter);
            let known = exists|i: int|
                0 <= i < earlier.len() && match (
                    (#[trigger] earlier[i]).1.specifics,
                    earlier[i].0.extra_information,
                ) {
                    (
                        MediaSpecifics::Podcast(podcast),
                        Some(SeenExtraInformation::Podcast(heard)),
                    ) => heard.episode == episode.number && exists|j: int|
                        0 <= j < podcast.episodes@.len() && (#[trigger] podcast.episodes@[j]).number
                            == episode.number && podcast.episodes@[j].id@ == episode.id@,
                    _ => false,
                };
            let runtime: int = match episode.runtime {
                Some(runtime) => runtime as int,
                None => 0,
            };
            crate::summary::summarizable(items.push(longer)) <==> match shorter.0.extra_information {
                Some(SeenExtraInformation::Podcast(heard)) => heard.episode == episode.number ==> {
                    &&& i32::MIN <= before.podcasts.runtime + runtime <= i32::MAX
                    &&& known || before.podcasts.played_episodes < i32::MAX
                },
                Some(SeenExtraInformation::Show(_)) => false,
                None => true,
            }
        }),
{
    let earlier = items.push(shorter);
    lemma_longer_podcast(items, shorter, longer, episode);
    lemma_new_podcast_episode(earlier, items.push(longer), episode);
    lemma_heard(earlier, episode.number, episode.id@);
    lemma_agreement(items, shorter);
    lemma_agreement(items, longer);
    crate::totals::lemma_in_range_push(
        crate::summary::podcast_runtimes(earlier),
        crate::totals::amount(episode.runtime),
    );
}

/// Law: one more episode at the end of a show's last season can be summarized exactly if the
/// rest can, the entry points at an episode of a show, and the figures that it raises stay in
/// the range of an `i32`.
pub proof fn law_show_episode_fits(
    items: Seq<SeenItem>,
    shorter: SeenItem,
    longer: SeenItem,
    episode: ShowEpisode,
    before: UserSummary,
)
    requires
        shorter.1.specifics is Show,
        longer.1.specifics is Show,
        ({
            let few = shorter.1.specifics->Show_0.seasons@;
            let more = longer.1.specifics->Show_0.seasons@;
            &&& few.len() > 0 && more.len() > 0
            &&& more.drop_last() == few.drop_last()
            &&& more.last().id == few.last().id
            &&& more.last().season_number == few.last().season_number
            &&& more.last().episodes@ == few.last().episodes@.push(episode)
        }),
        longer.0.metadata_id == shorter.0.metadata_id,
        longer.0.extra_information == shorter.0.extra_information,
        crate::summary::summarizable(items.push(shorter)),
        crate::summary::is_summary(items.push(shorter), before),
    ensures
        ({
            let earlier = items.push(shorter);
            let season = shorter.1.specifics->Show_0.seasons@.last();
            let known = exists|i: int|
                0 <= i < earlier.len() && match (
                    (#[trigger] earlier[i]).1.specifics,
                    earlier[i].0.extra_information,
                ) {
                    (
                        MediaSpecifics::Show(show),
                        Some(SeenExtraInformation::Show(watched)),
                    ) => watched.season == season.season_number && exists|j: int, k: int|
                        0 <= j < show.seasons@.len() && 0 <= k < show.seasons@[j].episodes@.len()
                            && show.seasons@[j].season_number == season.season_number
                            && show.seasons@[j].id == season.id
                            && (#[trigger] show.seasons@[j].episodes@[k]).episode_number
                            == watched.episode,
                    _ => false,
                };
            let runtime: int = match episode.runtime {
                Some(runtime) => runtime as int,
                None => 0,
            };
            crate::summary::summarizable(items.push(longer)) <==> match shorter.0.extra_information {
                Some(SeenExtraInformation::Show(watched)) => watched.season == season.season_number
                    && watched.episode == episode.episode_number ==> {
                    &&& i32::MIN <= before.shows.runtime + runtime <= i32::MAX
                    &&& before.shows.watched_episodes < i32::MAX
                    &&& known || before.shows.watched_seasons < i32::MAX
                },
                _ => false,
            }
        }),
{
    let earlier = items.push(shorter);
    let season = shorter.1.specifics->Show_0.seasons@.last();
    let more = longer.1.specifics->Show_0.seasons@;
    lemma_other_kinds(items, shorter, longer);
    lemma_longer_show(items, shorter, longer, episode);
    lemma_set_grows(crate::summary::season_keys(earlier), (season.season_number, season.id));
    lemma_watched(earlier, season.season_number, season.id);
    lemma_agreement(items, shorter);
    lemma_agreement(items, longer);
    crate::totals::lemma_in_range_push(
        crate::summary::show_runtimes(earlier),
        crate::totals::amount(episode.runtime),
    );
    assert(more[more.len() - 1].episodes@.len() > 0);
    assert(!crate::summary::no_episodes(more));
}

/// Law: what can be summarized can be summarized without the last episode of a podcast.
pub proof fn law_shorter_podcast_fits(
    items: Seq<SeenItem>,
    shorter: SeenItem,
    longer: SeenItem,
    episode: PodcastEpisode,
)
    requires
        shorter.1.specifics is Podcast,
        longer.1.specifics is Podcast,
        longer.1.specifics->Podcast_0.episodes@ == shorter.1.specifics->Podcast_0.episodes@.push(
            episode,
        ),
        longer.0.metadata_id == shorter.0.metadata_id,
        longer.0.extra_information == shorter.0.extra_information,
    ensures
        crate::summary::summarizable(items.push(longer)) ==> crate::summary::summarizable(
            items.push(shorter),
        ),
{
    let earlier = items.push(shorter);
    lemma_longer_podcast(items, shorter, longer, episode);
    lemma_new_podcast_episode(earlier, items.push(longer), episode);
    lemma_agreement(items, shorter);
    lemma_agreement(items, longer);
    crate::totals::lemma_in_range_push(
        crate::summary::podcast_runtimes(earlier),
        crate::totals::amount(episode.runtime),
    );
}

/// Law: what can be summarized can be summarized without the last episode of a show.
pub proof fn law_shorter_show_fits(
    items: Seq<SeenItem>,
    shorter: SeenItem,
    longer: SeenItem,
    episode: ShowEpisode,
)
    requires
        shorter.1.specifics is Show,
        longer.1.specifics is Show,
        ({
            let few = shorter.1.specifics->Show_0.seasons@;
            let more = longer.1.specifics->Show_0.seasons@;
            &&& few.len() > 0 && more.len() > 0
            &&& more.drop_last() == few.drop_last()
            &&& more.last().id == few.last().id
            &&& more.last().season_number == few.last().season_number
            &&& more.last().episodes@ == few.last().episodes@.push(episode)
        }),
        longer.0.metadata_id == shorter.0.metadata_id,
        longer.0.extra_information == shorter.0.extra_information,
    ensures
        crate::summary::summarizable(items.push(longer)) ==> crate::summary::summarizable(
            items.push(shorter),
        ),
{
    let earlier = items.push(shorter);
    let season = shorter.1.specifics->Show_0.seasons@.last();
    let more = longer.1.specifics->Show_0.seasons@;
    lemma_other_kinds(items, shorter, longer);
    lemma_longer_show(items, shorter, longer, episode);
    lemma_set_grows(crate::summary::season_keys(earlier), (season.season_number, season.id));
    lemma_agreement(items, shorter);
    lemma_agreement(items, longer);
    crate::totals::lemma_in_range_push(
        crate::summary::show_runtimes(earlier),
        crate::totals::amount(episode.runtime),
    );
    assert(more[more.len() - 1].episodes@.len() > 0);
    assert(!crate::summary::no_episodes(more));
}

} // verus!
