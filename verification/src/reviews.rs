//! Reviews of media items.
use vstd::prelude::*;

use crate::clock::Timestamp;
use crate::error::Error;
use crate::media::{SeenExtraInformation, SeenShowExtraInformation};
use crate::service::MiscService;
use crate::step::Step;
use crate::store::{
    ActiveValue, IdObject, Identifier, ReviewActiveModel, ReviewModel, ReviewVisibility, UserModel,
};

verus! {

/// Who wrote a review.
#[derive(Debug, PartialEq, Eq)]
pub struct ReviewPostedBy {
    pub id: Identifier,
    pub name: String,
}

/// A review as it is shown.
#[derive(Debug, PartialEq)]
pub struct ReviewItem {
    pub id: Identifier,
    pub posted_on: Timestamp,
    pub rating: Option<rust_decimal::Decimal>,
    pub text: Option<String>,
    pub visibility: ReviewVisibility,
    pub spoiler: bool,
    pub season_number: Option<i32>,
    pub episode_number: Option<i32>,
    pub posted_by: ReviewPostedBy,
    pub podcast_episode_id: Option<i32>,
}

/// A review that a user wants to write.
#[derive(Debug, PartialEq)]
pub struct PostReviewInput {
    pub rating: Option<rust_decimal::Decimal>,
    pub text: Option<String>,
    pub visibility: Option<ReviewVisibility>,
    pub spoiler: Option<bool>,
    pub metadata_id: Identifier,
    pub date: Option<Timestamp>,
    /// If this review comes from a different source, this should be set.
    pub identifier: Option<String>,
    /// ID of the review if this is an update to an existing review.
    pub review_id: Option<Identifier>,
    pub season_number: Option<i32>,
    pub episode_number: Option<i32>,
}

/// The season that a review is about.
pub open spec fn season_of(part: Option<SeenExtraInformation>) -> Option<i32> {
    match part {
        Some(SeenExtraInformation::Show(show)) => Some(show.season),
        _ => None,
    }
}

/// The episode of a show that a review is about.
pub open spec fn episode_of(part: Option<SeenExtraInformation>) -> Option<i32> {
    match part {
        Some(SeenExtraInformation::Show(show)) => Some(show.episode),
        _ => None,
    }
}

/// The episode of a podcast that a review is about.
pub open spec fn podcast_episode_of(part: Option<SeenExtraInformation>) -> Option<i32> {
    match part {
        Some(SeenExtraInformation::Podcast(podcast)) => Some(podcast.episode),
        _ => None,
    }
}

/// How a stored review, with the user who wrote it, is shown.
pub open spec fn shown(review: ReviewModel, user: UserModel) -> ReviewItem {
    ReviewItem {
        id: Identifier(review.id),
        posted_on: review.posted_on,
        rating: review.rating,
        text: review.text,
        visibility: review.visibility,
        spoiler: review.spoiler,
        season_number: season_of(review.extra_information),
        episode_number: episode_of(review.extra_information),
        posted_by: ReviewPostedBy { id: Identifier(user.id), name: user.name },
        podcast_episode_id: podcast_episode_of(review.extra_information),
    }
}

/// A private review is only for the user who wrote it.
pub open spec fn may_see(user_id: i32, review: ReviewItem) -> bool {
    review.visibility is Private ==> review.posted_by.id.0 == user_id
}

/// The reviews that a user may see, in the order given.
pub open spec fn seen_by(user_id: i32, reviews: Seq<(ReviewModel, UserModel)>) -> Seq<ReviewItem> {
    reviews.map_values(|row: (ReviewModel, UserModel)| shown(row.0, row.1)).filter(
        |review: ReviewItem| may_see(user_id, review),
    )
}

fn show_review(review: ReviewModel, user: UserModel) -> (item: ReviewItem)
    ensures
        item == shown(review, user),
{
    let (season_number, episode_number, podcast_episode_id) = match review.extra_information {
        Some(part) => match part {
            SeenExtraInformation::Show(show) => (Some(show.season), Some(show.episode), None),
            SeenExtraInformation::Podcast(podcast) => (None, None, Some(podcast.episode)),
        },
        None => (None, None, None),
    };
    ReviewItem {
        id: Identifier(review.id),
        posted_on: review.posted_on,
        rating: review.rating,
        text: review.text,
        visibility: review.visibility,
        spoiler: review.spoiler,
        season_number,
        episode_number,
        posted_by: ReviewPostedBy { id: Identifier(user.id), name: user.name },
        podcast_episode_id,
    }
}

/// Waits for all reviews of a media item, the latest first, each with the user who wrote it.
#[derive(Debug, PartialEq, Eq)]
pub struct MediaItemReviews {
    pub metadata_id: i32,
    pub user_id: i32,
}

impl MediaItemReviews {
    /// The reviews that the user may see: all but the private ones of other users.
    pub fn found(self, reviews: Vec<(ReviewModel, UserModel)>) -> (outcome: Result<
        Vec<ReviewItem>,
        Error,
    >)
        ensures
            outcome matches Ok(items) && items@ == seen_by(self.user_id, reviews@),
    {
        let ghost all = reviews@.map_values(|row: (ReviewModel, UserModel)| shown(row.0, row.1));
        let ghost keep = |review: ReviewItem| may_see(self.user_id, review);
        let ghost rows = reviews@;
        let user_id: i32 = self.user_id;
        let mut items: Vec<ReviewItem> = Vec::new();
        proof {
            reveal(Seq::filter);
            assert(all.take(0).filter(keep) =~= Seq::<ReviewItem>::empty());
        }
        for row in iter: reviews
            invariant
                iter.seq() == rows,
                all == rows.map_values(|row: (ReviewModel, UserModel)| shown(row.0, row.1)),
                keep == (|review: ReviewItem| may_see(self.user_id, review)),
                user_id == self.user_id,
                items@ == all.take(iter.index()).filter(keep),
        {
            proof {
                crate::totals::lemma_filter_take(all, keep, iter.index());
            }
            let item = show_review(row.0, row.1);
            let visible: bool = match item.visibility {
                ReviewVisibility::Private => item.posted_by.id.0 == user_id,
                _ => true,
            };
            if visible {
                items.push(item);
            }
        }
        assert(all.take(all.len() as int) =~= all);
        Ok(items)
    }
}

/// The part of a media item that a review with these numbers is about.
pub open spec fn reviewed_part(season: Option<i32>, episode: Option<i32>) -> ActiveValue<
    Option<SeenExtraInformation>,
> {
    match (season, episode) {
        (Some(season), Some(episode)) => ActiveValue::Write(
            Some(SeenExtraInformation::Show(SeenShowExtraInformation { season, episode })),
        ),
        _ => ActiveValue::NotSet,
    }
}

/// A column that is written where there is a value for it.
pub open spec fn if_given<T>(value: Option<T>) -> ActiveValue<T> {
    match value {
        Some(value) => ActiveValue::Write(value),
        None => ActiveValue::NotSet,
    }
}

/// The review that a user's input asks for.
pub open spec fn drafted(user_id: i32, input: PostReviewInput) -> ReviewActiveModel {
    ReviewActiveModel {
        id: match input.review_id {
            Some(id) => ActiveValue::Write(id.0),
            None => ActiveValue::NotSet,
        },
        posted_on: if_given(input.date),
        rating: ActiveValue::Write(input.rating),
        text: ActiveValue::Write(input.text),
        visibility: if_given(input.visibility),
        spoiler: if_given(input.spoiler),
        user_id: ActiveValue::Write(user_id),
        metadata_id: ActiveValue::Write(input.metadata_id.0),
        extra_information: reviewed_part(input.season_number, input.episode_number),
        identifier: ActiveValue::Write(input.identifier),
    }
}

fn written_if_given<T>(value: Option<T>) -> (column: ActiveValue<T>)
    ensures
        column == if_given(value),
{
    match value {
        Some(value) => ActiveValue::Write(value),
        None => ActiveValue::NotSet,
    }
}

fn draft(user_id: i32, input: PostReviewInput) -> (review: ReviewActiveModel)
    ensures
        review == drafted(user_id, input),
{
    let id: ActiveValue<i32> = match input.review_id {
        Some(id) => ActiveValue::Write(id.0),
        None => ActiveValue::NotSet,
    };
    let extra_information = match (input.season_number, input.episode_number) {
        (Some(season), Some(episode)) => ActiveValue::Write(
            Some(SeenExtraInformation::Show(SeenShowExtraInformation { season, episode })),
        ),
        _ => ActiveValue::NotSet,
    };
    ReviewActiveModel {
        id,
        posted_on: written_if_given(input.date),
        rating: ActiveValue::Write(input.rating),
        text: ActiveValue::Write(input.text),
        visibility: written_if_given(input.visibility),
        spoiler: written_if_given(input.spoiler),
        user_id: ActiveValue::Write(user_id),
        metadata_id: ActiveValue::Write(input.metadata_id.0),
        extra_information,
        identifier: ActiveValue::Write(input.identifier),
    }
}

/// Waits for the review that carries this identifier, if there is one.
#[derive(Debug, PartialEq)]
pub struct PostReview {
    pub identifier: Option<String>,
    pub user_id: i32,
    pub input: PostReviewInput,
}

impl PostReview {
    /// A review that is there already is left as it is; its media item is the outcome.
    pub open spec fn after(self, existing: Option<ReviewModel>) -> Step<SaveReview, IdObject> {
        match existing {
            Some(review) => Step::Done(Ok(IdObject { id: Identifier(review.metadata_id) })),
            None => Step::Do(SaveReview { review: drafted(self.user_id, self.input) }),
        }
    }

    pub fn found(self, existing: Option<ReviewModel>) -> (next: Step<SaveReview, IdObject>)
        ensures
            next == self.after(existing),
    {
        match existing {
            Some(review) => Step::Done(Ok(IdObject { id: Identifier(review.metadata_id) })),
            None => Step::Do(SaveReview { review: draft(self.user_id, self.input) }),
        }
    }
}

/// Waits for the review to be saved: inserted, or updated where it carries an id.
#[derive(Debug, PartialEq)]
pub struct SaveReview {
    pub review: ReviewActiveModel,
}

impl SaveReview {
    pub fn saved(self, id: i32) -> (outcome: Result<IdObject, Error>)
        ensures
            outcome == Ok::<IdObject, Error>(IdObject { id: Identifier(id) }),
    {
        Ok(IdObject { id: Identifier(id) })
    }
}

/// Waits for the review with this id, if there is one.
#[derive(Debug, PartialEq, Eq)]
pub struct DeleteReview {
    pub review_id: i32,
    pub user_id: i32,
}

impl DeleteReview {
    /// Only a review that the user wrote is removed.
    pub open spec fn after(self, review: Option<ReviewModel>) -> Step<RemoveReview, bool> {
        match review {
            Some(review) => if review.user_id == self.user_id {
                Step::Do(RemoveReview { review_id: review.id })
            } else {
                Step::Done(Err(Error::ReviewNotOwned))
            },
            None => Step::Done(Ok(false)),
        }
    }

    pub fn found(self, review: Option<ReviewModel>) -> (next: Step<RemoveReview, bool>)
        ensures
            next == self.after(review),
    {
        match review {
            Some(review) => {
                if review.user_id == self.user_id {
                    Step::Do(RemoveReview { review_id: review.id })
                } else {
                    Step::Done(Err(Error::ReviewNotOwned))
                }
            },
            None => Step::Done(Ok(false)),
        }
    }
}

/// Waits for the review with this id to be removed.
#[derive(Debug, PartialEq, Eq)]
pub struct RemoveReview {
    pub review_id: i32,
}

impl RemoveReview {
    pub fn removed(self, removal: Result<(), Error>) -> (outcome: Result<bool, Error>)
        ensures
            match removal {
                Ok(_) => outcome == Ok::<bool, Error>(true),
                Err(error) => outcome == Err::<bool, Error>(error),
            },
    {
        match removal {
            Ok(_) => Ok(true),
            Err(error) => Err(error),
        }
    }
}

impl MiscService {
    /// Get all the public reviews for a media item, and the user's own.
    pub fn media_item_reviews(&self, user_id: i32, metadata_id: i32) -> (next: MediaItemReviews)
        ensures
            next == (MediaItemReviews { metadata_id, user_id }),
    {
        MediaItemReviews { metadata_id, user_id }
    }

    /// Create or update a review.
    pub fn post_review(&self, user_id: i32, input: PostReviewInput) -> (next: PostReview)
        ensures
            next == (PostReview { identifier: input.identifier, user_id, input }),
    {
        let identifier: Option<String> = match &input.identifier {
            Some(identifier) => Some(identifier.clone()),
            None => None,
        };
        PostReview { identifier, user_id, input }
    }

    /// Delete a review if it belongs to the user.
    pub fn delete_review(&self, user_id: i32, review_id: i32) -> (next: DeleteReview)
        ensures
            next == (DeleteReview { review_id, user_id }),
    {
        DeleteReview { review_id, user_id }
    }
}

/// Law: what a user is shown are the given reviews without the private ones of others: each
/// shown review comes from one that the user may see, and each such one is shown.
pub proof fn law_reviews_shown(
    user_id: i32,
    reviews: Seq<(ReviewModel, UserModel)>,
    item: ReviewItem,
)
    ensures
        seen_by(user_id, reviews).contains(item) <==> may_see(user_id, item) && exists|i: int|
            0 <= i < reviews.len() && item == #[trigger] shown(reviews[i].0, reviews[i].1),
{
    let show = |row: (ReviewModel, UserModel)| shown(row.0, row.1);
    let keep = |review: ReviewItem| may_see(user_id, review);
    let all = reviews.map_values(show);
    if seen_by(user_id, reviews).contains(item) {
        let k = choose|k: int| 0 <= k < all.filter(keep).len() && all.filter(keep)[k] == item;
        lemma_filtered(all, keep, k);
        let i = choose|i: int| 0 <= i < all.len() && all[i] == item;
        assert(item == shown(reviews[i].0, reviews[i].1));
    }
    if may_see(user_id, item) && exists|i: int|
        0 <= i < reviews.len() && item == #[trigger] shown(reviews[i].0, reviews[i].1) {
        let i = choose|i: int|
            0 <= i < reviews.len() && item == #[trigger] shown(reviews[i].0, reviews[i].1);
        assert(all[i] == item);
        lemma_kept(all, keep, i);
    }
}

pub(crate) proof fn lemma_filtered<T>(s: Seq<T>, keep: spec_fn(T) -> bool, k: int)
    requires
        0 <= k < s.filter(keep).len(),
    ensures
        keep(s.filter(keep)[k]),
        s.contains(s.filter(keep)[k]),
    decreases s.len(),
{
    reveal(Seq::filter);
    if s.len() > 0 {
        let rest = s.drop_last();
        if k < rest.filter(keep).len() {
            lemma_filtered(rest, keep, k);
            let x = rest.filter(keep)[k];
            let i = choose|i: int| 0 <= i < rest.len() && rest[i] == x;
            assert(s[i] == x);
        } else {
            assert(s[s.len() - 1] == s.last());
        }
    }
}

pub(crate) proof fn lemma_kept<T>(s: Seq<T>, keep: spec_fn(T) -> bool, i: int)
    requires
        0 <= i < s.len(),
        keep(s[i]),
    ensures
        s.filter(keep).contains(s[i]),
    decreases s.len(),
{
    reveal(Seq::filter);
    let rest = s.drop_last();
    if i < rest.len() {
        lemma_kept(rest, keep, i);
        let k = choose|k: int| 0 <= k < rest.filter(keep).len() && rest.filter(keep)[k] == s[i];
        assert(s.filter(keep)[k] == s[i]);
    } else {
        assert(s.filter(keep)[rest.filter(keep).len() as int] == s[i]);
    }
}

/// Law: reviews are shown in the order in which they come: of reviews that come one after
/// another, what is shown comes one after another too.
pub proof fn law_reviews_keep_order(
    user_id: i32,
    first: Seq<(ReviewModel, UserModel)>,
    second: Seq<(ReviewModel, UserModel)>,
)
    ensures
        seen_by(user_id, first + second) == seen_by(user_id, first) + seen_by(user_id, second),
{
    let show = |row: (ReviewModel, UserModel)| shown(row.0, row.1);
    let keep = |review: ReviewItem| may_see(user_id, review);
    assert((first + second).map_values(show) =~= first.map_values(show) + second.map_values(show));
    Seq::filter_distributes_over_add(first.map_values(show), second.map_values(show), keep);
}

/// Law: a review that was posted is shown as it was posted, to its author in any case. What
/// was not given is shown as the store has it, and a part of a show is only given by both
/// its numbers.
pub proof fn law_posted_review_is_shown(
    user_id: i32,
    input: PostReviewInput,
    before: ReviewModel,
    author: UserModel,
)
    requires
        author.id == user_id,
    ensures
        ({
            let stored = drafted(user_id, input).written(before);
            let item = shown(stored, author);
            &&& may_see(user_id, item)
            &&& stored.user_id == user_id
            &&& stored.metadata_id == input.metadata_id.0
            &&& stored.identifier == input.identifier
            &&& input.review_id matches Some(id) ==> item.id == id
            &&& item.posted_by == (ReviewPostedBy { id: Identifier(user_id), name: author.name })
            &&& item.rating == input.rating
            &&& item.text == input.text
            &&& item.visibility == input.visibility.unwrap_or(before.visibility)
            &&& item.spoiler == input.spoiler.unwrap_or(before.spoiler)
            &&& item.posted_on == input.date.unwrap_or(before.posted_on)
            &&& input.season_number is Some && input.episode_number is Some ==> {
                &&& item.season_number == input.season_number
                &&& item.episode_number == input.episode_number
                &&& item.podcast_episode_id is None
            }
            &&& input.season_number is None || input.episode_number is None
                ==> stored.extra_information == before.extra_information
        }),
{
}

/// Law: posting a review whose identifier is already there saves nothing and gives the media
/// item of the review that is there; otherwise the review is saved as the user's own.
pub proof fn law_known_review_is_not_posted_again(post: PostReview, existing: Option<ReviewModel>)
    ensures
        post.after(existing) is Do <==> existing is None,
        existing matches Some(review) ==> post.after(existing) == Step::<
            SaveReview,
            IdObject,
        >::Done(Ok(IdObject { id: Identifier(review.metadata_id) })),
        post.after(existing) matches Step::Do(save) ==> save.review.user_id == ActiveValue::Write(
            post.user_id,
        ),
{
}

/// Law: a review is only ever removed for the user who wrote it.
pub proof fn law_only_authors_delete_reviews(delete: DeleteReview, review: ReviewModel)
    ensures
        delete.after(Some(review)) is Do <==> review.user_id == delete.user_id,
        delete.after(Some(review)) matches Step::Do(remove) ==> remove.review_id == review.id,
{
}

/// Law: one review after another is shown, as it is stored and with the name of its author,
/// exactly if it is public or the user wrote it.
pub proof fn law_next_review_is_shown(
    user_id: i32,
    reviews: Seq<(ReviewModel, UserModel)>,
    review: ReviewModel,
    author: UserModel,
)
    ensures
        seen_by(user_id, Seq::empty()) == Seq::<ReviewItem>::empty(),
        seen_by(user_id, reviews.push((review, author))) == if review.visibility is Public
            || author.id == user_id {
            seen_by(user_id, reviews).push(
                ReviewItem {
                    id: Identifier(review.id),
                    posted_on: review.posted_on,
                    rating: review.rating,
                    text: review.text,
                    visibility: review.visibility,
                    spoiler: review.spoiler,
                    season_number: match review.extra_information {
                        Some(SeenExtraInformation::Show(show)) => Some(show.season),
                        _ => None,
                    },
                    episode_number: match review.extra_information {
                        Some(SeenExtraInformation::Show(show)) => Some(show.episode),
                        _ => None,
                    },
                    posted_by: ReviewPostedBy { id: Identifier(author.id), name: author.name },
                    podcast_episode_id: match review.extra_information {
                        Some(SeenExtraInformation::Podcast(podcast)) => Some(podcast.episode),
                        _ => None,
                    },
                },
            )
        } else {
            seen_by(user_id, reviews)
        },
{
    let show = |row: (ReviewModel, UserModel)| shown(row.0, row.1);
    let keep = |review: ReviewItem| may_see(user_id, review);
    let none = Seq::<(ReviewModel, UserModel)>::empty();
    reveal(Seq::filter);
    assert(none.map_values(show) =~= Seq::<ReviewItem>::empty());
    let all = reviews.map_values(show);
    let longer = reviews.push((review, author)).map_values(show);
    assert(longer =~= all.push(shown(review, author)));
    assert(longer.drop_last() =~= all);
}

/// Law: every public review is shown to every user, and every private one to its author; and
/// whatever is shown is a public review or one that the user wrote.
pub proof fn law_public_and_own_reviews_are_shown(
    user_id: i32,
    reviews: Seq<(ReviewModel, UserModel)>,
)
    ensures
        forall|i: int|
            0 <= i < reviews.len() && ((#[trigger] reviews[i]).0.visibility is Public
                || reviews[i].1.id == user_id) ==> seen_by(user_id, reviews).contains(
                ReviewItem {
                    id: Identifier(reviews[i].0.id),
                    posted_on: reviews[i].0.posted_on,
                    rating: reviews[i].0.rating,
                    text: reviews[i].0.text,
                    visibility: reviews[i].0.visibility,
                    spoiler: reviews[i].0.spoiler,
                    season_number: match reviews[i].0.extra_information {
                        Some(SeenExtraInformation::Show(show)) => Some(show.season),
                        _ => None,
                    },
                    episode_number: match reviews[i].0.extra_information {
                        Some(SeenExtraInformation::Show(show)) => Some(show.episode),
                        _ => None,
                    },
                    posted_by: ReviewPostedBy { id: Identifier(reviews[i].1.id), name: reviews[i].1.name },
                    podcast_episode_id: match reviews[i].0.extra_information {
                        Some(SeenExtraInformation::Podcast(podcast)) => Some(podcast.episode),
                        _ => None,
                    },
                },
            ),
        forall|k: int|
            0 <= k < seen_by(user_id, reviews).len() ==> exists|i: int|
                0 <= i < reviews.len() && (#[trigger] reviews[i]).0.id == (#[trigger] seen_by(
                    user_id,
                    reviews,
                )[k]).id.0 && (reviews[i].0.visibility is Public || reviews[i].1.id == user_id),
    decreases reviews.len(),
{
    if reviews.len() == 0 {
        assert(reviews =~= Seq::empty());
        law_next_review_is_shown(
            user_id,
            reviews,
            arbitrary::<ReviewModel>(),
            arbitrary::<UserModel>(),
        );
    } else {
        let fewer = reviews.drop_last();
        let last = reviews.last();
        law_public_and_own_reviews_are_shown(user_id, fewer);
        law_next_review_is_shown(user_id, fewer, last.0, last.1);
        assert(reviews =~= fewer.push(last));
        let before = seen_by(user_id, fewer);
        let after = seen_by(user_id, reviews);
        assert forall|i: int|
            0 <= i < reviews.len() && ((#[trigger] reviews[i]).0.visibility is Public
                || reviews[i].1.id == user_id) implies after.contains(
            ReviewItem {
                id: Identifier(reviews[i].0.id),
                posted_on: reviews[i].0.posted_on,
                rating: reviews[i].0.rating,
                text: reviews[i].0.text,
                visibility: reviews[i].0.visibility,
                spoiler: reviews[i].0.spoiler,
                season_number: match reviews[i].0.extra_information {
                    Some(SeenExtraInformation::Show(show)) => Some(show.season),
                    _ => None,
                },
                episode_number: match reviews[i].0.extra_information {
                    Some(SeenExtraInformation::Show(show)) => Some(show.episode),
                    _ => None,
                },
                posted_by: ReviewPostedBy { id: Identifier(reviews[i].1.id), name: reviews[i].1.name },
                podcast_episode_id: match reviews[i].0.extra_information {
                    Some(SeenExtraInformation::Podcast(podcast)) => Some(podcast.episode),
                    _ => None,
                },
            },
        ) by {
            let item = ReviewItem {
                id: Identifier(reviews[i].0.id),
                posted_on: reviews[i].0.posted_on,
                rating: reviews[i].0.rating,
                text: reviews[i].0.text,
                visibility: reviews[i].0.visibility,
                spoiler: reviews[i].0.spoiler,
                season_number: match reviews[i].0.extra_information {
                    Some(SeenExtraInformation::Show(show)) => Some(show.season),
                    _ => None,
                },
                episode_number: match reviews[i].0.extra_information {
                    Some(SeenExtraInformation::Show(show)) => Some(show.episode),
                    _ => None,
                },
                posted_by: ReviewPostedBy { id: Identifier(reviews[i].1.id), name: reviews[i].1.name },
                podcast_episode_id: match reviews[i].0.extra_information {
                    Some(SeenExtraInformation::Podcast(podcast)) => Some(podcast.episode),
                    _ => None,
                },
            };
            if i < fewer.len() {
                assert(fewer[i] == reviews[i]);
                assert(before.contains(item));
                let k = choose|k: int| 0 <= k < before.len() && before[k] == item;
                assert(after[k] == item);
            } else {
                assert(after[before.len() as int] == item);
            }
        }
        assert forall|k: int| 0 <= k < after.len() implies exists|i: int|
            0 <= i < reviews.len() && (#[trigger] reviews[i]).0.id == (#[trigger] after[k]).id.0 && (
            reviews[i].0.visibility is Public || reviews[i].1.id == user_id) by {
            if k < before.len() {
                assert(after[k] == before[k]);
                let i = choose|i: int|
                    0 <= i < fewer.len() && (#[trigger] fewer[i]).0.id == before[k].id.0 && (
                    fewer[i].0.visibility is Public || fewer[i].1.id == user_id);
                assert(reviews[i] == fewer[i]);
            } else {
                assert(reviews[reviews.len() - 1] == last);
            }
        }
    }
}

/// Law: posting a review that is not there saves it as the user's own, with the rating, text,
/// media item and identifier that were given whatever they are, and with all else that was
/// given. What was not given is left to the store, and so is the part of a show that is not
/// given by both its numbers.
pub proof fn law_saved_review_is_the_posted_one(post: PostReview)
    ensures
        post.after(None) matches Step::Do(save) && {
            &&& save.review.id == match post.input.review_id {
                Some(id) => ActiveValue::Write(id.0),
                None => ActiveValue::NotSet,
            }
            &&& save.review.posted_on == match post.input.date {
                Some(date) => ActiveValue::Write(date),
                None => ActiveValue::NotSet,
            }
            &&& save.review.rating == ActiveValue::Write(post.input.rating)
            &&& save.review.text == ActiveValue::Write(post.input.text)
            &&& save.review.visibility == match post.input.visibility {
                Some(visibility) => ActiveValue::Write(visibility),
                None => ActiveValue::NotSet,
            }
            &&& save.review.spoiler == match post.input.spoiler {
                Some(spoiler) => ActiveValue::Write(spoiler),
                None => ActiveValue::NotSet,
            }
            &&& save.review.user_id == ActiveValue::Write(post.user_id)
            &&& save.review.metadata_id == ActiveValue::Write(post.input.metadata_id.0)
            &&& save.review.extra_information == match (
                post.input.season_number,
                post.input.episode_number,
            ) {
                (Some(season), Some(episode)) => ActiveValue::Write(
                    Some(SeenExtraInformation::Show(SeenShowExtraInformation { season, episode })),
                ),
                _ => ActiveValue::NotSet,
            }
            &&& save.review.identifier == ActiveValue::Write(post.input.identifier)
        },
{
}

/// Law: a review that is saved by a post and read again is shown to its author as it was
/// posted; what was not given is shown as the row had it.
pub proof fn law_posted_review_is_read_back(post: PostReview, before: ReviewModel, author: UserModel)
    requires
        author.id == post.user_id,
    ensures
        post.after(None) matches Step::Do(save) && {
            let row = save.review.written(before);
            let read = seen_by(post.user_id, seq![(row, author)]);
            &&& row.user_id == post.user_id
            &&& row.metadata_id == post.input.metadata_id.0
            &&& row.identifier == post.input.identifier
            &&& read.len() == 1
            &&& read[0].rating == post.input.rating
            &&& read[0].text == post.input.text
            &&& post.input.review_id matches Some(id) ==> read[0].id == id
            &&& post.input.visibility matches Some(visibility) ==> read[0].visibility == visibility
            &&& post.input.visibility is None ==> read[0].visibility == before.visibility
            &&& post.input.spoiler matches Some(spoiler) ==> read[0].spoiler == spoiler
            &&& post.input.spoiler is None ==> read[0].spoiler == before.spoiler
            &&& post.input.date matches Some(date) ==> read[0].posted_on == date
            &&& post.input.date is None ==> read[0].posted_on == before.posted_on
            &&& post.input.season_number is Some && post.input.episode_number is Some ==> {
                &&& read[0].season_number == post.input.season_number
                &&& read[0].episode_number == post.input.episode_number
                &&& read[0].podcast_episode_id is None
            }
            &&& post.input.season_number is None || post.input.episode_number is None
                ==> row.extra_information == before.extra_information
        },
{
    let row = drafted(post.user_id, post.input).written(before);
    law_next_review_is_shown(post.user_id, Seq::empty(), row, author);
    assert(Seq::<(ReviewModel, UserModel)>::empty().push((row, author)) =~= seq![(row, author)]);
}

/// Law: who may delete a review, and what everybody else is told.
pub proof fn law_review_deletion_is_answered(delete: DeleteReview, review: ReviewModel)
    ensures
        review.user_id == delete.user_id ==> delete.after(Some(review)) == Step::<
            RemoveReview,
            bool,
        >::Do(RemoveReview { review_id: review.id }),
        review.user_id != delete.user_id ==> delete.after(Some(review)) == Step::<
            RemoveReview,
            bool,
        >::Done(Err(Error::ReviewNotOwned)),
        delete.after(None) == Step::<RemoveReview, bool>::Done(Ok(false)),
{
}

} // verus!
