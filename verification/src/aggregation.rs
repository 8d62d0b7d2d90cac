//! The aggregation as a sequence of remote calls and decisions.
//!
//! The engine never talks to the provider itself. It says which call to make
//! next; whoever drives it makes the call and hands the answer back. One run
//! asks for a page of saved tracks, then for the artists that the page
//! mentions, then for the audio features of its tracks, and ends with the
//! report. A failed call ends the run with that failure: there is no partial
//! report.

use vstd::prelude::*;
use crate::ids::{artist_ids, track_ids, wanted_artist_ids, wanted_track_ids};
use crate::join::{build_user_analysis, user_analysis};
use crate::model::{
    artists, audio_features, texts, Artist, ArtistView, AudioFeatures, AudioFeaturesView,
    SavedTracksPage, SavedTracksPageView, UserAnalysis, UserAnalysisView,
};

verus! {

/// Why an aggregation ended without a report.
#[derive(Debug, PartialEq, Eq)]
pub enum ApiError {
    /// A remote call failed; the text says how.
    Remote(String),
    /// An answer arrived that does not belong to the call that was pending.
    Unexpected,
}

pub enum ApiErrorView {
    Remote(Seq<char>),
    Unexpected,
}

impl View for ApiError {
    type V = ApiErrorView;

    open spec fn view(&self) -> ApiErrorView {
        match self {
            ApiError::Remote(text) => ApiErrorView::Remote(text@),
            ApiError::Unexpected => ApiErrorView::Unexpected,
        }
    }
}

/// A call for the driver to make on the provider.
#[derive(Debug, PartialEq, Eq)]
pub enum RemoteCall {
    /// One page of the user's saved tracks.
    SavedTracks { limit: u32, offset: u32 },
    /// The details of the artists with these ids, in one batch.
    Artists { ids: Vec<String> },
    /// The audio features of the tracks with these ids, in one batch.
    AudioFeatures { ids: Vec<String> },
}

pub enum RemoteCallView {
    SavedTracks { limit: u32, offset: u32 },
    Artists { ids: Seq<Seq<char>> },
    AudioFeatures { ids: Seq<Seq<char>> },
}

impl View for RemoteCall {
    type V = RemoteCallView;

    open spec fn view(&self) -> RemoteCallView {
        match self {
            RemoteCall::SavedTracks { limit, offset } => RemoteCallView::SavedTracks {
                limit: *limit,
                offset: *offset,
            },
            RemoteCall::Artists { ids } => RemoteCallView::Artists { ids: texts(ids@) },
            RemoteCall::AudioFeatures { ids } => RemoteCallView::AudioFeatures { ids: texts(ids@) },
        }
    }
}

/// What the provider answered to a call.
#[derive(Debug, PartialEq, Eq)]
pub enum RemoteAnswer {
    SavedTracks(SavedTracksPage),
    Artists(Vec<Artist>),
    /// The features that the provider returned; `None` where it returned no list at all.
    AudioFeatures(Option<Vec<AudioFeatures>>),
    /// The call failed; the text says how.
    Failed(String),
}

pub enum RemoteAnswerView {
    SavedTracks(SavedTracksPageView),
    Artists(Seq<ArtistView>),
    AudioFeatures(Option<Seq<AudioFeaturesView>>),
    Failed(Seq<char>),
}

impl View for RemoteAnswer {
    type V = RemoteAnswerView;

    open spec fn view(&self) -> RemoteAnswerView {
        match self {
            RemoteAnswer::SavedTracks(page) => RemoteAnswerView::SavedTracks(page@),
            RemoteAnswer::Artists(list) => RemoteAnswerView::Artists(artists(list@)),
            RemoteAnswer::AudioFeatures(Some(list)) => RemoteAnswerView::AudioFeatures(
                Some(audio_features(list@)),
            ),
            RemoteAnswer::AudioFeatures(None) => RemoteAnswerView::AudioFeatures(None),
            RemoteAnswer::Failed(text) => RemoteAnswerView::Failed(text@),
        }
    }
}

/// What the driver does after a step: make another call, or take the result.
#[derive(Debug, PartialEq, Eq)]
pub enum Progress {
    Call(RemoteCall),
    Done(Result<UserAnalysis, ApiError>),
}

pub enum ProgressView {
    Call(RemoteCallView),
    Done(Result<UserAnalysisView, ApiErrorView>),
}

impl View for Progress {
    type V = ProgressView;

    open spec fn view(&self) -> ProgressView {
        match self {
            Progress::Call(call) => ProgressView::Call(call@),
            Progress::Done(Ok(report)) => ProgressView::Done(Ok(report@)),
            Progress::Done(Err(error)) => ProgressView::Done(Err(error@)),
        }
    }
}

/// Where one aggregation stands: which answer it waits for, and what it has so far.
#[derive(Debug, PartialEq, Eq)]
pub enum Aggregation {
    AwaitingTracks { limit: u32, offset: u32 },
    AwaitingArtists { limit: u32, offset: u32, page: SavedTracksPage },
    AwaitingFeatures { limit: u32, offset: u32, page: SavedTracksPage, artists: Vec<Artist> },
    /// The run is over; every further answer is unexpected.
    Finished,
}

pub enum AggregationView {
    AwaitingTracks { limit: u32, offset: u32 },
    AwaitingArtists { limit: u32, offset: u32, page: SavedTracksPageView },
    AwaitingFeatures { limit: u32, offset: u32, page: SavedTracksPageView, artists: Seq<ArtistView> },
    Finished,
}

impl View for Aggregation {
    type V = AggregationView;

    open spec fn view(&self) -> AggregationView {
        match self {
            Aggregation::AwaitingTracks { limit, offset } => AggregationView::AwaitingTracks {
                limit: *limit,
                offset: *offset,
            },
            Aggregation::AwaitingArtists { limit, offset, page } => AggregationView::AwaitingArtists {
                limit: *limit,
                offset: *offset,
                page: page@,
            },
            Aggregation::AwaitingFeatures {
                limit,
                offset,
                page,
                artists: list,
            } => AggregationView::AwaitingFeatures {
                limit: *limit,
                offset: *offset,
                page: page@,
                artists: artists(list@),
            },
            Aggregation::Finished => AggregationView::Finished,
        }
    }
}

/// The features that an audio-features answer stands for: no list is an empty list.
pub open spec fn answered_features(answer: Option<Seq<AudioFeaturesView>>) -> Seq<AudioFeaturesView> {
    match answer {
        Some(list) => list,
        None => Seq::empty(),
    }
}

/// How a run begins: it waits for the page, and asks for it.
pub open spec fn first_step(limit: u32, offset: u32) -> (AggregationView, RemoteCallView) {
    (
        AggregationView::AwaitingTracks { limit, offset },
        RemoteCallView::SavedTracks { limit, offset },
    )
}

/// One step of a run: the state after `answer`, and what the driver does next.
pub open spec fn next_step(state: AggregationView, answer: RemoteAnswerView) -> (
    AggregationView,
    ProgressView,
) {
    match (state, answer) {
        (AggregationView::Finished, _) => (
            AggregationView::Finished,
            ProgressView::Done(Err(ApiErrorView::Unexpected)),
        ),
        (_, RemoteAnswerView::Failed(text)) => (
            AggregationView::Finished,
            ProgressView::Done(Err(ApiErrorView::Remote(text))),
        ),
        (AggregationView::AwaitingTracks { limit, offset }, RemoteAnswerView::SavedTracks(page)) => (
            AggregationView::AwaitingArtists { limit, offset, page },
            ProgressView::Call(RemoteCallView::Artists { ids: wanted_artist_ids(page.items) }),
        ),
        (
            AggregationView::AwaitingArtists { limit, offset, page },
            RemoteAnswerView::Artists(list),
        ) => (
            AggregationView::AwaitingFeatures { limit, offset, page, artists: list },
            ProgressView::Call(RemoteCallView::AudioFeatures { ids: wanted_track_ids(page.items) }),
        ),
        (
            AggregationView::AwaitingFeatures { limit, offset, page, artists: list },
            RemoteAnswerView::AudioFeatures(answer),
        ) => (
            AggregationView::Finished,
            ProgressView::Done(
                Ok(user_analysis(page, list, answered_features(answer), limit, offset)),
            ),
        ),
        _ => (AggregationView::Finished, ProgressView::Done(Err(ApiErrorView::Unexpected))),
    }
}

impl Aggregation {
    /// Begins a run for one page of saved tracks, and says which call to make first.
    pub fn start(limit: u32, offset: u32) -> (r: (Aggregation, RemoteCall))
        ensures
            (r.0@, r.1@) == first_step(limit, offset),
    {
        (Aggregation::AwaitingTracks { limit, offset }, RemoteCall::SavedTracks { limit, offset })
    }

    /// Whether the run is over.
    pub fn is_finished(&self) -> (r: bool)
        ensures
            r == (self@ is Finished),
    {
        match self {
            Aggregation::Finished => true,
            _ => false,
        }
    }

    /// Takes the answer to the pending call, and says what to do next: the
    /// next call, or the result of the run.
    pub fn advance(self, answer: RemoteAnswer) -> (r: (Aggregation, Progress))
        ensures
            (r.0@, r.1@) == next_step(self@, answer@),
    {
        match self {
            Aggregation::Finished => (Aggregation::Finished, Progress::Done(Err(ApiError::Unexpected))),
            Aggregation::AwaitingTracks { limit, offset } => match answer {
                RemoteAnswer::Failed(text) => (
                    Aggregation::Finished,
                    Progress::Done(Err(ApiError::Remote(text))),
                ),
                RemoteAnswer::SavedTracks(page) => {
                    let ids = artist_ids(&page.items);
                    (
                        Aggregation::AwaitingArtists { limit, offset, page },
                        Progress::Call(RemoteCall::Artists { ids }),
                    )
                },
                _ => (Aggregation::Finished, Progress::Done(Err(ApiError::Unexpected))),
            },
            Aggregation::AwaitingArtists { limit, offset, page } => match answer {
                RemoteAnswer::Failed(text) => (
                    Aggregation::Finished,
                    Progress::Done(Err(ApiError::Remote(text))),
                ),
                RemoteAnswer::Artists(list) => {
                    let ids = track_ids(&page.items);
                    (
                        Aggregation::AwaitingFeatures { limit, offset, page, artists: list },
                        Progress::Call(RemoteCall::AudioFeatures { ids }),
                    )
                },
                _ => (Aggregation::Finished, Progress::Done(Err(ApiError::Unexpected))),
            },
            Aggregation::AwaitingFeatures { limit, offset, page, artists: list } => match answer {
                RemoteAnswer::Failed(text) => (
                    Aggregation::Finished,
                    Progress::Done(Err(ApiError::Remote(text))),
                ),
                RemoteAnswer::AudioFeatures(answer) => {
                    let features = match answer {
                        Some(features) => features,
                        None => Vec::new(),
                    };
                    assert(audio_features(features@) =~= answered_features(
                        RemoteAnswer::AudioFeatures(answer)@->AudioFeatures_0,
                    ));
                    let report = build_user_analysis(&page, &list, &features, limit, offset);
                    (Aggregation::Finished, Progress::Done(Ok(report)))
                },
                _ => (Aggregation::Finished, Progress::Done(Err(ApiError::Unexpected))),
            },
        }
    }
}

/// A run whose three calls are answered ends with the report on those
/// answers, after asking for exactly the artist ids and the track ids that
/// the page mentions.
pub proof fn lemma_answered_run(
    limit: u32,
    offset: u32,
    page: SavedTracksPageView,
    list: Seq<ArtistView>,
    features: Option<Seq<AudioFeaturesView>>,
)
    ensures
        ({
            let s0 = first_step(limit, offset);
            let s1 = next_step(s0.0, RemoteAnswerView::SavedTracks(page));
            let s2 = next_step(s1.0, RemoteAnswerView::Artists(list));
            let s3 = next_step(s2.0, RemoteAnswerView::AudioFeatures(features));
            &&& s0.1 == RemoteCallView::SavedTracks { limit, offset }
            &&& s1.1 == ProgressView::Call(RemoteCallView::Artists { ids: wanted_artist_ids(page.items) })
            &&& s2.1 == ProgressView::Call(
                RemoteCallView::AudioFeatures { ids: wanted_track_ids(page.items) },
            )
            &&& s3.1 == ProgressView::Done(
                Ok(user_analysis(page, list, answered_features(features), limit, offset)),
            )
            &&& s3.0 == AggregationView::Finished
        }),
{
}

/// A failed call ends a run that is under way, with that failure and no report.
pub proof fn lemma_failure_ends_run(state: AggregationView, text: Seq<char>)
    requires
        !(state is Finished),
    ensures
        next_step(state, RemoteAnswerView::Failed(text)) == (
            AggregationView::Finished,
            ProgressView::Done(Err::<UserAnalysisView, ApiErrorView>(ApiErrorView::Remote(text))),
        ),
{
}

/// Every step either asks for one more call or ends the run, and a run that
/// has ended stays ended.
pub proof fn lemma_done_is_finished(state: AggregationView, answer: RemoteAnswerView)
    ensures
        next_step(state, answer).1 is Done <==> next_step(state, answer).0 is Finished,
        state is Finished ==> next_step(state, answer).0 is Finished,
{
}

} // verus!
