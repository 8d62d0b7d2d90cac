//! The records that the join works on, each with its mathematical view.
//!
//! Text is viewed as `Seq<char>`, a list as a `Seq` of its items' views, so
//! that two records with equal views are indistinguishable to every contract
//! in this crate.

use vstd::prelude::*;

verus! {

/// View of an optional piece of text.
pub open spec fn opt_text(o: Option<String>) -> Option<Seq<char>> {
    match o {
        Some(s) => Some(s@),
        None => None,
    }
}

/// View of a list of texts.
pub open spec fn texts(v: Seq<String>) -> Seq<Seq<char>> {
    Seq::new(v.len(), |i: int| v[i]@)
}

/// Copies an optional text.
pub fn copy_opt_text(o: &Option<String>) -> (r: Option<String>)
    ensures
        opt_text(r) == opt_text(*o),
{
    match o {
        Some(s) => Some(s.clone()),
        None => None,
    }
}

/// Copies a list of texts, item by item.
pub fn copy_texts(v: &Vec<String>) -> (r: Vec<String>)
    ensures
        texts(r@) == texts(v@),
{
    let mut out: Vec<String> = Vec::new();
    let mut i: usize = 0;
    while i < v.len()
        invariant
            i <= v.len(),
            out.len() == i,
            forall|k: int| 0 <= k < i ==> out@[k]@ == v@[k]@,
        decreases v.len() - i,
    {
        out.push(v[i].clone());
        i = i + 1;
    }
    assert(texts(out@) =~= texts(v@));
    out
}

/// A reference to an artist as it appears inside a track.
#[derive(Debug, PartialEq, Eq)]
pub struct ArtistRef {
    /// The provider's id of the artist, absent for some provider-internal entities.
    pub id: Option<String>,
    /// The artist's uri, the key under which its genres are looked up.
    pub uri: Option<String>,
    pub name: String,
}

pub struct ArtistRefView {
    pub id: Option<Seq<char>>,
    pub uri: Option<Seq<char>>,
    pub name: Seq<char>,
}

impl View for ArtistRef {
    type V = ArtistRefView;

    open spec fn view(&self) -> ArtistRefView {
        ArtistRefView { id: opt_text(self.id), uri: opt_text(self.uri), name: self.name@ }
    }
}

impl Clone for ArtistRef {
    fn clone(&self) -> (r: Self)
        ensures
            r@ == self@,
    {
        ArtistRef {
            id: copy_opt_text(&self.id),
            uri: copy_opt_text(&self.uri),
            name: self.name.clone(),
        }
    }
}

/// View of a list of artist references.
pub open spec fn artist_refs(v: Seq<ArtistRef>) -> Seq<ArtistRefView> {
    Seq::new(v.len(), |i: int| v[i]@)
}

/// Copies a list of artist references, item by item.
pub fn copy_artist_refs(v: &Vec<ArtistRef>) -> (r: Vec<ArtistRef>)
    ensures
        artist_refs(r@) == artist_refs(v@),
{
    let mut out: Vec<ArtistRef> = Vec::new();
    let mut i: usize = 0;
    while i < v.len()
        invariant
            i <= v.len(),
            out.len() == i,
            forall|k: int| 0 <= k < i ==> out@[k]@ == v@[k]@,
        decreases v.len() - i,
    {
        out.push(v[i].clone());
        i = i + 1;
    }
    assert(artist_refs(out@) =~= artist_refs(v@));
    out
}

/// A track of the provider's catalogue.
#[derive(Debug, PartialEq, Eq)]
pub struct Track {
    /// Absent for tracks that the provider cannot address, such as local files.
    pub id: Option<String>,
    pub uri: String,
    pub name: String,
    /// The track's artists, in the provider's order.
    pub artists: Vec<ArtistRef>,
}

pub struct TrackView {
    pub id: Option<Seq<char>>,
    pub uri: Seq<char>,
    pub name: Seq<char>,
    pub artists: Seq<ArtistRefView>,
}

impl View for Track {
    type V = TrackView;

    open spec fn view(&self) -> TrackView {
        TrackView {
            id: opt_text(self.id),
            uri: self.uri@,
            name: self.name@,
            artists: artist_refs(self.artists@),
        }
    }
}

impl Clone for Track {
    fn clone(&self) -> (r: Self)
        ensures
            r@ == self@,
    {
        Track {
            id: copy_opt_text(&self.id),
            uri: self.uri.clone(),
            name: self.name.clone(),
            artists: copy_artist_refs(&self.artists),
        }
    }
}

/// A track together with the moment at which the user saved it.
#[derive(Debug, PartialEq, Eq)]
pub struct SavedTrack {
    /// The timestamp of saving, as the provider wrote it.
    pub added_at: String,
    pub track: Track,
}

pub struct SavedTrackView {
    pub added_at: Seq<char>,
    pub track: TrackView,
}

impl View for SavedTrack {
    type V = SavedTrackView;

    open spec fn view(&self) -> SavedTrackView {
        SavedTrackView { added_at: self.added_at@, track: self.track@ }
    }
}

impl Clone for SavedTrack {
    fn clone(&self) -> (r: Self)
        ensures
            r@ == self@,
    {
        SavedTrack { added_at: self.added_at.clone(), track: self.track.clone() }
    }
}

/// View of a list of saved tracks.
pub open spec fn saved_tracks(v: Seq<SavedTrack>) -> Seq<SavedTrackView> {
    Seq::new(v.len(), |i: int| v[i]@)
}

/// One page of the user's saved tracks.
#[derive(Debug, PartialEq, Eq)]
pub struct SavedTracksPage {
    /// The tracks of this page, in the provider's order.
    pub items: Vec<SavedTrack>,
    /// How many tracks the user has saved in all, as the provider reports it.
    pub total: u32,
}

pub struct SavedTracksPageView {
    pub items: Seq<SavedTrackView>,
    pub total: u32,
}

impl View for SavedTracksPage {
    type V = SavedTracksPageView;

    open spec fn view(&self) -> SavedTracksPageView {
        SavedTracksPageView { items: saved_tracks(self.items@), total: self.total }
    }
}

/// An artist with its details, as the batch lookup returns it.
#[derive(Debug, PartialEq, Eq)]
pub struct Artist {
    pub uri: String,
    pub id: String,
    /// The artist's genres; none, one or several, in no particular order.
    pub genres: Vec<String>,
}

pub struct ArtistView {
    pub uri: Seq<char>,
    pub id: Seq<char>,
    pub genres: Seq<Seq<char>>,
}

impl View for Artist {
    type V = ArtistView;

    open spec fn view(&self) -> ArtistView {
        ArtistView { uri: self.uri@, id: self.id@, genres: texts(self.genres@) }
    }
}

/// View of a list of artists.
pub open spec fn artists(v: Seq<Artist>) -> Seq<ArtistView> {
    Seq::new(v.len(), |i: int| v[i]@)
}

/// The whole-number attributes of a track's audio analysis, keyed by the track's id.
#[derive(Debug, PartialEq, Eq)]
pub struct AudioFeatures {
    /// The id of the track that these features describe.
    pub id: String,
    pub duration_ms: u32,
    /// The pitch class of the track's key, `-1` where none was detected.
    pub key: i32,
    pub time_signature: i32,
}

pub struct AudioFeaturesView {
    pub id: Seq<char>,
    pub duration_ms: u32,
    pub key: i32,
    pub time_signature: i32,
}

impl View for AudioFeatures {
    type V = AudioFeaturesView;

    open spec fn view(&self) -> AudioFeaturesView {
        AudioFeaturesView {
            id: self.id@,
            duration_ms: self.duration_ms,
            key: self.key,
            time_signature: self.time_signature,
        }
    }
}

impl Clone for AudioFeatures {
    fn clone(&self) -> (r: Self)
        ensures
            r@ == self@,
    {
        AudioFeatures {
            id: self.id.clone(),
            duration_ms: self.duration_ms,
            key: self.key,
            time_signature: self.time_signature,
        }
    }
}

/// View of a list of audio features.
pub open spec fn audio_features(v: Seq<AudioFeatures>) -> Seq<AudioFeaturesView> {
    Seq::new(v.len(), |i: int| v[i]@)
}

/// One saved track joined with its genres and its audio features.
#[derive(Debug, PartialEq, Eq)]
pub struct TrackAnalysis {
    /// Where the track stands in the page it was taken from.
    pub position: usize,
    pub track: SavedTrack,
    /// The genres of the track's artists, artist after artist, repeats kept.
    pub genres: Vec<String>,
    /// Where the matched features stand in the provider's answer.
    pub features_position: usize,
    pub audio_features: AudioFeatures,
}

pub struct TrackAnalysisView {
    pub position: int,
    pub track: SavedTrackView,
    pub genres: Seq<Seq<char>>,
    pub features_position: int,
    pub audio_features: AudioFeaturesView,
}

impl View for TrackAnalysis {
    type V = TrackAnalysisView;

    open spec fn view(&self) -> TrackAnalysisView {
        TrackAnalysisView {
            position: self.position as int,
            track: self.track@,
            genres: texts(self.genres@),
            features_position: self.features_position as int,
            audio_features: self.audio_features@,
        }
    }
}

/// View of a list of joined tracks.
pub open spec fn track_analyses(v: Seq<TrackAnalysis>) -> Seq<TrackAnalysisView> {
    Seq::new(v.len(), |i: int| v[i]@)
}

/// The report on one page of a user's saved tracks.
#[derive(Debug, PartialEq, Eq)]
pub struct UserAnalysis {
    /// The tracks that could be joined, in the order of the page.
    pub tracks: Vec<TrackAnalysis>,
    pub limit: u32,
    pub offset: u32,
    /// The provider's count of all saved tracks, whatever became of this page's.
    pub total: u32,
}

pub struct UserAnalysisView {
    pub tracks: Seq<TrackAnalysisView>,
    pub limit: u32,
    pub offset: u32,
    pub total: u32,
}

impl View for UserAnalysis {
    type V = UserAnalysisView;

    open spec fn view(&self) -> UserAnalysisView {
        UserAnalysisView {
            tracks: track_analyses(self.tracks@),
            limit: self.limit,
            offset: self.offset,
            total: self.total,
        }
    }
}

} // verus!
