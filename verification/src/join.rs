//! The three-way join: saved tracks, the genres of their artists, and their
//! audio features, reconciled into one record per track.
//!
//! A lookup that finds nothing is never an error. An artist without a uri, or
//! whose uri the artist lookup did not answer, adds no genres; a track without
//! an id, or whose id the audio-features lookup did not answer, is left out.

use vstd::prelude::*;
use crate::model::{
    artist_refs, artists, audio_features, saved_tracks, texts, track_analyses,
    Artist, ArtistRef, ArtistRefView, ArtistView, AudioFeatures, AudioFeaturesView, SavedTrack,
    SavedTrackView, SavedTracksPage, SavedTracksPageView, TrackAnalysis, TrackAnalysisView,
    UserAnalysis, UserAnalysisView,
};

verus! {

/// For each key, the position of its last occurrence in `keys`: where a key
/// stands more than once, the later entry replaces the earlier.
pub open spec fn positions(keys: Seq<Seq<char>>) -> Map<Seq<char>, int>
    decreases keys.len(),
{
    if keys.len() == 0 {
        Map::empty()
    } else {
        positions(keys.drop_last()).insert(keys.last(), keys.len() - 1)
    }
}

/// The uris of a list of artists, in order.
pub open spec fn artist_uris(list: Seq<ArtistView>) -> Seq<Seq<char>> {
    Seq::new(list.len(), |i: int| list[i].uri)
}

/// The track ids of a list of audio features, in order.
pub open spec fn feature_ids(list: Seq<AudioFeaturesView>) -> Seq<Seq<char>> {
    Seq::new(list.len(), |i: int| list[i].id)
}

/// The mapping from artist uri to genres that a list of artists gives.
pub open spec fn genre_map(list: Seq<ArtistView>) -> Map<Seq<char>, Seq<Seq<char>>>
    decreases list.len(),
{
    if list.len() == 0 {
        Map::empty()
    } else {
        genre_map(list.drop_last()).insert(list.last().uri, list.last().genres)
    }
}

/// The mapping from track id to audio features that a list of features gives.
pub open spec fn features_map(list: Seq<AudioFeaturesView>) -> Map<Seq<char>, AudioFeaturesView>
    decreases list.len(),
{
    if list.len() == 0 {
        Map::empty()
    } else {
        features_map(list.drop_last()).insert(list.last().id, list.last())
    }
}

/// What one artist of a track adds to the track's genres.
pub open spec fn genres_of(r: ArtistRefView, list: Seq<ArtistView>) -> Seq<Seq<char>> {
    match r.uri {
        Some(uri) => if genre_map(list).contains_key(uri) {
            genre_map(list)[uri]
        } else {
            Seq::empty()
        },
        None => Seq::empty(),
    }
}

/// The genres of a track: those of its artists, artist after artist, repeats kept.
pub open spec fn track_genres(refs: Seq<ArtistRefView>, list: Seq<ArtistView>) -> Seq<Seq<char>>
    decreases refs.len(),
{
    if refs.len() == 0 {
        Seq::empty()
    } else {
        track_genres(refs.drop_last(), list) + genres_of(refs.last(), list)
    }
}

/// How many genres the artists of a track have among them, counting only
/// artists whose uri the mapping resolves.
pub open spec fn resolved_genre_count(refs: Seq<ArtistRefView>, list: Seq<ArtistView>) -> nat
    decreases refs.len(),
{
    if refs.len() == 0 {
        0
    } else {
        let rest = resolved_genre_count(refs.drop_last(), list);
        match refs.last().uri {
            Some(uri) => if genre_map(list).contains_key(uri) {
                rest + genre_map(list)[uri].len()
            } else {
                rest
            },
            None => rest,
        }
    }
}

/// The record for the track at `position` of the page, if it can be joined:
/// it has an id, and the features answer that id.
pub open spec fn joined_track(
    track: SavedTrackView,
    position: int,
    list: Seq<ArtistView>,
    features: Seq<AudioFeaturesView>,
) -> Option<TrackAnalysisView> {
    match track.track.id {
        Some(id) => if positions(feature_ids(features)).contains_key(id) {
            let at = positions(feature_ids(features))[id];
            Some(
                TrackAnalysisView {
                    position,
                    track,
                    genres: track_genres(track.track.artists, list),
                    features_position: at,
                    audio_features: features[at],
                },
            )
        } else {
            None
        },
        None => None,
    }
}

/// The records for the tracks of a page, in the page's order.
pub open spec fn joined(
    items: Seq<SavedTrackView>,
    list: Seq<ArtistView>,
    features: Seq<AudioFeaturesView>,
) -> Seq<TrackAnalysisView>
    decreases items.len(),
{
    if items.len() == 0 {
        Seq::empty()
    } else {
        let rest = joined(items.drop_last(), list, features);
        match joined_track(items.last(), items.len() - 1, list, features) {
            Some(row) => rest.push(row),
            None => rest,
        }
    }
}

/// What holds of every record of a report: it stands for the track at its
/// position of the page; that track has an id, which is the id of the joined
/// features; the features are those that the features mapping holds for that
/// id; and the genres are those of the track's artists, as many as the
/// resolved artists have among them.
pub open spec fn well_joined(
    row: TrackAnalysisView,
    items: Seq<SavedTrackView>,
    list: Seq<ArtistView>,
    features: Seq<AudioFeaturesView>,
) -> bool {
    &&& 0 <= row.position < items.len()
    &&& row.track == items[row.position]
    &&& row.track.track.id == Some(row.audio_features.id)
    &&& features_map(features).contains_key(row.audio_features.id)
    &&& row.audio_features == features_map(features)[row.audio_features.id]
    &&& row.genres == track_genres(row.track.track.artists, list)
    &&& row.genres.len() == resolved_genre_count(row.track.track.artists, list)
}

/// The report on a page, given what the two lookups answered.
pub open spec fn user_analysis(
    page: SavedTracksPageView,
    list: Seq<ArtistView>,
    features: Seq<AudioFeaturesView>,
    limit: u32,
    offset: u32,
) -> UserAnalysisView {
    UserAnalysisView { tracks: joined(page.items, list, features), limit, offset, total: page.total }
}

/// `positions(keys)` knows exactly the keys that occur, and gives for each the
/// one position after which it does not occur again.
pub proof fn lemma_positions(keys: Seq<Seq<char>>, key: Seq<char>)
    ensures
        positions(keys).contains_key(key) <==> keys.contains(key),
        positions(keys).contains_key(key) ==> {
            let at = positions(keys)[key];
            &&& 0 <= at < keys.len()
            &&& keys[at] == key
            &&& forall|j: int| at < j < keys.len() ==> keys[j] != key
        },
    decreases keys.len(),
{
    if keys.len() > 0 {
        let init = keys.drop_last();
        lemma_positions(init, key);
        if keys.last() != key {
            if keys.contains(key) {
                let i = choose|i: int| 0 <= i < keys.len() && keys[i] == key;
                assert(init[i] == key);
            }
            if init.contains(key) {
                let i = choose|i: int| 0 <= i < init.len() && init[i] == key;
                assert(keys[i] == key);
                let at = positions(init)[key];
                assert forall|j: int| at < j < keys.len() implies keys[j] != key by {
                    if j < init.len() {
                        assert(init[j] != key);
                    }
                }
            }
        } else {
            assert(keys[keys.len() - 1] == key);
        }
    }
}

/// The genre mapping holds, for each uri that occurs, the genres of the last
/// artist with that uri.
pub proof fn lemma_genre_map(list: Seq<ArtistView>, uri: Seq<char>)
    ensures
        genre_map(list).contains_key(uri) <==> positions(artist_uris(list)).contains_key(uri),
        genre_map(list).contains_key(uri) ==> genre_map(list)[uri] == list[positions(
            artist_uris(list),
        )[uri]].genres,
    decreases list.len(),
{
    if list.len() > 0 {
        lemma_genre_map(list.drop_last(), uri);
        lemma_positions(artist_uris(list.drop_last()), uri);
        assert(artist_uris(list).drop_last() =~= artist_uris(list.drop_last()));
    }
}

/// The features mapping holds, for each id that occurs, the last features with that id.
pub proof fn lemma_features_map(list: Seq<AudioFeaturesView>, id: Seq<char>)
    ensures
        features_map(list).contains_key(id) <==> positions(feature_ids(list)).contains_key(id),
        features_map(list).contains_key(id) ==> features_map(list)[id] == list[positions(
            feature_ids(list),
        )[id]],
    decreases list.len(),
{
    if list.len() > 0 {
        lemma_features_map(list.drop_last(), id);
        lemma_positions(feature_ids(list.drop_last()), id);
        assert(feature_ids(list).drop_last() =~= feature_ids(list.drop_last()));
    }
}

/// The position of the last artist of `list` whose uri is `uri`, if there is one.
pub fn find_artist(list: &Vec<Artist>, uri: &String) -> (r: Option<usize>)
    ensures
        match r {
            Some(at) => positions(artist_uris(artists(list@))).contains_key(uri@) && positions(
                artist_uris(artists(list@)),
            )[uri@] == at,
            None => !positions(artist_uris(artists(list@))).contains_key(uri@),
        },
{
    let ghost keys = artist_uris(artists(list@));
    let mut i: usize = list.len();
    while i > 0
        invariant
            i <= list.len(),
            keys == artist_uris(artists(list@)),
            forall|j: int| i <= j < list.len() ==> keys[j] != uri@,
        decreases i,
    {
        i = i - 1;
        if list[i].uri == *uri {
            proof {
                lemma_positions(keys, uri@);
                assert(keys[i as int] == uri@);
            }
            return Some(i);
        }
    }
    proof {
        lemma_positions(keys, uri@);
    }
    None
}

/// The position of the last entry of `list` whose track id is `id`, if there is one.
pub fn find_features(list: &Vec<AudioFeatures>, id: &String) -> (r: Option<usize>)
    ensures
        match r {
            Some(at) => positions(feature_ids(audio_features(list@))).contains_key(id@)
                && positions(feature_ids(audio_features(list@)))[id@] == at,
            None => !positions(feature_ids(audio_features(list@))).contains_key(id@),
        },
{
    let ghost keys = feature_ids(audio_features(list@));
    let mut i: usize = list.len();
    while i > 0
        invariant
            i <= list.len(),
            keys == feature_ids(audio_features(list@)),
            forall|j: int| i <= j < list.len() ==> keys[j] != id@,
        decreases i,
    {
        i = i - 1;
        if list[i].id == *id {
            proof {
                lemma_positions(keys, id@);
                assert(keys[i as int] == id@);
            }
            return Some(i);
        }
    }
    proof {
        lemma_positions(keys, id@);
    }
    None
}

/// Appends copies of the texts of `more` to `list`.
pub fn append_texts(list: &mut Vec<String>, more: &Vec<String>)
    ensures
        texts(final(list)@) == texts(old(list)@) + texts(more@),
{
    let mut i: usize = 0;
    assert(texts(list@) =~= texts(old(list)@) + texts(more@).take(0));
    while i < more.len()
        invariant
            i <= more.len(),
            texts(list@) == texts(old(list)@) + texts(more@).take(i as int),
        decreases more.len() - i,
    {
        let ghost before = texts(list@);
        list.push(more[i].clone());
        assert(texts(list@) =~= before.push(more@[i as int]@));
        assert(texts(list@) =~= texts(old(list)@) + texts(more@).take(i + 1));
        i = i + 1;
    }
    assert(texts(more@).take(more.len() as int) =~= texts(more@));
}

/// The genres of a track with the artists `refs`, looked up in `list`.
pub fn genres_for(refs: &Vec<ArtistRef>, list: &Vec<Artist>) -> (genres: Vec<String>)
    ensures
        texts(genres@) == track_genres(artist_refs(refs@), artists(list@)),
{
    let ghost these = artist_refs(refs@);
    let ghost known = artists(list@);
    let mut genres: Vec<String> = Vec::new();
    let mut i: usize = 0;
    assert(texts(genres@) =~= track_genres(these.take(0), known));
    while i < refs.len()
        invariant
            i <= refs.len(),
            these == artist_refs(refs@),
            known == artists(list@),
            texts(genres@) == track_genres(these.take(i as int), known),
        decreases refs.len() - i,
    {
        let ghost before = texts(genres@);
        assert(these.take(i + 1).drop_last() =~= these.take(i as int));
        assert(these.take(i + 1).last() == these[i as int]);
        match &refs[i].uri {
            Some(uri) => {
                assert(these[i as int].uri == Some(uri@));
                proof {
                    lemma_genre_map(known, uri@);
                }
                match find_artist(list, uri) {
                    Some(at) => {
                        proof {
                            lemma_positions(artist_uris(known), uri@);
                        }
                        append_texts(&mut genres, &list[at].genres);
                    },
                    None => {
                        assert(before + Seq::<Seq<char>>::empty() =~= before);
                    },
                }
            },
            None => {
                assert(these[i as int].uri.is_none());
                assert(before + Seq::<Seq<char>>::empty() =~= before);
            },
        }
        i = i + 1;
    }
    assert(these.take(refs.len() as int) =~= these);
    genres
}

/// Joins the tracks of a page with the answers of the two lookups: one record
/// for each track that has an id which `features` answers, in the page's order.
pub fn join_tracks(items: &Vec<SavedTrack>, list: &Vec<Artist>, features: &Vec<AudioFeatures>) -> (rows:
    Vec<TrackAnalysis>)
    ensures
        track_analyses(rows@) == joined(saved_tracks(items@), artists(list@), audio_features(features@)),
{
    let ghost all = saved_tracks(items@);
    let ghost known = artists(list@);
    let ghost feats = audio_features(features@);
    let mut rows: Vec<TrackAnalysis> = Vec::new();
    let mut i: usize = 0;
    assert(track_analyses(rows@) =~= joined(all.take(0), known, feats));
    while i < items.len()
        invariant
            i <= items.len(),
            all == saved_tracks(items@),
            known == artists(list@),
            feats == audio_features(features@),
            track_analyses(rows@) == joined(all.take(i as int), known, feats),
        decreases items.len() - i,
    {
        let ghost before = track_analyses(rows@);
        assert(all.take(i + 1).drop_last() =~= all.take(i as int));
        assert(all.take(i + 1).last() == all[i as int]);
        let saved = &items[i];
        match &saved.track.id {
            Some(id) => {
                assert(all[i as int].track.id == Some(id@));
                match find_features(features, id) {
                    Some(at) => {
                        proof {
                            lemma_positions(feature_ids(feats), id@);
                        }
                        let row = TrackAnalysis {
                            position: i,
                            track: saved.clone(),
                            genres: genres_for(&saved.track.artists, list),
                            features_position: at,
                            audio_features: features[at].clone(),
                        };
                        assert(Some(row@) == joined_track(all[i as int], i as int, known, feats));
                        rows.push(row);
                        assert(track_analyses(rows@) =~= before.push(row@));
                    },
                    None => {},
                }
            },
            None => {
                assert(all[i as int].track.id.is_none());
            },
        }
        i = i + 1;
    }
    assert(all.take(items.len() as int) =~= all);
    rows
}

/// The report on `page`, given the artists and the audio features that the
/// lookups answered: the joined tracks in the page's order, the `limit` and
/// `offset` that the page was asked with, and the page's `total`.
pub fn build_user_analysis(
    page: &SavedTracksPage,
    list: &Vec<Artist>,
    features: &Vec<AudioFeatures>,
    limit: u32,
    offset: u32,
) -> (report: UserAnalysis)
    ensures
        report@ == user_analysis(page@, artists(list@), audio_features(features@), limit, offset),
        report@.total == page@.total,
        report@.limit == limit,
        report@.offset == offset,
        report@.tracks.len() <= page@.items.len(),
        forall|k: int|
            0 <= k < report@.tracks.len() ==> well_joined(
                #[trigger] report@.tracks[k],
                page@.items,
                artists(list@),
                audio_features(features@),
            ),
        forall|j: int, k: int|
            0 <= j < k < report@.tracks.len() ==> (#[trigger] report@.tracks[j]).position < (
            #[trigger] report@.tracks[k]).position,
{
    let report = UserAnalysis {
        tracks: join_tracks(&page.items, list, features),
        limit,
        offset,
        total: page.total,
    };
    proof {
        let known = artists(list@);
        let feats = audio_features(features@);
        assert forall|k: int| 0 <= k < report@.tracks.len() implies well_joined(
            #[trigger] report@.tracks[k],
            page@.items,
            known,
            feats,
        ) by {
            lemma_report_tracks(page@, known, feats, limit, offset, k);
        }
        assert forall|j: int, k: int| 0 <= j < k < report@.tracks.len() implies (
        #[trigger] report@.tracks[j]).position < (#[trigger] report@.tracks[k]).position by {
            lemma_joined_order(page@.items, known, feats, j, k);
        }
        lemma_joined_rows(page@.items, known, feats);
    }
    report
}

/// A track has as many genres as its artists have among them, counting only
/// artists whose uri the genre mapping resolves.
pub proof fn lemma_track_genres_len(refs: Seq<ArtistRefView>, list: Seq<ArtistView>)
    ensures
        track_genres(refs, list).len() == resolved_genre_count(refs, list),
    decreases refs.len(),
{
    if refs.len() > 0 {
        lemma_track_genres_len(refs.drop_last(), list);
    }
}

/// A track can be joined exactly if it has an id that the features mapping
/// holds, and is then joined with the features that the mapping holds for it.
pub proof fn lemma_joined_track(
    track: SavedTrackView,
    position: int,
    list: Seq<ArtistView>,
    features: Seq<AudioFeaturesView>,
)
    ensures
        joined_track(track, position, list, features).is_some() <==> (track.track.id.is_some()
            && features_map(features).contains_key(track.track.id.unwrap())),
        joined_track(track, position, list, features).is_some() ==> {
            let row = joined_track(track, position, list, features).unwrap();
            &&& row.position == position
            &&& row.track == track
            &&& row.genres == track_genres(track.track.artists, list)
            &&& row.genres.len() == resolved_genre_count(track.track.artists, list)
            &&& 0 <= row.features_position < features.len()
            &&& row.audio_features == features[row.features_position]
            &&& row.audio_features == features_map(features)[track.track.id.unwrap()]
            &&& track.track.id == Some(row.audio_features.id)
        },
{
    if let Some(id) = track.track.id {
        lemma_features_map(features, id);
        lemma_positions(feature_ids(features), id);
        lemma_track_genres_len(track.track.artists, list);
    }
}

/// The report holds no more tracks than the page, and each of its records
/// stands for the track at its `position` of the page, joined as
/// `joined_track` says.
pub proof fn lemma_joined_rows(
    items: Seq<SavedTrackView>,
    list: Seq<ArtistView>,
    features: Seq<AudioFeaturesView>,
)
    ensures
        joined(items, list, features).len() <= items.len(),
        forall|k: int|
            0 <= k < joined(items, list, features).len() ==> {
                let row = #[trigger] joined(items, list, features)[k];
                &&& 0 <= row.position < items.len()
                &&& joined_track(items[row.position], row.position, list, features) == Some(row)
            },
    decreases items.len(),
{
    if items.len() > 0 {
        let init = items.drop_last();
        lemma_joined_rows(init, list, features);
        let rest = joined(init, list, features);
        assert forall|k: int| 0 <= k < joined(items, list, features).len() implies {
            let row = #[trigger] joined(items, list, features)[k];
            &&& 0 <= row.position < items.len()
            &&& joined_track(items[row.position], row.position, list, features) == Some(row)
        } by {
            let row = joined(items, list, features)[k];
            if k < rest.len() {
                assert(row == rest[k]);
                assert(init[row.position] == items[row.position]);
            } else {
                lemma_joined_track(items.last(), items.len() - 1, list, features);
            }
        }
    }
}

/// The records of the report stand in the order of the page: a later record
/// stands for a later track.
pub proof fn lemma_joined_order(
    items: Seq<SavedTrackView>,
    list: Seq<ArtistView>,
    features: Seq<AudioFeaturesView>,
    j: int,
    k: int,
)
    requires
        0 <= j < k < joined(items, list, features).len(),
    ensures
        joined(items, list, features)[j].position < joined(items, list, features)[k].position,
    decreases items.len(),
{
    if items.len() > 0 {
        let init = items.drop_last();
        let rest = joined(init, list, features);
        lemma_joined_rows(init, list, features);
        if k < rest.len() {
            lemma_joined_order(init, list, features, j, k);
        } else {
            lemma_joined_track(items.last(), items.len() - 1, list, features);
            assert(joined(items, list, features)[j] == rest[j]);
        }
    }
}

/// No track that can be joined is left out: the track at `position` of the
/// page has a record in the report exactly if `joined_track` gives it one.
pub proof fn lemma_joined_complete(
    items: Seq<SavedTrackView>,
    list: Seq<ArtistView>,
    features: Seq<AudioFeaturesView>,
    position: int,
)
    requires
        0 <= position < items.len(),
    ensures
        joined_track(items[position], position, list, features).is_some() <==> exists|k: int|
            0 <= k < joined(items, list, features).len() && #[trigger] joined(
                items,
                list,
                features,
            )[k].position == position,
        joined_track(items[position], position, list, features).is_some() ==> joined(
            items,
            list,
            features,
        ).contains(joined_track(items[position], position, list, features).unwrap()),
    decreases items.len(),
{
    let init = items.drop_last();
    let rest = joined(init, list, features);
    let all = joined(items, list, features);
    let last = joined_track(items.last(), items.len() - 1, list, features);
    lemma_joined_rows(init, list, features);
    lemma_joined_rows(items, list, features);
    lemma_joined_track(items.last(), items.len() - 1, list, features);
    if position < items.len() - 1 {
        lemma_joined_complete(init, list, features, position);
        assert(init[position] == items[position]);
        if joined_track(items[position], position, list, features).is_some() {
            let k = choose|k: int| 0 <= k < rest.len() && #[trigger] rest[k].position == position;
            assert(all[k] == rest[k]);
            assert(joined_track(init[position], position, list, features) == Some(rest[k]));
        }
        if exists|k: int| 0 <= k < all.len() && #[trigger] all[k].position == position {
            let k = choose|k: int| 0 <= k < all.len() && #[trigger] all[k].position == position;
            assert(joined_track(items[position], position, list, features) == Some(all[k]));
        }
    } else {
        if last.is_some() {
            assert(all[rest.len() as int] == last.unwrap());
        }
        if exists|k: int| 0 <= k < all.len() && #[trigger] all[k].position == position {
            let k = choose|k: int| 0 <= k < all.len() && #[trigger] all[k].position == position;
            assert(joined_track(items[position], position, list, features) == Some(all[k]));
        }
    }
}

/// The report holds no more tracks than the page, and each of its records is
/// well joined.
pub proof fn lemma_report_tracks(
    page: SavedTracksPageView,
    list: Seq<ArtistView>,
    features: Seq<AudioFeaturesView>,
    limit: u32,
    offset: u32,
    k: int,
)
    requires
        0 <= k < user_analysis(page, list, features, limit, offset).tracks.len(),
    ensures
        user_analysis(page, list, features, limit, offset).tracks.len() <= page.items.len(),
        well_joined(
            user_analysis(page, list, features, limit, offset).tracks[k],
            page.items,
            list,
            features,
        ),
{
    lemma_joined_rows(page.items, list, features);
    let row = joined(page.items, list, features)[k];
    lemma_joined_track(page.items[row.position], row.position, list, features);
}

/// The report is a function of the three answers alone: pages, artists and
/// features with equal views give equal reports.
pub proof fn lemma_same_answers_same_report(
    page1: SavedTracksPage,
    list1: Vec<Artist>,
    features1: Vec<AudioFeatures>,
    page2: SavedTracksPage,
    list2: Vec<Artist>,
    features2: Vec<AudioFeatures>,
    limit: u32,
    offset: u32,
)
    requires
        page1@ == page2@,
        artists(list1@) == artists(list2@),
        audio_features(features1@) == audio_features(features2@),
    ensures
        user_analysis(page1@, artists(list1@), audio_features(features1@), limit, offset)
            == user_analysis(page2@, artists(list2@), audio_features(features2@), limit, offset),
{
}

} // verus!
