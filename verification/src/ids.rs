//! Which ids the two batch lookups ask for: every id that the page mentions,
//! once, in the order of first mention.

use vstd::prelude::*;
use crate::model::{artist_refs, saved_tracks, texts, ArtistRefView, SavedTrack, SavedTrackView};

verus! {

/// `s` without repeats: of equal items the first stays, and what stays keeps its order.
pub open spec fn distinct(s: Seq<Seq<char>>) -> Seq<Seq<char>>
    decreases s.len(),
{
    if s.len() == 0 {
        Seq::empty()
    } else {
        let rest = distinct(s.drop_last());
        if rest.contains(s.last()) {
            rest
        } else {
            rest.push(s.last())
        }
    }
}

/// The ids of a track's artists, in order, skipping artists without an id.
pub open spec fn artist_ids_of(refs: Seq<ArtistRefView>) -> Seq<Seq<char>>
    decreases refs.len(),
{
    if refs.len() == 0 {
        Seq::empty()
    } else {
        let rest = artist_ids_of(refs.drop_last());
        match refs.last().id {
            Some(id) => rest.push(id),
            None => rest,
        }
    }
}

/// Every artist id that the page mentions, track after track, repeats included.
pub open spec fn mentioned_artist_ids(items: Seq<SavedTrackView>) -> Seq<Seq<char>>
    decreases items.len(),
{
    if items.len() == 0 {
        Seq::empty()
    } else {
        mentioned_artist_ids(items.drop_last()) + artist_ids_of(items.last().track.artists)
    }
}

/// The ids of the page's tracks, in order, skipping tracks without an id.
pub open spec fn mentioned_track_ids(items: Seq<SavedTrackView>) -> Seq<Seq<char>>
    decreases items.len(),
{
    if items.len() == 0 {
        Seq::empty()
    } else {
        let rest = mentioned_track_ids(items.drop_last());
        match items.last().track.id {
            Some(id) => rest.push(id),
            None => rest,
        }
    }
}

/// The artist ids to look up for a page.
pub open spec fn wanted_artist_ids(items: Seq<SavedTrackView>) -> Seq<Seq<char>> {
    distinct(mentioned_artist_ids(items))
}

/// The track ids whose audio features to look up for a page.
pub open spec fn wanted_track_ids(items: Seq<SavedTrackView>) -> Seq<Seq<char>> {
    distinct(mentioned_track_ids(items))
}

/// Appending one item to `s` appends it to `distinct(s)` unless it is there already.
pub proof fn lemma_distinct_push(s: Seq<Seq<char>>, x: Seq<char>)
    ensures
        distinct(s.push(x)) == if distinct(s).contains(x) {
            distinct(s)
        } else {
            distinct(s).push(x)
        },
{
    assert(s.push(x).drop_last() =~= s);
}

/// `distinct(s)` holds exactly the items of `s`.
pub proof fn lemma_distinct_same_items(s: Seq<Seq<char>>, x: Seq<char>)
    ensures
        distinct(s).contains(x) <==> s.contains(x),
    decreases s.len(),
{
    if s.len() > 0 {
        let init = s.drop_last();
        lemma_distinct_same_items(init, x);
        let rest = distinct(init);
        if s.contains(x) {
            let i = choose|i: int| 0 <= i < s.len() && s[i] == x;
            if i < s.len() - 1 {
                assert(init[i] == x);
                assert(init.contains(x));
                let j = choose|j: int| 0 <= j < rest.len() && rest[j] == x;
                if !rest.contains(s.last()) {
                    assert(rest.push(s.last())[j] == x);
                }
            } else {
                if !rest.contains(s.last()) {
                    assert(rest.push(s.last())[rest.len() as int] == x);
                }
            }
            assert(distinct(s).contains(x));
        }
        if distinct(s).contains(x) {
            let j = choose|j: int| 0 <= j < distinct(s).len() && distinct(s)[j] == x;
            if rest.contains(s.last()) || j < rest.len() {
                assert(rest[j] == x);
                assert(rest.contains(x));
                let i = choose|i: int| 0 <= i < init.len() && init[i] == x;
                assert(s[i] == x);
            } else {
                assert(s[s.len() - 1] == x);
            }
            assert(s.contains(x));
        }
    }
}

/// No item stands twice in `distinct(s)`.
pub proof fn lemma_distinct_no_duplicates(s: Seq<Seq<char>>)
    ensures
        distinct(s).no_duplicates(),
        distinct(s).len() <= s.len(),
    decreases s.len(),
{
    if s.len() > 0 {
        lemma_distinct_no_duplicates(s.drop_last());
    }
}

/// The ids of a track's artists are exactly the ids that its artists carry.
pub proof fn lemma_artist_ids_of(refs: Seq<ArtistRefView>, id: Seq<char>)
    ensures
        artist_ids_of(refs).contains(id) <==> exists|j: int|
            0 <= j < refs.len() && (#[trigger] refs[j]).id == Some(id),
    decreases refs.len(),
{
    if refs.len() > 0 {
        let init = refs.drop_last();
        let rest = artist_ids_of(init);
        let all = artist_ids_of(refs);
        lemma_artist_ids_of(init, id);
        if all.contains(id) {
            let k = choose|k: int| 0 <= k < all.len() && all[k] == id;
            if k < rest.len() {
                assert(rest[k] == id);
                let j = choose|j: int| 0 <= j < init.len() && (#[trigger] init[j]).id == Some(id);
                assert(refs[j].id == Some(id));
            } else {
                assert(refs[refs.len() - 1].id == Some(id));
            }
        }
        if exists|j: int| 0 <= j < refs.len() && (#[trigger] refs[j]).id == Some(id) {
            let j = choose|j: int| 0 <= j < refs.len() && (#[trigger] refs[j]).id == Some(id);
            if j < refs.len() - 1 {
                assert(init[j].id == Some(id));
                let k = choose|k: int| 0 <= k < rest.len() && rest[k] == id;
                assert(all[k] == id);
            } else {
                assert(all[rest.len() as int] == id);
            }
        }
    }
}

/// The artist ids that a page mentions are exactly the ids that the artists
/// of its tracks carry.
pub proof fn lemma_mentioned_artist_ids(items: Seq<SavedTrackView>, id: Seq<char>)
    ensures
        mentioned_artist_ids(items).contains(id) <==> exists|i: int, j: int|
            0 <= i < items.len() && 0 <= j < items[i].track.artists.len() && (
            #[trigger] items[i].track.artists[j]).id == Some(id),
    decreases items.len(),
{
    if items.len() > 0 {
        let init = items.drop_last();
        let rest = mentioned_artist_ids(init);
        let these = artist_ids_of(items.last().track.artists);
        let all = mentioned_artist_ids(items);
        let n = items.len() - 1;
        lemma_mentioned_artist_ids(init, id);
        lemma_artist_ids_of(items.last().track.artists, id);
        if all.contains(id) {
            let k = choose|k: int| 0 <= k < all.len() && all[k] == id;
            if k < rest.len() {
                assert(rest[k] == id);
                let (i, j) = choose|i: int, j: int|
                    0 <= i < init.len() && 0 <= j < init[i].track.artists.len() && (
                    #[trigger] init[i].track.artists[j]).id == Some(id);
                assert(items[i].track.artists[j].id == Some(id));
            } else {
                assert(these[k - rest.len()] == id);
                let j = choose|j: int|
                    0 <= j < items[n].track.artists.len() && (
                    #[trigger] items[n].track.artists[j]).id == Some(id);
                assert(items[n].track.artists[j].id == Some(id));
            }
        }
        if exists|i: int, j: int|
            0 <= i < items.len() && 0 <= j < items[i].track.artists.len() && (
            #[trigger] items[i].track.artists[j]).id == Some(id) {
            let (i, j) = choose|i: int, j: int|
                0 <= i < items.len() && 0 <= j < items[i].track.artists.len() && (
                #[trigger] items[i].track.artists[j]).id == Some(id);
            if i < n {
                assert(init[i].track.artists[j].id == Some(id));
                let k = choose|k: int| 0 <= k < rest.len() && rest[k] == id;
                assert(all[k] == id);
            } else {
                assert(items[n].track.artists[j].id == Some(id));
                let k = choose|k: int| 0 <= k < these.len() && these[k] == id;
                assert(all[rest.len() + k] == id);
            }
        }
    }
}

/// The track ids that a page mentions are exactly the ids that its tracks carry.
pub proof fn lemma_mentioned_track_ids(items: Seq<SavedTrackView>, id: Seq<char>)
    ensures
        mentioned_track_ids(items).contains(id) <==> exists|i: int|
            0 <= i < items.len() && (#[trigger] items[i]).track.id == Some(id),
    decreases items.len(),
{
    if items.len() > 0 {
        let init = items.drop_last();
        let rest = mentioned_track_ids(init);
        let all = mentioned_track_ids(items);
        lemma_mentioned_track_ids(init, id);
        if all.contains(id) {
            let k = choose|k: int| 0 <= k < all.len() && all[k] == id;
            if k < rest.len() {
                assert(rest[k] == id);
                let i = choose|i: int| 0 <= i < init.len() && (#[trigger] init[i]).track.id == Some(id);
                assert(items[i].track.id == Some(id));
            } else {
                assert(items[items.len() - 1].track.id == Some(id));
            }
        }
        if exists|i: int| 0 <= i < items.len() && (#[trigger] items[i]).track.id == Some(id) {
            let i = choose|i: int| 0 <= i < items.len() && (#[trigger] items[i]).track.id == Some(id);
            if i < items.len() - 1 {
                assert(init[i].track.id == Some(id));
                let k = choose|k: int| 0 <= k < rest.len() && rest[k] == id;
                assert(all[k] == id);
            } else {
                assert(all[rest.len() as int] == id);
            }
        }
    }
}

/// What is asked of the artist lookup: each id that an artist of a track of
/// the page carries, and no other, and none twice.
pub proof fn lemma_wanted_artist_ids(items: Seq<SavedTrackView>, id: Seq<char>)
    ensures
        wanted_artist_ids(items).no_duplicates(),
        wanted_artist_ids(items).contains(id) <==> exists|i: int, j: int|
            0 <= i < items.len() && 0 <= j < items[i].track.artists.len() && (
            #[trigger] items[i].track.artists[j]).id == Some(id),
{
    lemma_distinct_no_duplicates(mentioned_artist_ids(items));
    lemma_distinct_same_items(mentioned_artist_ids(items), id);
    lemma_mentioned_artist_ids(items, id);
}

/// What is asked of the audio-features lookup: each id that a track of the
/// page carries, and no other, and none twice.
pub proof fn lemma_wanted_track_ids(items: Seq<SavedTrackView>, id: Seq<char>)
    ensures
        wanted_track_ids(items).no_duplicates(),
        wanted_track_ids(items).contains(id) <==> exists|i: int|
            0 <= i < items.len() && (#[trigger] items[i]).track.id == Some(id),
{
    lemma_distinct_no_duplicates(mentioned_track_ids(items));
    lemma_distinct_same_items(mentioned_track_ids(items), id);
    lemma_mentioned_track_ids(items, id);
}

/// Whether `list` holds the text `t`.
pub fn contains_text(list: &Vec<String>, t: &String) -> (r: bool)
    ensures
        r == texts(list@).contains(t@),
{
    let mut i: usize = 0;
    while i < list.len()
        invariant
            i <= list.len(),
            forall|k: int| 0 <= k < i ==> texts(list@)[k] != t@,
        decreases list.len() - i,
    {
        if list[i] == *t {
            assert(texts(list@)[i as int] == t@);
            return true;
        }
        i = i + 1;
    }
    false
}

/// Appends a copy of `t` to `list` unless `list` holds it already.
pub fn push_if_new(list: &mut Vec<String>, t: &String)
    ensures
        texts(final(list)@) == if texts(old(list)@).contains(t@) {
            texts(old(list)@)
        } else {
            texts(old(list)@).push(t@)
        },
{
    if !contains_text(list, t) {
        list.push(t.clone());
        assert(texts(list@) =~= texts(old(list)@).push(t@));
    }
}

/// The artist ids to look up for `items`: each id that an artist of a track
/// carries, once, in the order of first mention.
pub fn artist_ids(items: &Vec<SavedTrack>) -> (ids: Vec<String>)
    ensures
        texts(ids@) == wanted_artist_ids(saved_tracks(items@)),
        texts(ids@).no_duplicates(),
{
    proof {
        lemma_distinct_no_duplicates(mentioned_artist_ids(saved_tracks(items@)));
    }
    let ghost all = saved_tracks(items@);
    let mut ids: Vec<String> = Vec::new();
    let mut i: usize = 0;
    assert(texts(ids@) =~= distinct(mentioned_artist_ids(all.take(0))));
    while i < items.len()
        invariant
            i <= items.len(),
            all == saved_tracks(items@),
            texts(ids@) == distinct(mentioned_artist_ids(all.take(i as int))),
        decreases items.len() - i,
    {
        let refs = &items[i].track.artists;
        let ghost done = mentioned_artist_ids(all.take(i as int));
        let ghost these = artist_refs(refs@);
        let mut j: usize = 0;
        assert(done + artist_ids_of(these.take(0)) =~= done);
        while j < refs.len()
            invariant
                j <= refs.len(),
                these == artist_refs(refs@),
                texts(ids@) == distinct(done + artist_ids_of(these.take(j as int))),
            decreases refs.len() - j,
        {
            let ghost before = artist_ids_of(these.take(j as int));
            assert(these.take(j + 1).drop_last() =~= these.take(j as int));
            match &refs[j].id {
                Some(id) => {
                    assert(these.take(j + 1).last().id == Some(id@));
                    assert(done + before.push(id@) =~= (done + before).push(id@));
                    proof {
                        lemma_distinct_push(done + before, id@);
                    }
                    push_if_new(&mut ids, id);
                },
                None => {
                    assert(these.take(j + 1).last().id.is_none());
                },
            }
            j = j + 1;
        }
        assert(these.take(refs.len() as int) =~= these);
        assert(all.take(i + 1).drop_last() =~= all.take(i as int));
        assert(all.take(i + 1).last().track.artists == these);
        i = i + 1;
    }
    assert(all.take(items.len() as int) =~= all);
    ids
}

/// The track ids whose audio features to look up for `items`: each id that a
/// track carries, once, in the order of first mention.
pub fn track_ids(items: &Vec<SavedTrack>) -> (ids: Vec<String>)
    ensures
        texts(ids@) == wanted_track_ids(saved_tracks(items@)),
        texts(ids@).no_duplicates(),
{
    proof {
        lemma_distinct_no_duplicates(mentioned_track_ids(saved_tracks(items@)));
    }
    let ghost all = saved_tracks(items@);
    let mut ids: Vec<String> = Vec::new();
    let mut i: usize = 0;
    assert(texts(ids@) =~= distinct(mentioned_track_ids(all.take(0))));
    while i < items.len()
        invariant
            i <= items.len(),
            all == saved_tracks(items@),
            texts(ids@) == distinct(mentioned_track_ids(all.take(i as int))),
        decreases items.len() - i,
    {
        let ghost before = mentioned_track_ids(all.take(i as int));
        assert(all.take(i + 1).drop_last() =~= all.take(i as int));
        match &items[i].track.id {
            Some(id) => {
                assert(all.take(i + 1).last().track.id == Some(id@));
                proof {
                    lemma_distinct_push(before, id@);
                }
                push_if_new(&mut ids, id);
            },
            None => {
                assert(all.take(i + 1).last().track.id.is_none());
            },
        }
        i = i + 1;
    }
    assert(all.take(items.len() as int) =~= all);
    ids
}

} // verus!
