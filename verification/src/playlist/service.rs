//! The playlist catalog and the aggregation operation: resolving a playlist's
//! member video ids into video records, tolerating individual lookup
//! failures.
//!
//! The outbound lookups themselves are network calls and happen outside this
//! crate: the caller fans out one request per member id (all issued before
//! any is awaited), waits for all of them, and hands back one outcome per
//! member id, in submission order, `None` standing for any failed lookup.
//! Everything decided about those outcomes is decided here.

use vstd::prelude::*;

use crate::model::{Playlist, PlaylistView, Video, VideoView};
use crate::playlist::configuration::Settings;

verus! {

/// The first playlist of `catalog` whose id equals `id`, if any.
pub open spec fn find_playlist(catalog: Seq<PlaylistView>, id: int) -> Option<PlaylistView>
    decreases catalog.len(),
{
    if catalog.len() == 0 {
        None
    } else if catalog[0].id == id {
        Some(catalog[0])
    } else {
        find_playlist(catalog.drop_first(), id)
    }
}

/// The videos of the successful outcomes, in submission order.
pub open spec fn successes(outcomes: Seq<Option<VideoView>>) -> Seq<VideoView>
    decreases outcomes.len(),
{
    if outcomes.len() == 0 {
        Seq::empty()
    } else {
        let resolved = successes(outcomes.drop_last());
        match outcomes.last() {
            Some(v) => resolved.push(v),
            None => resolved,
        }
    }
}

/// The playlist as it is returned to a caller: id and membership unchanged,
/// the successful outcomes attached as the resolved videos.
pub open spec fn attach_spec(p: PlaylistView, outcomes: Seq<Option<VideoView>>) -> PlaylistView {
    PlaylistView { id: p.id, video_ids: p.video_ids, videos: Some(successes(outcomes)) }
}

/// The whole aggregation, as a function of the catalog, the requested id and
/// the lookup outcomes: `None` when the id is not in the catalog (in which
/// case no lookups are even issued), otherwise the found playlist with the
/// successful outcomes attached.
pub open spec fn get_playlist_spec(
    catalog: Seq<PlaylistView>,
    id: int,
    outcomes: Seq<Option<VideoView>>,
) -> Option<PlaylistView> {
    match find_playlist(catalog, id) {
        Some(p) => Some(attach_spec(p, outcomes)),
        None => None,
    }
}

/// `find_playlist` returns the first matching playlist: `Some` exactly when
/// a playlist with the requested id exists, and then the earliest such one.
pub proof fn lemma_find_playlist_characterization(catalog: Seq<PlaylistView>, id: int)
    ensures
        match find_playlist(catalog, id) {
            Some(p) => exists|i: int|
                0 <= i < catalog.len() && catalog[i].id == id && p == catalog[i]
                    && (forall|j: int| 0 <= j < i ==> catalog[j].id != id),
            None => forall|i: int| 0 <= i < catalog.len() ==> catalog[i].id != id,
        },
    decreases catalog.len(),
{
    if catalog.len() == 0 {
    } else if catalog[0].id == id {
        let i: int = 0;
        assert(0 <= i < catalog.len() && catalog[i].id == id
            && find_playlist(catalog, id) == Some(catalog[i])
            && (forall|j: int| 0 <= j < i ==> catalog[j].id != id));
    } else {
        let rest = catalog.drop_first();
        lemma_find_playlist_characterization(rest, id);
        match find_playlist(catalog, id) {
            Some(p) => {
                let k = choose|k: int|
                    0 <= k < rest.len() && rest[k].id == id && p == rest[k]
                        && (forall|j: int| 0 <= j < k ==> rest[j].id != id);
                let i = k + 1;
                assert(catalog[i] == rest[k]);
                assert(forall|j: int| 0 <= j < i ==> catalog[j].id != id) by {
                    assert(forall|j: int| 1 <= j < i ==> catalog[j] == rest[j - 1]);
                }
                assert(0 <= i < catalog.len() && catalog[i].id == id && p == catalog[i]
                    && (forall|j: int| 0 <= j < i ==> catalog[j].id != id));
            },
            None => {
                assert(forall|i: int| 1 <= i < catalog.len() ==> catalog[i] == rest[i - 1]);
            },
        }
    }
}

/// For every id present in the catalog, the aggregation yields a playlist
/// whose id echoes the requested one, whatever the lookup outcomes came back
/// as — even when every single lookup failed.
pub proof fn lemma_present_id_is_echoed(
    catalog: Seq<PlaylistView>,
    id: int,
    outcomes: Seq<Option<VideoView>>,
)
    requires
        exists|i: int| 0 <= i < catalog.len() && catalog[i].id == id,
    ensures
        get_playlist_spec(catalog, id, outcomes) matches Some(p) && p.id == id,
{
    lemma_find_playlist_characterization(catalog, id);
}

/// For every id absent from the catalog, the aggregation is a not-found
/// failure, whatever the lookup outcomes. (The caller never issues a lookup
/// in this case: `find_playlist` already settles the answer.)
pub proof fn lemma_absent_id_is_not_found(
    catalog: Seq<PlaylistView>,
    id: int,
    outcomes: Seq<Option<VideoView>>,
)
    requires
        forall|i: int| 0 <= i < catalog.len() ==> catalog[i].id != id,
    ensures
        get_playlist_spec(catalog, id, outcomes) is None,
{
    lemma_find_playlist_characterization(catalog, id);
    if find_playlist(catalog, id) is Some {
        let i = choose|i: int|
            0 <= i < catalog.len() && catalog[i].id == id
                && find_playlist(catalog, id)->Some_0 == catalog[i]
                && (forall|j: int| 0 <= j < i ==> catalog[j].id != id);
        assert(catalog[i].id != id);
    }
}

/// There are never more resolved videos than lookup outcomes.
pub proof fn lemma_successes_len_bound(outcomes: Seq<Option<VideoView>>)
    ensures
        successes(outcomes).len() <= outcomes.len(),
    decreases outcomes.len(),
{
    if outcomes.len() > 0 {
        lemma_successes_len_bound(outcomes.drop_last());
    }
}

/// With one lookup outcome per member id, the resolved list never outgrows
/// the membership list.
pub proof fn lemma_resolved_list_bounded(p: PlaylistView, outcomes: Seq<Option<VideoView>>)
    requires
        outcomes.len() == p.video_ids.len(),
    ensures
        attach_spec(p, outcomes).videos matches Some(vs) && vs.len() <= p.video_ids.len(),
{
    lemma_successes_len_bound(outcomes);
}

/// When every lookup succeeds, every video is kept, in submission order.
pub proof fn lemma_successes_complete(outcomes: Seq<Option<VideoView>>)
    requires
        forall|i: int| 0 <= i < outcomes.len() ==> outcomes[i] is Some,
    ensures
        successes(outcomes) == outcomes.map_values(|o: Option<VideoView>| o->Some_0),
    decreases outcomes.len(),
{
    let unwrapped = outcomes.map_values(|o: Option<VideoView>| o->Some_0);
    if outcomes.len() == 0 {
        assert(successes(outcomes) =~= unwrapped);
    } else {
        let front = outcomes.drop_last();
        lemma_successes_complete(front);
        assert(front.map_values(|o: Option<VideoView>| o->Some_0) =~= unwrapped.drop_last());
        assert(successes(outcomes) =~= unwrapped);
    }
}

/// The aggregation has no side effects: repeating it with the same id against
/// the same catalog and the same lookup outcomes gives the same playlist.
pub proof fn lemma_aggregation_idempotent(
    catalog: Seq<PlaylistView>,
    id: int,
    first: Seq<Option<VideoView>>,
    second: Seq<Option<VideoView>>,
)
    requires
        first == second,
    ensures
        get_playlist_spec(catalog, id, first) == get_playlist_spec(catalog, id, second),
{
}

/// The playlist catalog together with the service settings, read-only for
/// the life of the process.
#[derive(Debug)]
pub struct PlaylistService {
    playlists: Vec<Playlist>,
    config: Settings,
}

impl View for PlaylistService {
    type V = Seq<PlaylistView>;

    closed spec fn view(&self) -> Seq<PlaylistView> {
        self.playlists.deep_view()
    }
}

impl PlaylistService {
    /// The settings the service was built with.
    pub closed spec fn config_view(&self) -> Settings {
        self.config
    }

    /// Seeds the catalog with a fixed list of playlists.
    pub fn new_from_list(list: Vec<Playlist>, config: Settings) -> (r: PlaylistService)
        ensures
            r@ == list.deep_view(),
            r.config_view() == config,
    {
        PlaylistService { playlists: list, config }
    }

    /// The settings, for the caller that issues the outbound lookups.
    pub fn config(&self) -> (r: &Settings)
        ensures
            *r == self.config_view(),
    {
        &self.config
    }

    /// The catalog lookup alone: the first stored playlist with the requested
    /// id, or `None` when no playlist has it. No resolution is attempted.
    pub fn find_by_id(&self, id: i32) -> (r: Option<Playlist>)
        ensures
            r.deep_view() == find_playlist(self@, id as int),
    {
        let ghost cat = self@;
        proof {
            assert(cat.skip(0) =~= cat);
        }
        let mut i: usize = 0;
        while i < self.playlists.len()
            invariant
                i <= self.playlists@.len(),
                cat == self.playlists.deep_view(),
                cat.len() == self.playlists@.len(),
                find_playlist(cat, id as int) == find_playlist(cat.skip(i as int), id as int),
            decreases self.playlists@.len() - i,
        {
            proof {
                assert(cat.skip(i as int)[0] == cat[i as int]);
            }
            if self.playlists[i].id == id {
                let p = self.playlists[i].clone();
                proof {
                    assert(p.deep_view() == cat[i as int]);
                    assert(find_playlist(cat.skip(i as int), id as int) == Some(cat[i as int]));
                }
                return Some(p);
            }
            proof {
                assert(cat.skip(i as int).drop_first() =~= cat.skip(i as int + 1));
            }
            i += 1;
        }
        proof {
            assert(cat.skip(i as int).len() == 0);
        }
        None
    }

    /// The aggregation operation. `outcomes` holds, in submission order, the
    /// result of one lookup per member id of the requested playlist, `None`
    /// standing for a failed lookup. Any number of failures — including all
    /// of them — still yields a playlist; only an id absent from the catalog
    /// yields `None`.
    pub fn get_by_id(&self, id: i32, outcomes: Vec<Option<Video>>) -> (r: Option<Playlist>)
        ensures
            r.deep_view() == get_playlist_spec(self@, id as int, outcomes.deep_view()),
    {
        match self.find_by_id(id) {
            Some(p) => Some(p.attach_videos(outcomes)),
            None => None,
        }
    }
}

impl Playlist {
    /// Attaches the successful lookup outcomes, in submission order, as this
    /// playlist's resolved videos. Id and membership are untouched; failed
    /// outcomes contribute nothing.
    pub fn attach_videos(&self, outcomes: Vec<Option<Video>>) -> (r: Playlist)
        ensures
            r.deep_view() == attach_spec(self.deep_view(), outcomes.deep_view()),
    {
        let ghost all = outcomes.deep_view();
        let mut resolved: Vec<Video> = Vec::new();
        let mut i: usize = 0;
        while i < outcomes.len()
            invariant
                i <= outcomes@.len(),
                all == outcomes.deep_view(),
                all.len() == outcomes@.len(),
                resolved.deep_view() == successes(all.take(i as int)),
            decreases outcomes@.len() - i,
        {
            let ghost before = resolved.deep_view();
            proof {
                assert(all.take(i as int + 1).drop_last() =~= all.take(i as int));
                assert(all.take(i as int + 1).last() == all[i as int]);
            }
            match &outcomes[i] {
                Some(v) => {
                    let v = v.clone();
                    proof {
                        assert(all[i as int] == Some(v.deep_view()));
                    }
                    resolved.push(v);
                    proof {
                        assert(resolved.deep_view() =~= before.push(v.deep_view()));
                    }
                },
                None => {
                    proof {
                        assert(all[i as int] is None);
                    }
                },
            }
            i += 1;
        }
        proof {
            assert(all.take(i as int) =~= all);
        }
        let r = Playlist {
            id: self.id,
            video_ids: self.video_ids.clone(),
            videos: Some(resolved),
        };
        proof {
            assert(r.video_ids@ =~= self.video_ids@);
            assert(r.deep_view().video_ids =~= self.deep_view().video_ids);
        }
        r
    }
}

} // verus!
