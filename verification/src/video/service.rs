//! The video catalog and its single operation: retrieval by id.

use vstd::prelude::*;

use crate::model::{Video, VideoView};

verus! {

/// The first record of `catalog` whose id equals `id`, if any.
pub open spec fn find_video(catalog: Seq<VideoView>, id: int) -> Option<VideoView>
    decreases catalog.len(),
{
    if catalog.len() == 0 {
        None
    } else if catalog[0].id == id {
        Some(catalog[0])
    } else {
        find_video(catalog.drop_first(), id)
    }
}

/// `find_video` returns the first matching record: `Some` exactly when a
/// record with the requested id exists, and then the earliest such record.
pub proof fn lemma_find_video_characterization(catalog: Seq<VideoView>, id: int)
    ensures
        match find_video(catalog, id) {
            Some(v) => exists|i: int|
                0 <= i < catalog.len() && catalog[i].id == id && v == catalog[i]
                    && (forall|j: int| 0 <= j < i ==> catalog[j].id != id),
            None => forall|i: int| 0 <= i < catalog.len() ==> catalog[i].id != id,
        },
    decreases catalog.len(),
{
    if catalog.len() == 0 {
    } else if catalog[0].id == id {
        let i: int = 0;
        assert(0 <= i < catalog.len() && catalog[i].id == id
            && find_video(catalog, id) == Some(catalog[i])
            && (forall|j: int| 0 <= j < i ==> catalog[j].id != id));
    } else {
        let rest = catalog.drop_first();
        lemma_find_video_characterization(rest, id);
        match find_video(catalog, id) {
            Some(v) => {
                let k = choose|k: int|
                    0 <= k < rest.len() && rest[k].id == id && v == rest[k]
                        && (forall|j: int| 0 <= j < k ==> rest[j].id != id);
                let i = k + 1;
                assert(catalog[i] == rest[k]);
                assert(forall|j: int| 0 <= j < i ==> catalog[j].id != id) by {
                    assert(forall|j: int| 1 <= j < i ==> catalog[j] == rest[j - 1]);
                }
                assert(0 <= i < catalog.len() && catalog[i].id == id && v == catalog[i]
                    && (forall|j: int| 0 <= j < i ==> catalog[j].id != id));
            },
            None => {
                assert(forall|i: int| 1 <= i < catalog.len() ==> catalog[i] == rest[i - 1]);
            },
        }
    }
}

/// The video-lookup catalog: a fixed list of records, read-only for the life
/// of the process.
#[derive(Debug)]
pub struct VideoService {
    videos: Vec<Video>,
}

impl View for VideoService {
    type V = Seq<VideoView>;

    closed spec fn view(&self) -> Seq<VideoView> {
        self.videos.deep_view()
    }
}

impl VideoService {
    /// Seeds the catalog with a fixed list of records.
    pub fn new_from_list(list: Vec<Video>) -> (r: VideoService)
        ensures
            r@ == list.deep_view(),
    {
        VideoService { videos: list }
    }

    /// Retrieval by id: the first stored record with the requested id, or
    /// `None` when no record has it. A pure read; the catalog is unchanged.
    pub fn get_by_id(&self, id: i32) -> (r: Option<Video>)
        ensures
            r.deep_view() == find_video(self@, id as int),
    {
        let ghost cat = self@;
        proof {
            assert(cat.skip(0) =~= cat);
        }
        let mut i: usize = 0;
        while i < self.videos.len()
            invariant
                i <= self.videos@.len(),
                cat == self.videos.deep_view(),
                cat.len() == self.videos@.len(),
                find_video(cat, id as int) == find_video(cat.skip(i as int), id as int),
            decreases self.videos@.len() - i,
        {
            proof {
                assert(cat.skip(i as int)[0] == cat[i as int]);
            }
            if self.videos[i].id == id {
                let v = self.videos[i].clone();
                proof {
                    assert(v.deep_view() == cat[i as int]);
                    assert(find_video(cat.skip(i as int), id as int) == Some(cat[i as int]));
                }
                return Some(v);
            }
            proof {
                assert(cat.skip(i as int).drop_first() =~= cat.skip(i as int + 1));
            }
            i += 1;
        }
        proof {
            assert(cat.skip(i as int).len() == 0);
        }
        None
    }
}

} // verus!
