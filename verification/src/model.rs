//! The data model shared by the two services: video records, playlists, and
//! the error surfaced to external callers.

use vstd::prelude::*;

verus! {

/// Mathematical image of a [`Video`]: the id as an unbounded integer and the
/// link as a sequence of characters.
pub struct VideoView {
    pub id: int,
    pub link: Seq<char>,
}

/// A single video record: an integer id and the link under which the video is
/// reachable. Records are immutable once created and returned by value.
#[derive(Debug, PartialEq)]
pub struct Video {
    pub id: i32,
    pub link: String,
}

impl DeepView for Video {
    type V = VideoView;

    open spec fn deep_view(&self) -> VideoView {
        VideoView { id: self.id as int, link: self.link@ }
    }
}

impl Clone for Video {
    fn clone(&self) -> (r: Self)
        ensures
            r == *self,
    {
        Video { id: self.id, link: self.link.clone() }
    }
}

/// Mathematical image of a [`Playlist`].
pub struct PlaylistView {
    pub id: int,
    pub video_ids: Seq<int>,
    pub videos: Option<Seq<VideoView>>,
}

/// A playlist: an integer id, the ordered member video ids that the catalog
/// defines, and the transient, per-request list of resolved video records.
///
/// `videos` is `None` while no resolution has been attempted and `Some`
/// (possibly shorter than `video_ids`) after resolution.
#[derive(Debug, PartialEq)]
pub struct Playlist {
    pub id: i32,
    pub video_ids: Vec<i32>,
    pub videos: Option<Vec<Video>>,
}

impl DeepView for Playlist {
    type V = PlaylistView;

    open spec fn deep_view(&self) -> PlaylistView {
        PlaylistView {
            id: self.id as int,
            video_ids: self.video_ids@.map_values(|v: i32| v as int),
            videos: self.videos.deep_view(),
        }
    }
}

impl Clone for Playlist {
    fn clone(&self) -> (r: Self)
        ensures
            r.deep_view() == self.deep_view(),
    {
        Playlist {
            id: self.id,
            video_ids: clone_ids(&self.video_ids),
            videos: clone_videos_opt(&self.videos),
        }
    }
}

/// Copy of a list of member video ids.
fn clone_ids(ids: &Vec<i32>) -> (r: Vec<i32>)
    ensures
        r@ == ids@,
{
    let r = ids.clone();
    proof {
        assert(r@ =~= ids@);
    }
    r
}

/// Copy of a list of video records.
fn clone_videos(videos: &Vec<Video>) -> (r: Vec<Video>)
    ensures
        r@ == videos@,
{
    let mut r: Vec<Video> = Vec::new();
    let mut i: usize = 0;
    while i < videos.len()
        invariant
            i <= videos@.len(),
            r@ == videos@.take(i as int),
        decreases videos@.len() - i,
    {
        r.push(videos[i].clone());
        proof {
            assert(videos@.take(i as int + 1) =~= videos@.take(i as int).push(videos@[i as int]));
        }
        i += 1;
    }
    proof {
        assert(videos@.take(videos@.len() as int) =~= videos@);
    }
    r
}

/// Copy of an optional list of video records.
fn clone_videos_opt(videos: &Option<Vec<Video>>) -> (r: Option<Vec<Video>>)
    ensures
        r.deep_view() == videos.deep_view(),
{
    match videos {
        Some(vs) => Some(clone_videos(vs)),
        None => None,
    }
}

/// The error surfaced to external HTTP callers: a requested entity is not in
/// the relevant catalog. It maps uniformly to an internal-error-class status.
#[derive(Debug, PartialEq)]
pub struct MyError {
    pub message: String,
}

impl MyError {
    /// Wraps a message describing what was not found.
    pub fn new(message: String) -> (r: MyError)
        ensures
            r.message == message,
    {
        MyError { message }
    }

    /// The HTTP status this error maps to: the service reports every failure,
    /// not-found included, as an internal error.
    pub fn status_code(&self) -> (r: u16)
        ensures
            r == 500,
    {
        500
    }
}

impl Clone for MyError {
    fn clone(&self) -> (r: Self)
        ensures
            r == *self,
    {
        MyError { message: self.message.clone() }
    }
}

} // verus!
