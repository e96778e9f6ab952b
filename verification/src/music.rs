//! Track metadata for display.
//!
//! Tag reading itself happens at the file edge, outside this library; the
//! values it yields — a title and cover pictures — are carried here as
//! plain data.  No playback semantics depend on them.

use vstd::prelude::*;

verus! {

/// The kind of image a cover picture holds, as the tag reader reports it.
#[derive(Clone, Copy, PartialEq, Eq, Structural, Debug)]
pub enum PictureMime {
    Png,
    Jpeg,
    Tiff,
    Bmp,
    Gif,
    /// Anything else; the shell cannot display it.
    Other,
}

/// An image format the shell can display.
#[derive(Clone, Copy, PartialEq, Eq, Structural, Debug)]
pub enum PictureFormat {
    Png,
    Jpeg,
    Tiff,
    Bmp,
    Gif,
}

/// The display format for a picture of the given kind, if there is one:
/// each known kind maps to its format, anything else to nothing.
pub fn picture_format(mime: PictureMime) -> (r: Option<PictureFormat>)
    ensures
        r == match mime {
            PictureMime::Png => Some(PictureFormat::Png),
            PictureMime::Jpeg => Some(PictureFormat::Jpeg),
            PictureMime::Tiff => Some(PictureFormat::Tiff),
            PictureMime::Bmp => Some(PictureFormat::Bmp),
            PictureMime::Gif => Some(PictureFormat::Gif),
            PictureMime::Other => None::<PictureFormat>,
        },
{
    match mime {
        PictureMime::Png => Some(PictureFormat::Png),
        PictureMime::Jpeg => Some(PictureFormat::Jpeg),
        PictureMime::Tiff => Some(PictureFormat::Tiff),
        PictureMime::Bmp => Some(PictureFormat::Bmp),
        PictureMime::Gif => Some(PictureFormat::Gif),
        PictureMime::Other => None,
    }
}

/// One cover picture: its kind and its raw bytes.
pub struct Picture {
    pub mime: PictureMime,
    pub data: Vec<u8>,
}

/// The tags read from one file, reduced to what the shell shows.
pub struct TrackTags {
    pub title: Option<String>,
    pub pictures: Vec<Picture>,
}

/// One music file: its path and the tags read from it, if any.
pub struct Music {
    path: String,
    tags: Option<TrackTags>,
}

impl Music {
    /// The file path this music was read from.
    pub closed spec fn path_spec(&self) -> Seq<char> {
        self.path@
    }

    /// The tags read from the file, if any.
    pub closed spec fn tags_spec(&self) -> Option<TrackTags> {
        self.tags
    }

    /// Assemble a music entry from its path and the tags the file edge
    /// read for it.
    pub fn from_parts(path: String, tags: Option<TrackTags>) -> (m: Music)
        ensures
            m.path_spec() == path@,
            m.tags_spec() == tags,
    {
        Music { path, tags }
    }

    /// Get the tags of this music, if any were read.
    pub fn get_tags(&self) -> (r: Option<&TrackTags>)
        ensures
            match r {
                Some(t) => self.tags_spec() == Some(*t),
                None => self.tags_spec() is None,
            },
    {
        match &self.tags {
            Some(t) => Some(t),
            None => None,
        }
    }

    /// Get the path of this music.
    pub fn get_path(&self) -> (p: &String)
        ensures
            p@ == self.path_spec(),
    {
        &self.path
    }
}

/// A play queue of music entries with a cursor; playback of the entry
/// under the cursor is the player's work.
pub struct MusicService {
    pub play_queue: Vec<Music>,
    pub queue_index: usize,
}

impl MusicService {
    /// An empty queue with the cursor at its start.
    pub fn new() -> (s: MusicService)
        ensures
            s.play_queue@.len() == 0,
            s.queue_index == 0,
    {
        MusicService { play_queue: Vec::new(), queue_index: 0 }
    }

    /// Append one music entry at the end of the queue.
    pub fn append_music(&mut self, music: Music)
        ensures
            final(self).play_queue@ == old(self).play_queue@.push(music),
            final(self).queue_index == old(self).queue_index,
    {
        self.play_queue.push(music);
    }
}

} // verus!
