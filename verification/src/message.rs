//! Room messages, as far as the feeds and the chat read them.
use vstd::prelude::*;

verus! {

/// Where the file of a media message lives: an `mxc://` URI, or an encrypted file,
/// which the feeds do not show.
pub enum MediaSource {
    Plain(String),
    Encrypted,
}

/// The optional metadata of a media message.
pub struct MediaInfo {
    pub mimetype: Option<String>,
    pub size: Option<u64>,
    pub thumbnail_source: Option<MediaSource>,
}

/// An audio, image or video message.
pub struct MediaContent {
    pub source: MediaSource,
    pub info: Option<MediaInfo>,
}

/// A text message.
pub struct TextContent {
    pub body: String,
}

/// The kinds of room message that the feeds tell apart.
pub enum MessageType {
    Audio(MediaContent),
    Image(MediaContent),
    Text(TextContent),
    Video(MediaContent),
    Other,
}

/// A room message event: who sent it, what it holds, and when the server received it
/// (milliseconds since the Unix epoch).
pub struct Message {
    pub sender: String,
    pub msgtype: MessageType,
    pub origin_server_ts: u64,
}

impl MediaContent {
    /// The MIME type, where the metadata gives one.
    pub open spec fn mime(&self) -> Option<Seq<char>> {
        match self.info {
            Some(info) => match info.mimetype {
                Some(m) => Some(m@),
                None => None,
            },
            None => None,
        }
    }

    /// The file size, where the metadata gives one.
    pub open spec fn file_size(&self) -> Option<u64> {
        match self.info {
            Some(info) => info.size,
            None => None,
        }
    }

    /// The thumbnail's source, where the metadata gives one.
    pub open spec fn thumbnail(&self) -> Option<MediaSource> {
        match self.info {
            Some(info) => info.thumbnail_source,
            None => None,
        }
    }

    /// Whether the metadata gives a MIME type.
    pub fn has_mimetype(&self) -> (r: bool)
        ensures
            r == (self.mime() is Some),
    {
        match &self.info {
            Some(info) => info.mimetype.is_some(),
            None => false,
        }
    }

    /// Whether the metadata gives a file size.
    pub fn has_size(&self) -> (r: bool)
        ensures
            r == (self.file_size() is Some),
    {
        match &self.info {
            Some(info) => info.size.is_some(),
            None => false,
        }
    }

    /// The MIME type; the metadata must give one.
    pub fn mimetype(&self) -> (r: String)
        requires
            self.mime() is Some,
        ensures
            r@ == self.mime().unwrap(),
    {
        match &self.info {
            Some(info) => match &info.mimetype {
                Some(m) => m.clone(),
                None => {
                    proof {
                        assert(false);
                    }
                    String::new()
                },
            },
            None => {
                proof {
                    assert(false);
                }
                String::new()
            },
        }
    }

    /// The file size; the metadata must give one.
    pub fn size(&self) -> (r: u64)
        requires
            self.file_size() is Some,
        ensures
            r == self.file_size().unwrap(),
    {
        match &self.info {
            Some(info) => match info.size {
                Some(n) => n,
                None => {
                    proof {
                        assert(false);
                    }
                    0
                },
            },
            None => {
                proof {
                    assert(false);
                }
                0
            },
        }
    }

    /// The poster image of a video: its thumbnail where the metadata names one, the video's
    /// own file otherwise (the choice of matrix-sdk's `MediaEventContent::thumbnail_source`
    /// for videos and images).
    pub open spec fn poster(&self) -> MediaSource {
        match self.thumbnail() {
            Some(thumbnail) => thumbnail,
            None => self.source,
        }
    }

    /// The `mxc://` URI of the poster image, where the poster is a plain file.
    pub fn plain_poster(&self) -> (r: Option<&String>)
        ensures
            match self.poster() {
                MediaSource::Plain(uri) => r == Some(&uri),
                MediaSource::Encrypted => r is None,
            },
    {
        let thumbnail = match &self.info {
            Some(info) => match &info.thumbnail_source {
                Some(t) => Some(t),
                None => None,
            },
            None => None,
        };
        let poster = match thumbnail {
            Some(t) => t,
            None => &self.source,
        };
        match poster {
            MediaSource::Plain(uri) => Some(uri),
            MediaSource::Encrypted => None,
        }
    }
}

} // verus!
