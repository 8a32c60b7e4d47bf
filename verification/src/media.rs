use vstd::prelude::*;

verus! {

/// The file types (by extension) whose tags the player reads.
pub open spec fn is_tagged_type(ext: Option<Seq<char>>) -> bool {
    match ext {
        Some(e) => e == "mp3"@ || e == "mp4"@ || e == "flac"@,
        None => false,
    }
}

/// Whether the player reads title and artist tags from a file with extension `ext`.
pub fn reads_tags(ext: &Option<String>) -> (r: bool)
    ensures
        r == is_tagged_type(ext.deep_view()),
{
    match ext {
        Some(e) => {
            let mp3 = "mp3".to_owned();
            let mp4 = "mp4".to_owned();
            let flac = "flac".to_owned();
            *e == mp3 || *e == mp4 || *e == flac
        },
        None => false,
    }
}

} // verus!

verus! {

/// The title and artist tags read from an audio file, each where the file has it.
#[derive(Debug, Default)]
pub struct TrackTags {
    pub title: Option<String>,
    pub artist: Option<String>,
}

/// A track the player knows of: where it lies and what its tags say.
///
/// `P` is the type that locates the file (a path).
#[derive(Debug)]
pub struct Media<P> {
    path: P,
    title: Option<String>,
    artist: Option<String>,
}

/// The mathematical model of a [`Media`].
pub struct MediaView<P> {
    pub path: P,
    pub title: Option<Seq<char>>,
    pub artist: Option<Seq<char>>,
}

impl<P> View for Media<P> {
    type V = MediaView<P>;

    closed spec fn view(&self) -> MediaView<P> {
        MediaView { path: self.path, title: self.title.deep_view(), artist: self.artist.deep_view() }
    }
}

/// A tag as the track keeps it: the tag read from the file where the file
/// type carries tags, nothing otherwise.
pub open spec fn kept_tag(ext: Option<Seq<char>>, tag: Option<Seq<char>>) -> Option<Seq<char>> {
    if is_tagged_type(ext) {
        tag
    } else {
        None
    }
}

/// What the "now playing" area shows as the title.
pub open spec fn title_label(title: Option<Seq<char>>) -> Seq<char> {
    match title {
        Some(t) => t,
        None => "UNKNOWN TITLE"@,
    }
}

/// What the "now playing" area shows as the artist.
pub open spec fn artist_label(artist: Option<Seq<char>>) -> Seq<char> {
    match artist {
        Some(a) => a,
        None => "UNKNOWN ARTIST"@,
    }
}

/// What a row of the queue list shows as the title.
pub open spec fn row_title(title: Option<Seq<char>>) -> Seq<char> {
    match title {
        Some(t) => t,
        None => "Unknown Title"@,
    }
}

/// What a row of the queue list shows as the artist.
pub open spec fn row_artist(artist: Option<Seq<char>>) -> Seq<char> {
    match artist {
        Some(a) => a,
        None => "Unknown Artist"@,
    }
}

/// The title and artist shown for the track being played.
pub struct Labels {
    pub title: String,
    pub artist: String,
}

/// One row of the queue list.
pub struct QueueRow {
    pub title: String,
    pub artist: String,
    pub playing: bool,
}

fn label_or(value: &Option<String>, fallback: &str) -> (r: String)
    ensures
        r@ == match value.deep_view() {
            Some(v) => v,
            None => fallback@,
        },
{
    match value {
        Some(v) => v.clone(),
        None => fallback.to_owned(),
    }
}

impl<P> Media<P> {
    /// The track at `path`, whose file has extension `ext`; `tags` are what
    /// was read from the file, and they are kept only where the file type
    /// carries tags (see [`reads_tags`]).
    pub fn new(path: P, ext: &Option<String>, tags: TrackTags) -> (m: Media<P>)
        ensures
            m@.path == path,
            m@.title == kept_tag(ext.deep_view(), tags.title.deep_view()),
            m@.artist == kept_tag(ext.deep_view(), tags.artist.deep_view()),
    {
        if reads_tags(ext) {
            Media { path, title: tags.title, artist: tags.artist }
        } else {
            Media { path, title: None, artist: None }
        }
    }

    /// Where the track lies.
    pub fn path(&self) -> (p: &P)
        ensures
            *p == self@.path,
    {
        &self.path
    }

    /// The track's title tag, if it has one.
    pub fn title(&self) -> (t: Option<&str>)
        ensures
            match t {
                Some(s) => self@.title == Some(s@),
                None => self@.title is None,
            },
    {
        match &self.title {
            Some(s) => Some(s.as_str()),
            None => None,
        }
    }

    /// The track's artist tag, if it has one.
    pub fn artist(&self) -> (a: Option<&str>)
        ensures
            match a {
                Some(s) => self@.artist == Some(s@),
                None => self@.artist is None,
            },
    {
        match &self.artist {
            Some(s) => Some(s.as_str()),
            None => None,
        }
    }

    /// The title and artist that the "now playing" area shows for this track.
    pub fn labels(&self) -> (l: Labels)
        ensures
            l.title@ == title_label(self@.title),
            l.artist@ == artist_label(self@.artist),
    {
        Labels { title: label_or(&self.title, "UNKNOWN TITLE"), artist: label_or(&self.artist, "UNKNOWN ARTIST") }
    }

    /// The row that the queue list shows for this track; it is not marked as playing.
    pub fn row(&self) -> (r: QueueRow)
        ensures
            r.title@ == row_title(self@.title),
            r.artist@ == row_artist(self@.artist),
            !r.playing,
    {
        QueueRow { title: label_or(&self.title, "Unknown Title"), artist: label_or(&self.artist, "Unknown Artist"), playing: false }
    }
}

/// Tags are read exactly from files with extension "mp3", "mp4" or "flac".
pub proof fn lemma_tagged_types(e: Seq<char>)
    ensures
        is_tagged_type(Some(e)) <==> (e == "mp3"@ || e == "mp4"@ || e == "flac"@),
        !is_tagged_type(None),
{
}

/// A track keeps the tag read from its file exactly when the file's extension
/// is "mp3", "mp4" or "flac"; any other file, or one without an extension,
/// keeps none.
pub proof fn lemma_kept_tag(ext: Option<Seq<char>>, tag: Option<Seq<char>>)
    ensures
        kept_tag(ext, tag) == if ext == Some("mp3"@) || ext == Some("mp4"@) || ext == Some("flac"@) {
            tag
        } else {
            None
        },
        kept_tag(Some("mp4"@), tag) == tag,
        kept_tag(None, tag) is None,
{
}

/// The labels show a tag as it is where the track has it, and otherwise
/// "UNKNOWN TITLE" / "UNKNOWN ARTIST" in the "now playing" area and
/// "Unknown Title" / "Unknown Artist" in the queue list; the title labels
/// depend on the title alone and the artist labels on the artist alone.
pub proof fn lemma_label_fallbacks(tag: Seq<char>)
    ensures
        title_label(Some(tag)) == tag,
        title_label(None) == "UNKNOWN TITLE"@,
        artist_label(Some(tag)) == tag,
        artist_label(None) == "UNKNOWN ARTIST"@,
        row_title(Some(tag)) == tag,
        row_title(None) == "Unknown Title"@,
        row_artist(Some(tag)) == tag,
        row_artist(None) == "Unknown Artist"@,
{
}

} // verus!
