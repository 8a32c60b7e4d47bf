use vstd::prelude::*;

use crate::media::{artist_label, row_artist, row_title, title_label, Labels, Media, MediaView, QueueRow};

verus! {

/// The track that follows the track at `current` in a queue of `len` tracks:
/// the next one, or, after the last one and where the queue repeats, the
/// first one; none after the last one otherwise, nor past the end.
pub open spec fn next_track(current: int, len: int, repeat: bool) -> Option<int> {
    if current == len - 1 && repeat {
        Some(0)
    } else if current < len - 1 {
        Some(current + 1)
    } else {
        None
    }
}

/// The index of the track to play after the track at `current` in a queue of
/// `len` tracks (see [`next_track`]).
pub fn next_index(current: usize, len: usize, repeat: bool) -> (r: Option<usize>)
    requires
        len > 0,
    ensures
        match r {
            Some(i) => next_track(current as int, len as int, repeat) == Some(i as int),
            None => next_track(current as int, len as int, repeat) is None,
        },
{
    let last: usize = len - 1;
    if current == last && repeat {
        Some(0)
    } else if current < last {
        Some(current + 1)
    } else {
        None
    }
}

/// A command for the audio player.
#[derive(Debug, Clone, Copy, PartialEq, Eq, Structural)]
pub enum Transport {
    Pause,
    Play,
}

/// What the play/pause control asks of the audio player: nothing while the
/// player holds nothing, to resume a paused player, to pause a playing one.
pub open spec fn toggle_command(player_empty: bool, player_paused: bool) -> Option<Transport> {
    if player_empty {
        None
    } else if player_paused {
        Some(Transport::Play)
    } else {
        Some(Transport::Pause)
    }
}

/// Whether the player shows itself as playing after a command.
pub open spec fn playing_after(playing: bool, command: Option<Transport>) -> bool {
    match command {
        Some(Transport::Play) => true,
        Some(Transport::Pause) => false,
        None => playing,
    }
}

/// A position or a length in milliseconds, as the player's display holds it:
/// the low 32 bits, read as a signed number.
pub fn display_millis(millis: u128) -> (r: i32)
    ensures
        r == millis as i32,
{
    millis as i32
}

/// The model of one row of the queue list.
#[verifier::ext_equal]
pub struct RowView {
    pub title: Seq<char>,
    pub artist: Seq<char>,
    pub playing: bool,
}

/// The model of a row of the queue list.
pub open spec fn row_view(row: QueueRow) -> RowView {
    RowView { title: row.title@, artist: row.artist@, playing: row.playing }
}

/// The row that the queue list shows for a track when the queue is loaded.
pub open spec fn fresh_row<P>(media: MediaView<P>) -> RowView {
    RowView { title: row_title(media.title), artist: row_artist(media.artist), playing: false }
}

/// The labels shown for a track.
pub open spec fn labels_of<P>(media: MediaView<P>, labels: Labels) -> bool {
    labels.title@ == title_label(media.title) && labels.artist@ == artist_label(media.artist)
}

/// What the player's window shows and which queue it plays from, driven by the
/// user's controls; the audio work that a control asks for is the caller's.
pub struct Controller<P> {
    queue: Vec<Media<P>>,
    rows: Vec<QueueRow>,
    current: usize,
    playing: bool,
    file_selected: bool,
    resume_flag: i32,
}

/// The model of a [`Controller`].
#[verifier::ext_equal]
pub struct ControllerView<P> {
    /// The tracks of the queue.
    pub queue: Seq<MediaView<P>>,
    /// The rows of the queue list.
    pub rows: Seq<RowView>,
    /// The index of the track last chosen from the queue.
    pub current: int,
    /// Whether the window shows a track as playing.
    pub playing: bool,
    /// Whether a track has been loaded into the player.
    pub file_selected: bool,
    /// A counter that the window watches to resume following the playing position.
    pub resume_flag: int,
}

impl<P> ControllerView<P> {
    /// The same state, the play flag set to `playing`.
    pub open spec fn with_playing(self, playing: bool) -> ControllerView<P> {
        ControllerView { playing, ..self }
    }

    /// The same state, with a track loaded into the player and shown as playing.
    pub open spec fn started(self) -> ControllerView<P> {
        ControllerView { playing: true, file_selected: true, ..self }
    }
}

impl<P> View for Controller<P> {
    type V = ControllerView<P>;

    closed spec fn view(&self) -> ControllerView<P> {
        ControllerView {
            queue: self.queue@.map_values(|m: Media<P>| m@),
            rows: self.rows@.map_values(|r: QueueRow| row_view(r)),
            current: self.current as int,
            playing: self.playing,
            file_selected: self.file_selected,
            resume_flag: self.resume_flag as int,
        }
    }
}

impl<P> Controller<P> {
    /// The queue list has one row for each track of the queue.
    pub open spec fn wf(&self) -> bool {
        self@.rows.len() == self@.queue.len()
    }

    /// A controller with an empty queue and nothing playing.
    pub fn new() -> (c: Controller<P>)
        ensures
            c.wf(),
            c@.queue.len() == 0,
            c@.current == 0,
            !c@.playing,
            !c@.file_selected,
            c@.resume_flag == 0,
    {
        let c = Controller { queue: Vec::new(), rows: Vec::new(), current: 0, playing: false, file_selected: false, resume_flag: 0 };
        assert(c@.rows =~= Seq::<RowView>::empty());
        c
    }

    /// The number of tracks in the queue.
    pub fn len(&self) -> (n: usize)
        ensures
            n == self@.queue.len(),
    {
        self.queue.len()
    }

    /// The track at `index` in the queue.
    pub fn media(&self, index: usize) -> (m: &Media<P>)
        requires
            index < self@.queue.len(),
        ensures
            m@ == self@.queue[index as int],
    {
        &self.queue[index]
    }

    /// The row at `index` in the queue list.
    pub fn row(&self, index: usize) -> (r: &QueueRow)
        requires
            index < self@.rows.len(),
        ensures
            row_view(*r) == self@.rows[index as int],
    {
        &self.rows[index]
    }

    /// The index of the track last chosen from the queue.
    pub fn current(&self) -> (i: usize)
        ensures
            i == self@.current,
    {
        self.current
    }

    /// Whether the window shows a track as playing.
    pub fn is_playing(&self) -> (b: bool)
        ensures
            b == self@.playing,
    {
        self.playing
    }

    /// Whether a track has been loaded into the player.
    pub fn file_selected(&self) -> (b: bool)
        ensures
            b == self@.file_selected,
    {
        self.file_selected
    }

    /// The counter that the window watches to resume following the playing position.
    pub fn resume_flag(&self) -> (f: i32)
        ensures
            f == self@.resume_flag,
    {
        self.resume_flag
    }
}

impl<P> Controller<P> {
    /// The play/pause control, given whether the audio player holds nothing
    /// and whether it is paused: returns the command for the audio player and
    /// updates what the window shows.
    pub fn toggle_play(&mut self, player_empty: bool, player_paused: bool) -> (command: Option<Transport>)
        requires
            old(self).wf(),
        ensures
            command == toggle_command(player_empty, player_paused),
            final(self)@ == old(self)@.with_playing(playing_after(old(self)@.playing, command)),
            final(self).wf(),
    {
        if !player_empty {
            if !player_paused {
                self.playing = false;
                Some(Transport::Pause)
            } else {
                self.playing = true;
                Some(Transport::Play)
            }
        } else {
            None
        }
    }

    /// A tick of the timer that follows the playing position: the position to
    /// show, in milliseconds, while a track is shown as playing.
    pub fn tick(&self, position_millis: u128) -> (shown: Option<i32>)
        ensures
            shown == if self@.playing {
                Some(position_millis as i32)
            } else {
                None
            },
    {
        if self.playing {
            Some(display_millis(position_millis))
        } else {
            None
        }
    }

    /// A single file was chosen and is loaded into the player: returns the
    /// labels to show for it.
    pub fn select_file(&mut self, media: &Media<P>) -> (labels: Labels)
        requires
            old(self).wf(),
        ensures
            labels_of(media@, labels),
            final(self)@ == (ControllerView { file_selected: true, ..old(self)@ }),
            final(self).wf(),
    {
        let labels = media.labels();
        self.file_selected = true;
        labels
    }

    /// A folder was chosen: its tracks become the queue, with a fresh row for each.
    pub fn load_folder(&mut self, queue: Vec<Media<P>>)
        requires
            old(self).wf(),
        ensures
            final(self)@.queue == queue@.map_values(|m: Media<P>| m@),
            final(self)@.rows == final(self)@.queue.map_values(|m: MediaView<P>| fresh_row(m)),
            final(self)@.current == old(self)@.current,
            final(self)@.playing == old(self)@.playing,
            final(self)@.file_selected == old(self)@.file_selected,
            final(self)@.resume_flag == old(self)@.resume_flag,
            final(self).wf(),
    {
        let mut rows: Vec<QueueRow> = Vec::new();
        let n: usize = queue.len();
        let mut i: usize = 0;
        while i < n
            invariant
                n == queue@.len(),
                i <= n,
                rows@.len() == i,
                forall|j: int| 0 <= j < i ==> row_view(#[trigger] rows@[j]) == fresh_row(queue@[j]@),
            decreases n - i,
        {
            let row = queue[i].row();
            rows.push(row);
            i = i + 1;
        }
        self.queue = queue;
        self.rows = rows;
        assert(self@.rows =~= self@.queue.map_values(|m: MediaView<P>| fresh_row(m)));
    }

    /// A track of the queue was chosen: its row is marked as playing, it
    /// becomes the current track, and it is shown as loaded and playing.
    /// Returns the labels to show for it.
    pub fn play_media(&mut self, index: usize) -> (labels: Labels)
        requires
            old(self).wf(),
            index < old(self)@.queue.len(),
        ensures
            labels_of(old(self)@.queue[index as int], labels),
            final(self)@ == (ControllerView {
                rows: old(self)@.rows.update(index as int, RowView { playing: true, ..old(self)@.rows[index as int] }),
                current: index as int,
                ..old(self)@.started()
            }),
            final(self).wf(),
    {
        let row = QueueRow {
            title: self.rows[index].title.clone(),
            artist: self.rows[index].artist.clone(),
            playing: true,
        };
        self.rows.set(index, row);
        self.current = index;
        self.playing = true;
        self.file_selected = true;
        let labels = self.queue[index].labels();
        assert(self@.rows =~= old(self)@.rows.update(index as int, RowView { playing: true, ..old(self)@.rows[index as int] }));
        labels
    }

    /// The playing track ended: the track that follows the current one (see
    /// [`next_track`]), if any, is loaded and shown as playing; returns its
    /// index and the labels to show. The current track stays as it was.
    pub fn load_next(&mut self, repeat: bool) -> (next: Option<(usize, Labels)>)
        requires
            old(self).wf(),
            old(self)@.queue.len() > 0,
        ensures
            match next {
                Some((i, labels)) => {
                    &&& next_track(old(self)@.current, old(self)@.queue.len() as int, repeat) == Some(i as int)
                    &&& labels_of(old(self)@.queue[i as int], labels)
                    &&& final(self)@ == old(self)@.started()
                },
                None => {
                    &&& next_track(old(self)@.current, old(self)@.queue.len() as int, repeat) is None
                    &&& final(self)@ == old(self)@
                },
            },
            final(self).wf(),
    {
        match next_index(self.current, self.queue.len(), repeat) {
            Some(i) => {
                let labels = self.queue[i].labels();
                self.playing = true;
                self.file_selected = true;
                Some((i, labels))
            },
            None => None,
        }
    }

    /// The position slider was released at `time` milliseconds: returns the
    /// position to seek to and bumps the counter that resumes following the
    /// playing position.
    pub fn seek(&mut self, time: i32) -> (target: u64)
        requires
            old(self).wf(),
            time >= 0,
            old(self)@.resume_flag < i32::MAX,
        ensures
            target == time,
            final(self)@ == (ControllerView { resume_flag: old(self)@.resume_flag + 1, ..old(self)@ }),
            final(self).wf(),
    {
        self.resume_flag = self.resume_flag + 1;
        time as u64
    }
}

/// Whether the audio player is paused after a command.
pub open spec fn paused_after(paused: bool, command: Option<Transport>) -> bool {
    match command {
        Some(Transport::Play) => false,
        Some(Transport::Pause) => true,
        None => paused,
    }
}

/// The order of tracks: the track that follows is always in the queue; before
/// the last track it is the next one, whether the queue repeats or not; after
/// the last one it is the first one where the queue repeats and none
/// otherwise; past the end there is none.
pub proof fn lemma_next_track(current: int, len: int, repeat: bool)
    requires
        len > 0,
        current >= 0,
    ensures
        next_track(current, len, repeat) matches Some(i) ==> 0 <= i < len,
        current < len - 1 ==> next_track(current, len, repeat) == Some(current + 1),
        next_track(len - 1, len, true) == Some(0int),
        next_track(len - 1, len, false) is None,
        current >= len ==> next_track(current, len, repeat) is None,
{
}

/// The play/pause control: it asks nothing of an empty player; on any other
/// player the window then shows the track as playing exactly when the player
/// runs; and two presses, the player obeying each command, bring the player
/// back to where it was, and the window too where it agreed with the player.
pub proof fn lemma_toggle(playing: bool, paused: bool)
    ensures
        toggle_command(true, paused) is None,
        playing_after(playing, toggle_command(false, paused)) == !paused_after(paused, toggle_command(false, paused)),
        ({
            let first = toggle_command(false, paused);
            let second = toggle_command(false, paused_after(paused, first));
            &&& paused_after(paused_after(paused, first), second) == paused
            &&& playing == !paused ==> playing_after(playing_after(playing, first), second) == playing
        }),
{
}

/// The row made for a track when a queue is loaded shows its title tag, or
/// "Unknown Title" where it has none, and its artist tag, or "Unknown Artist"
/// where it has none, each depending on that tag alone; it is not marked as
/// playing.
pub proof fn lemma_fresh_row<P>(media: MediaView<P>)
    ensures
        fresh_row(media).title == match media.title {
            Some(t) => t,
            None => "Unknown Title"@,
        },
        fresh_row(media).artist == match media.artist {
            Some(a) => a,
            None => "Unknown Artist"@,
        },
        !fresh_row(media).playing,
{
}

/// The labels of a track show its title tag, or "UNKNOWN TITLE" where it has
/// none, and its artist tag, or "UNKNOWN ARTIST" where it has none.
pub proof fn lemma_labels_of<P>(media: MediaView<P>, labels: Labels)
    ensures
        labels_of(media, labels) <==> (labels.title@ == match media.title {
            Some(t) => t,
            None => "UNKNOWN TITLE"@,
        } && labels.artist@ == match media.artist {
            Some(a) => a,
            None => "UNKNOWN ARTIST"@,
        }),
{
}

/// The play/pause control resumes a paused player and pauses a running one,
/// and the window's play flag then follows: shown as playing after a resume,
/// not after a pause, unchanged where nothing was asked.
pub proof fn lemma_toggle_commands(playing: bool)
    ensures
        toggle_command(false, true) == Some(Transport::Play),
        toggle_command(false, false) == Some(Transport::Pause),
        playing_after(playing, Some(Transport::Play)),
        !playing_after(playing, Some(Transport::Pause)),
        playing_after(playing, None) == playing,
{
}

/// Starting a track shows it as playing and loaded and changes nothing else;
/// setting the play flag changes nothing else.
pub proof fn lemma_view_updates<P>(v: ControllerView<P>, playing: bool)
    ensures
        v.started().playing,
        v.started().file_selected,
        v.started().queue == v.queue,
        v.started().rows == v.rows,
        v.started().current == v.current,
        v.started().resume_flag == v.resume_flag,
        v.with_playing(playing).playing == playing,
        v.with_playing(playing).file_selected == v.file_selected,
        v.with_playing(playing).queue == v.queue,
        v.with_playing(playing).rows == v.rows,
        v.with_playing(playing).current == v.current,
        v.with_playing(playing).resume_flag == v.resume_flag,
{
}

} // verus!
