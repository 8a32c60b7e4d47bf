use vstd::prelude::*;



verus! {

#[verifier::external_type_specification]
#[verifier::external_body]
pub struct ExCodecType(symphonia::core::codecs::CodecType);

/// Whether symphonia's `CodecType` value `codec` is `CODEC_TYPE_NULL`, the
/// codec of a track that no decoder is known for.
pub uninterp spec fn is_null_codec(codec: symphonia::core::codecs::CodecType) -> bool;

/// Compares `codec` with symphonia's `CODEC_TYPE_NULL` by `CodecType`'s
/// derived `PartialEq`; the claim is only that the answer depends on `codec`
/// alone, which the derived comparison of its one `u32` field gives.
#[verifier::external_body]
fn codec_is_null(codec: &symphonia::core::codecs::CodecType) -> (r: bool)
    ensures
        r == is_null_codec(*codec),
{
    *codec == symphonia::core::codecs::CODEC_TYPE_NULL
}

/// A track of an audio stream: its id and its codec.
pub struct TrackInfo {
    pub id: u32,
    pub codec: symphonia::core::codecs::CodecType,
}

/// Whether the track at `index` is the first one with a known codec.
pub open spec fn is_first_playable(tracks: Seq<TrackInfo>, index: int) -> bool {
    &&& 0 <= index < tracks.len()
    &&& !is_null_codec(tracks[index].codec)
    &&& forall|j: int| 0 <= j < index ==> is_null_codec(#[trigger] tracks[j].codec)
}

/// The track to decode: the first one whose codec is known, if any.
pub fn select_track(tracks: &Vec<TrackInfo>) -> (r: Option<usize>)
    ensures
        match r {
            Some(i) => is_first_playable(tracks@, i as int),
            None => forall|j: int| 0 <= j < tracks@.len() ==> is_null_codec(#[trigger] tracks@[j].codec),
        },
{
    let n: usize = tracks.len();
    let mut i: usize = 0;
    while i < n
        invariant
            n == tracks@.len(),
            i <= n,
            forall|j: int| 0 <= j < i ==> is_null_codec(#[trigger] tracks@[j].codec),
        decreases n - i,
    {
        if !codec_is_null(&tracks[i].codec) {
            return Some(i);
        }
        i = i + 1;
    }
    None
}

/// What reading the next packet of the stream gave.
#[derive(Debug, Clone, Copy, PartialEq, Eq, Structural)]
pub enum PacketEvent {
    /// A packet of the track with this id.
    Packet { track_id: u32 },
    /// The stream must be reset before it goes on (a chained stream).
    ResetRequired,
    /// The stream ended.
    EndOfStream,
    /// Any other failure.
    Failed,
}

/// What to do with what reading a packet gave.
#[derive(Debug, Clone, Copy, PartialEq, Eq, Structural)]
pub enum PacketStep {
    /// Decode the packet.
    Decode,
    /// Leave the packet and read the next one.
    Skip,
    /// Stop decoding without error; `reset` tells that the stream asked for a reset.
    Stop { reset: bool },
    /// Stop decoding with the error that was met.
    Fail,
}

/// What decoding a packet gave.
#[derive(Debug, Clone, Copy, PartialEq, Eq, Structural)]
pub enum DecodeEvent {
    /// Audio of this many frames.
    Decoded { frames: usize },
    /// The packet could not be read.
    IoError,
    /// The packet held invalid data.
    DecodeError,
    /// A failure that decoding cannot go past.
    Failed,
}

/// What to do with what decoding a packet gave.
#[derive(Debug, Clone, Copy, PartialEq, Eq, Structural)]
pub enum DecodeStep {
    /// Copy the audio into the sample buffer, made first with room for
    /// `new_buffer` frames where that is given.
    Store { new_buffer: Option<u64> },
    /// Leave the packet and read the next one.
    Skip,
    /// Stop decoding with the error that was met.
    Fail,
}

/// The step that a packet event leads to while decoding the track `track_id`.
pub open spec fn packet_step(track_id: u32, event: PacketEvent) -> PacketStep {
    match event {
        PacketEvent::Packet { track_id: t } => if t == track_id {
            PacketStep::Decode
        } else {
            PacketStep::Skip
        },
        PacketEvent::ResetRequired => PacketStep::Stop { reset: true },
        PacketEvent::EndOfStream => PacketStep::Stop { reset: false },
        PacketEvent::Failed => PacketStep::Fail,
    }
}

/// The step that a decode event leads to, given the frames the sample buffer
/// was made for, if it was made.
pub open spec fn decode_step(buffer: Option<u64>, event: DecodeEvent) -> DecodeStep {
    match event {
        DecodeEvent::Decoded { frames } => DecodeStep::Store {
            new_buffer: if buffer is None {
                Some(frames as u64)
            } else {
                None
            },
        },
        DecodeEvent::IoError => DecodeStep::Skip,
        DecodeEvent::DecodeError => DecodeStep::Skip,
        DecodeEvent::Failed => DecodeStep::Fail,
    }
}

/// The sample buffer after a decode event: made for the frames of the first
/// decoded packet, and kept as it is from then on.
pub open spec fn buffer_after(buffer: Option<u64>, event: DecodeEvent) -> Option<u64> {
    match (buffer, event) {
        (None, DecodeEvent::Decoded { frames }) => Some(frames as u64),
        _ => buffer,
    }
}

/// The decisions of decoding one track of an audio stream, packet by packet.
pub struct DecodeSession {
    track_id: u32,
    buffer: Option<u64>,
}

impl DecodeSession {
    /// The id of the track being decoded.
    pub closed spec fn spec_track(&self) -> u32 {
        self.track_id
    }

    /// The frames the sample buffer was made for, if it was made.
    pub closed spec fn spec_buffer(&self) -> Option<u64> {
        self.buffer
    }

    /// A session for the track `track_id`, with no sample buffer yet.
    pub fn new(track_id: u32) -> (s: DecodeSession)
        ensures
            s.spec_track() == track_id,
            s.spec_buffer() is None,
    {
        DecodeSession { track_id, buffer: None }
    }

    /// The id of the track being decoded.
    pub fn track_id(&self) -> (t: u32)
        ensures
            t == self.spec_track(),
    {
        self.track_id
    }

    /// The frames the sample buffer was made for, if it was made.
    pub fn buffer_frames(&self) -> (b: Option<u64>)
        ensures
            b == self.spec_buffer(),
    {
        self.buffer
    }

    /// What to do after reading a packet: decode the packets of the track,
    /// leave those of other tracks, stop at the end of the stream or where it
    /// asks for a reset, and fail on any other error.
    pub fn on_packet(&self, event: PacketEvent) -> (step: PacketStep)
        ensures
            step == packet_step(self.spec_track(), event),
    {
        match event {
            PacketEvent::Packet { track_id } => {
                if track_id == self.track_id {
                    PacketStep::Decode
                } else {
                    PacketStep::Skip
                }
            },
            PacketEvent::ResetRequired => PacketStep::Stop { reset: true },
            PacketEvent::EndOfStream => PacketStep::Stop { reset: false },
            PacketEvent::Failed => PacketStep::Fail,
        }
    }

    /// What to do after decoding a packet: store the audio, making the sample
    /// buffer from the first decoded packet; leave packets that could not be
    /// read or held invalid data; fail on any other error.
    pub fn on_decoded(&mut self, event: DecodeEvent) -> (step: DecodeStep)
        ensures
            step == decode_step(old(self).spec_buffer(), event),
            final(self).spec_buffer() == buffer_after(old(self).spec_buffer(), event),
            final(self).spec_track() == old(self).spec_track(),
    {
        match event {
            DecodeEvent::Decoded { frames } => {
                if self.buffer.is_none() {
                    let capacity: u64 = frames as u64;
                    self.buffer = Some(capacity);
                    DecodeStep::Store { new_buffer: Some(capacity) }
                } else {
                    DecodeStep::Store { new_buffer: None }
                }
            },
            DecodeEvent::IoError => DecodeStep::Skip,
            DecodeEvent::DecodeError => DecodeStep::Skip,
            DecodeEvent::Failed => DecodeStep::Fail,
        }
    }
}

/// Packets are decoded exactly when they belong to the track being decoded.
pub proof fn lemma_packets_of_track(track_id: u32, other: u32)
    ensures
        packet_step(track_id, PacketEvent::Packet { track_id }) == PacketStep::Decode,
        other != track_id ==> packet_step(track_id, PacketEvent::Packet { track_id: other }) == PacketStep::Skip,
{
}

/// The sample buffer is made once, from the first decoded packet, and is never
/// made again nor dropped: once it exists, no event changes it and no step asks
/// for a new one.
pub proof fn lemma_buffer_made_once(buffer: Option<u64>, event: DecodeEvent)
    ensures
        buffer is Some ==> buffer_after(buffer, event) == buffer,
        buffer is Some ==> (decode_step(buffer, event) matches DecodeStep::Store { new_buffer } ==> new_buffer is None),
        buffer_after(buffer, event) is None ==> buffer is None,
        decode_step(buffer, event) matches DecodeStep::Store { new_buffer: Some(frames) } ==> buffer_after(buffer, event) == Some(frames),
{
}

/// The events that are not packets lead to the same step whatever track is
/// being decoded: the end of the stream stops decoding without error, a reset
/// request stops it and tells so, and any other failure fails.
pub proof fn lemma_stream_events(track_id: u32)
    ensures
        packet_step(track_id, PacketEvent::EndOfStream) == (PacketStep::Stop { reset: false }),
        packet_step(track_id, PacketEvent::ResetRequired) == (PacketStep::Stop { reset: true }),
        packet_step(track_id, PacketEvent::Failed) == PacketStep::Fail,
{
}

/// A packet that could not be read or held invalid data is skipped, whether
/// or not the sample buffer exists yet, and the buffer stays as it was; a
/// failure that decoding cannot go past fails at any time; decoded audio is
/// always stored.
pub proof fn lemma_decode_errors(buffer: Option<u64>, frames: usize)
    ensures
        decode_step(buffer, DecodeEvent::DecodeError) == DecodeStep::Skip,
        decode_step(buffer, DecodeEvent::IoError) == DecodeStep::Skip,
        decode_step(buffer, DecodeEvent::Failed) == DecodeStep::Fail,
        buffer_after(buffer, DecodeEvent::DecodeError) == buffer,
        buffer_after(buffer, DecodeEvent::IoError) == buffer,
        buffer_after(buffer, DecodeEvent::Failed) == buffer,
        decode_step(None, DecodeEvent::Decoded { frames }) == (DecodeStep::Store { new_buffer: Some(frames as u64) }),
        buffer_after(None, DecodeEvent::Decoded { frames }) == Some(frames as u64),
        buffer is Some ==> decode_step(buffer, DecodeEvent::Decoded { frames }) == (DecodeStep::Store { new_buffer: None }),
{
}

/// At most one track is the first one with a known codec, and it comes
/// before every other track with a known codec.
pub proof fn lemma_first_playable_unique(tracks: Seq<TrackInfo>, i: int, j: int)
    requires
        is_first_playable(tracks, i),
    ensures
        is_first_playable(tracks, j) ==> i == j,
        0 <= j < tracks.len() && !is_null_codec(tracks[j].codec) ==> i <= j,
{
    if is_first_playable(tracks, j) && i != j {
        if i < j {
            assert(is_null_codec(tracks[i].codec));
        } else {
            assert(is_null_codec(tracks[j].codec));
        }
    }
    if 0 <= j < tracks.len() && !is_null_codec(tracks[j].codec) && j < i {
        assert(is_null_codec(tracks[j].codec));
    }
}

} // verus!
