//! Where the audio of a voice channel goes: the names of broadcasts, participants
//! and tracks.
use vstd::prelude::*;
use vstd::utf8::encode_utf8;
use crate::collections::Replicate;
use crate::crypto::{digest, sha256};
use crate::text::{hex_text, nibble_to_hex};

verus! {

/// What went wrong with the audio of a voice channel.
#[derive(Debug, PartialEq, Eq)]
pub enum VoiceMediaError {
    /// The path of a broadcast is not valid.
    Path(String),
    /// The session failed.
    Session(String),
}

/// What a [`VoiceMediaError`] holds.
#[verifier::ext_equal]
pub enum VoiceMediaErrorModel {
    Path(Seq<char>),
    Session(Seq<char>),
}

impl DeepView for VoiceMediaError {
    type V = VoiceMediaErrorModel;

    open spec fn deep_view(&self) -> VoiceMediaErrorModel {
        match self {
            VoiceMediaError::Path(a) => VoiceMediaErrorModel::Path(a.deep_view()),
            VoiceMediaError::Session(a) => VoiceMediaErrorModel::Session(a.deep_view()),
        }
    }
}

impl View for VoiceMediaError {
    type V = VoiceMediaErrorModel;

    open spec fn view(&self) -> VoiceMediaErrorModel {
        self.deep_view()
    }
}

impl Replicate for VoiceMediaError {
    fn replicate(&self) -> (copy: Self) {
        match self {
            VoiceMediaError::Path(a) => VoiceMediaError::Path(a.replicate()),
            VoiceMediaError::Session(a) => VoiceMediaError::Session(a.replicate()),
        }
    }
}

impl Clone for VoiceMediaError {
    fn clone(&self) -> (copy: Self)
        ensures
            copy@ == self@,
    {
        self.replicate()
    }
}

/// Where a track is.
#[derive(Debug, PartialEq, Eq)]
pub struct TrackAddress {
    pub broadcast_path: String,
    pub track_name: String,
}

/// What a [`TrackAddress`] holds.
#[verifier::ext_equal]
pub struct TrackAddressModel {
    pub broadcast_path: Seq<char>,
    pub track_name: Seq<char>,
}

impl DeepView for TrackAddress {
    type V = TrackAddressModel;

    open spec fn deep_view(&self) -> TrackAddressModel {
        TrackAddressModel {
            broadcast_path: self.broadcast_path.deep_view(),
            track_name: self.track_name.deep_view(),
        }
    }
}

impl View for TrackAddress {
    type V = TrackAddressModel;

    open spec fn view(&self) -> TrackAddressModel {
        self.deep_view()
    }
}

impl Replicate for TrackAddress {
    fn replicate(&self) -> (copy: Self) {
        TrackAddress {
            broadcast_path: self.broadcast_path.replicate(),
            track_name: self.track_name.replicate(),
        }
    }
}

impl Clone for TrackAddress {
    fn clone(&self) -> (copy: Self)
        ensures
            copy@ == self@,
    {
        self.replicate()
    }
}

/// A piece of a track.
#[derive(Debug, PartialEq, Eq)]
pub struct MediaFrame {
    pub seq: u64,
    pub timestamp_us: u64,
    pub keyframe: bool,
    pub payload: Vec<u8>,
}

/// What a [`MediaFrame`] holds.
#[verifier::ext_equal]
pub struct MediaFrameModel {
    pub seq: u64,
    pub timestamp_us: u64,
    pub keyframe: bool,
    pub payload: Seq<u8>,
}

impl DeepView for MediaFrame {
    type V = MediaFrameModel;

    open spec fn deep_view(&self) -> MediaFrameModel {
        MediaFrameModel {
            seq: self.seq.deep_view(),
            timestamp_us: self.timestamp_us.deep_view(),
            keyframe: self.keyframe.deep_view(),
            payload: self.payload.deep_view(),
        }
    }
}

impl View for MediaFrame {
    type V = MediaFrameModel;

    open spec fn view(&self) -> MediaFrameModel {
        self.deep_view()
    }
}

impl Replicate for MediaFrame {
    fn replicate(&self) -> (copy: Self) {
        MediaFrame {
            seq: self.seq.replicate(),
            timestamp_us: self.timestamp_us.replicate(),
            keyframe: self.keyframe.replicate(),
            payload: self.payload.replicate(),
        }
    }
}

impl Clone for MediaFrame {
    fn clone(&self) -> (copy: Self)
        ensures
            copy@ == self@,
    {
        self.replicate()
    }
}

impl VoiceMediaError {
    /// What went wrong, in words.
    pub fn to_string(&self) -> (text: String)
        ensures
            text@ == match self@ {
                VoiceMediaErrorModel::Path(path) => "invalid path: "@ + path,
                VoiceMediaErrorModel::Session(error) => "media session error: "@ + error,
            },
    {
        match self {
            VoiceMediaError::Path(path) => "invalid path: ".to_owned().concat(path.as_str()),
            VoiceMediaError::Session(error) => "media session error: ".to_owned().concat(
                error.as_str(),
            ),
        }
    }
}

/// The name of the broadcast of a voice channel's session.
pub fn default_broadcast_base(guild_id: &str, channel_id: &str, session_id: &str) -> (base: String)
    ensures
        base@ == "rapture/voice/"@ + guild_id@ + "/"@ + channel_id@ + "/"@ + session_id@,
{
    "rapture/voice/".to_owned().concat(guild_id).concat("/").concat(channel_id).concat("/").concat(
        session_id,
    )
}

/// Bytes in hexadecimal, two digits each.
pub open spec fn hex_of(bytes: Seq<u8>) -> Seq<char>
    decreases bytes.len(),
{
    if bytes.len() == 0 {
        Seq::empty()
    } else {
        hex_of(bytes.drop_last()) + hex_text(bytes.last() as nat, 2)
    }
}

/// Bytes in hexadecimal, two digits each.
pub fn bytes_to_hex(bytes: &Vec<u8>) -> (text: String)
    ensures
        text@ == hex_of(bytes@),
{
    let mut text = String::new();
    let mut i: usize = 0;
    proof {
        assert(text@ =~= hex_of(bytes@.take(0)));
    }
    while i < bytes.len()
        invariant
            i <= bytes.len(),
            text@ == hex_of(bytes@.take(i as int)),
        decreases bytes.len() - i,
    {
        let byte: u8 = bytes[i];
        let ghost before = text@;
        text.push(nibble_to_hex(byte / 16));
        text.push(nibble_to_hex(byte % 16));
        proof {
            assert(bytes@.take(i + 1).drop_last() =~= bytes@.take(i as int));
            assert(bytes@.take(i + 1).last() == byte);
            reveal_with_fuel(hex_text, 3);
            assert((byte as nat / 16) % 16 == byte as nat / 16);
            assert(hex_text(byte as nat, 2) =~= seq![
                crate::text::hex_digit(byte as nat / 16),
                crate::text::hex_digit(byte as nat % 16),
            ]);
            assert(text@ =~= before + hex_text(byte as nat, 2));
        }
        i += 1;
    }
    proof {
        assert(bytes@.take(i as int) =~= bytes@);
    }
    text
}

/// The label of a participant: the digest of their key, in hexadecimal.
pub open spec fn participant_label(pubkey: Seq<char>) -> Seq<char> {
    hex_of(sha256(encode_utf8(pubkey)))
}

/// The label of a participant.
pub fn participant_label_hex(pubkey: &str) -> (label: String)
    ensures
        label@ == participant_label(pubkey@),
        label@.len() == 64,
{
    let hash = digest(pubkey.as_bytes());
    proof {
        lemma_hex_length(hash@);
    }
    bytes_to_hex(&hash)
}

/// Every byte takes two digits.
pub proof fn lemma_hex_length(bytes: Seq<u8>)
    ensures
        hex_of(bytes).len() == 2 * bytes.len(),
    decreases bytes.len(),
{
    if bytes.len() > 0 {
        lemma_hex_length(bytes.drop_last());
        reveal_with_fuel(hex_text, 3);
    }
}

/// A result about a track, as a model.
pub open spec fn track_model(result: Result<TrackAddress, VoiceMediaError>) -> Result<
    TrackAddressModel,
    VoiceMediaErrorModel,
> {
    match result {
        Ok(track) => Ok(track@),
        Err(error) => Err(error@),
    }
}

/// Where the audio of a participant is, given the path of their broadcast, or why
/// there is none, and the name of audio tracks.
pub fn audio_track_for_participant(path: Result<String, String>, audio_track_name: String) -> (result:
    Result<TrackAddress, VoiceMediaError>)
    ensures
        track_model(result) == match path {
            Ok(p) => Ok::<TrackAddressModel, VoiceMediaErrorModel>(
                TrackAddressModel { broadcast_path: p@, track_name: audio_track_name@ },
            ),
            Err(e) => Err::<TrackAddressModel, VoiceMediaErrorModel>(
                VoiceMediaErrorModel::Path(e@),
            ),
        },
{
    match path {
        Ok(broadcast_path) => Ok(TrackAddress { broadcast_path, track_name: audio_track_name }),
        Err(error) => Err(VoiceMediaError::Path(error)),
    }
}

/// A frame of audio: each can be played without those before it.
pub fn audio_frame(seq: u64, timestamp_us: u64, payload: Vec<u8>) -> (frame: MediaFrame)
    ensures
        frame@.seq == seq,
        frame@.timestamp_us == timestamp_us,
        frame@.keyframe,
        frame@.payload == payload.deep_view(),
{
    MediaFrame { seq, timestamp_us, keyframe: true, payload }
}

} // verus!
