//! The engine's event vocabulary and its translation into the frozen
//! cross-boundary representation.
//!
//! Translation is a total map over the closed variant set: every engine event
//! has exactly one bridge form, the request-correlation id is carried over
//! verbatim, and each track identifier is re-encoded to its fixed-width
//! textual form (always representable for a 128-bit id, so translation never
//! fails).

use vstd::prelude::*;
use crate::base62::b62_encode;
use crate::base62::lemma_encode_injective;
use crate::base62::encode_base62;
use crate::base62::BASE62_WIDTH;
use crate::ids::TrackId;

verus! {

/// An event as the playback engine reports it.
#[derive(Debug, PartialEq, Eq)]
pub enum PlayerEvent {
    Stopped { play_request_id: u64, track_id: TrackId },
    Loading { play_request_id: u64, track_id: TrackId, position_ms: u32 },
    Preloading { track_id: TrackId },
    Playing { play_request_id: u64, track_id: TrackId, position_ms: u32 },
    Paused { play_request_id: u64, track_id: TrackId, position_ms: u32 },
    TimeToPreloadNextTrack { play_request_id: u64, track_id: TrackId },
    EndOfTrack { play_request_id: u64, track_id: TrackId },
    Unavailable { play_request_id: u64, track_id: TrackId },
    VolumeChanged { volume: u16 },
    PositionCorrection { play_request_id: u64, track_id: TrackId, position_ms: u32 },
    Seeked { play_request_id: u64, track_id: TrackId, position_ms: u32 },
    TrackChanged { track_id: TrackId, duration_ms: u32 },
    SessionConnected { connection_id: String, user_name: String },
    SessionDisconnected { connection_id: String, user_name: String },
    SessionClientChanged {
        client_id: String,
        client_name: String,
        client_brand_name: String,
        client_model_name: String,
    },
    ShuffleChanged { shuffle: bool },
    RepeatChanged { repeat: bool },
    AutoPlayChanged { auto_play: bool },
    FilterExplicitContentChanged { filter: bool },
}

/// An event in the frozen cross-boundary form: track identifiers appear in
/// their textual base-62 form.
#[derive(Debug, PartialEq, Eq)]
pub enum SpeckPlayerEvent {
    Stopped { play_request_id: u64, track_id: String },
    Loading { play_request_id: u64, track_id: String, position_ms: u32 },
    Preloading { track_id: String },
    Playing { play_request_id: u64, track_id: String, position_ms: u32 },
    Paused { play_request_id: u64, track_id: String, position_ms: u32 },
    TimeToPreloadNextTrack { play_request_id: u64, track_id: String },
    EndOfTrack { play_request_id: u64, track_id: String },
    Unavailable { play_request_id: u64, track_id: String },
    VolumeChanged { volume: u16 },
    PositionCorrection { play_request_id: u64, track_id: String, position_ms: u32 },
    Seeked { play_request_id: u64, track_id: String, position_ms: u32 },
    TrackChanged { track_id: String, duration_ms: u32 },
    SessionConnected { connection_id: String, user_name: String },
    SessionDisconnected { connection_id: String, user_name: String },
    SessionClientChanged {
        client_id: String,
        client_name: String,
        client_brand_name: String,
        client_model_name: String,
    },
    ShuffleChanged { shuffle: bool },
    RepeatChanged { enable_repeat: bool },
    AutoPlayChanged { auto_play: bool },
    FilterExplicitContentChanged { filter: bool },
}

/// Mathematical form of a bridge event: strings as character sequences.
pub enum BridgeEventModel {
    Stopped { play_request_id: u64, track_id: Seq<char> },
    Loading { play_request_id: u64, track_id: Seq<char>, position_ms: u32 },
    Preloading { track_id: Seq<char> },
    Playing { play_request_id: u64, track_id: Seq<char>, position_ms: u32 },
    Paused { play_request_id: u64, track_id: Seq<char>, position_ms: u32 },
    TimeToPreloadNextTrack { play_request_id: u64, track_id: Seq<char> },
    EndOfTrack { play_request_id: u64, track_id: Seq<char> },
    Unavailable { play_request_id: u64, track_id: Seq<char> },
    VolumeChanged { volume: u16 },
    PositionCorrection { play_request_id: u64, track_id: Seq<char>, position_ms: u32 },
    Seeked { play_request_id: u64, track_id: Seq<char>, position_ms: u32 },
    TrackChanged { track_id: Seq<char>, duration_ms: u32 },
    SessionConnected { connection_id: Seq<char>, user_name: Seq<char> },
    SessionDisconnected { connection_id: Seq<char>, user_name: Seq<char> },
    SessionClientChanged {
        client_id: Seq<char>,
        client_name: Seq<char>,
        client_brand_name: Seq<char>,
        client_model_name: Seq<char>,
    },
    ShuffleChanged { shuffle: bool },
    RepeatChanged { enable_repeat: bool },
    AutoPlayChanged { auto_play: bool },
    FilterExplicitContentChanged { filter: bool },
}

impl View for SpeckPlayerEvent {
    type V = BridgeEventModel;

    open spec fn view(&self) -> BridgeEventModel {
        match self {
            SpeckPlayerEvent::Stopped { play_request_id, track_id } =>
                BridgeEventModel::Stopped {
                    play_request_id: *play_request_id,
                    track_id: track_id@,
                },
            SpeckPlayerEvent::Loading { play_request_id, track_id, position_ms } =>
                BridgeEventModel::Loading {
                    play_request_id: *play_request_id,
                    track_id: track_id@,
                    position_ms: *position_ms,
                },
            SpeckPlayerEvent::Preloading { track_id } =>
                BridgeEventModel::Preloading { track_id: track_id@ },
            SpeckPlayerEvent::Playing { play_request_id, track_id, position_ms } =>
                BridgeEventModel::Playing {
                    play_request_id: *play_request_id,
                    track_id: track_id@,
                    position_ms: *position_ms,
                },
            SpeckPlayerEvent::Paused { play_request_id, track_id, position_ms } =>
                BridgeEventModel::Paused {
                    play_request_id: *play_request_id,
                    track_id: track_id@,
                    position_ms: *position_ms,
                },
            SpeckPlayerEvent::TimeToPreloadNextTrack { play_request_id, track_id } =>
                BridgeEventModel::TimeToPreloadNextTrack {
                    play_request_id: *play_request_id,
                    track_id: track_id@,
                },
            SpeckPlayerEvent::EndOfTrack { play_request_id, track_id } =>
                BridgeEventModel::EndOfTrack {
                    play_request_id: *play_request_id,
                    track_id: track_id@,
                },
            SpeckPlayerEvent::Unavailable { play_request_id, track_id } =>
                BridgeEventModel::Unavailable {
                    play_request_id: *play_request_id,
                    track_id: track_id@,
                },
            SpeckPlayerEvent::VolumeChanged { volume } =>
                BridgeEventModel::VolumeChanged { volume: *volume },
            SpeckPlayerEvent::PositionCorrection { play_request_id, track_id, position_ms } =>
                BridgeEventModel::PositionCorrection {
                    play_request_id: *play_request_id,
                    track_id: track_id@,
                    position_ms: *position_ms,
                },
            SpeckPlayerEvent::Seeked { play_request_id, track_id, position_ms } =>
                BridgeEventModel::Seeked {
                    play_request_id: *play_request_id,
                    track_id: track_id@,
                    position_ms: *position_ms,
                },
            SpeckPlayerEvent::TrackChanged { track_id, duration_ms } =>
                BridgeEventModel::TrackChanged {
                    track_id: track_id@,
                    duration_ms: *duration_ms,
                },
            SpeckPlayerEvent::SessionConnected { connection_id, user_name } =>
                BridgeEventModel::SessionConnected {
                    connection_id: connection_id@,
                    user_name: user_name@,
                },
            SpeckPlayerEvent::SessionDisconnected { connection_id, user_name } =>
                BridgeEventModel::SessionDisconnected {
                    connection_id: connection_id@,
                    user_name: user_name@,
                },
            SpeckPlayerEvent::SessionClientChanged {
                client_id,
                client_name,
                client_brand_name,
                client_model_name,
            } => BridgeEventModel::SessionClientChanged {
                client_id: client_id@,
                client_name: client_name@,
                client_brand_name: client_brand_name@,
                client_model_name: client_model_name@,
            },
            SpeckPlayerEvent::ShuffleChanged { shuffle } =>
                BridgeEventModel::ShuffleChanged { shuffle: *shuffle },
            SpeckPlayerEvent::RepeatChanged { enable_repeat } =>
                BridgeEventModel::RepeatChanged { enable_repeat: *enable_repeat },
            SpeckPlayerEvent::AutoPlayChanged { auto_play } =>
                BridgeEventModel::AutoPlayChanged { auto_play: *auto_play },
            SpeckPlayerEvent::FilterExplicitContentChanged { filter } =>
                BridgeEventModel::FilterExplicitContentChanged { filter: *filter },
        }
    }
}

/// The textual form a raw track id takes in a translated event.
pub open spec fn encoded_id(t: TrackId) -> Seq<char> {
    b62_encode(t.id as int, BASE62_WIDTH as nat)
}

/// The one bridge form of an engine event: a total map over the variant set.
pub open spec fn spec_translate(e: PlayerEvent) -> BridgeEventModel {
    match e {
        PlayerEvent::Stopped { play_request_id, track_id } =>
            BridgeEventModel::Stopped { play_request_id, track_id: encoded_id(track_id) },
        PlayerEvent::Loading { play_request_id, track_id, position_ms } =>
            BridgeEventModel::Loading {
                play_request_id,
                track_id: encoded_id(track_id),
                position_ms,
            },
        PlayerEvent::Preloading { track_id } =>
            BridgeEventModel::Preloading { track_id: encoded_id(track_id) },
        PlayerEvent::Playing { play_request_id, track_id, position_ms } =>
            BridgeEventModel::Playing {
                play_request_id,
                track_id: encoded_id(track_id),
                position_ms,
            },
        PlayerEvent::Paused { play_request_id, track_id, position_ms } =>
            BridgeEventModel::Paused {
                play_request_id,
                track_id: encoded_id(track_id),
                position_ms,
            },
        PlayerEvent::TimeToPreloadNextTrack { play_request_id, track_id } =>
            BridgeEventModel::TimeToPreloadNextTrack {
                play_request_id,
                track_id: encoded_id(track_id),
            },
        PlayerEvent::EndOfTrack { play_request_id, track_id } =>
            BridgeEventModel::EndOfTrack { play_request_id, track_id: encoded_id(track_id) },
        PlayerEvent::Unavailable { play_request_id, track_id } =>
            BridgeEventModel::Unavailable { play_request_id, track_id: encoded_id(track_id) },
        PlayerEvent::VolumeChanged { volume } => BridgeEventModel::VolumeChanged { volume },
        PlayerEvent::PositionCorrection { play_request_id, track_id, position_ms } =>
            BridgeEventModel::PositionCorrection {
                play_request_id,
                track_id: encoded_id(track_id),
                position_ms,
            },
        PlayerEvent::Seeked { play_request_id, track_id, position_ms } =>
            BridgeEventModel::Seeked {
                play_request_id,
                track_id: encoded_id(track_id),
                position_ms,
            },
        PlayerEvent::TrackChanged { track_id, duration_ms } =>
            BridgeEventModel::TrackChanged { track_id: encoded_id(track_id), duration_ms },
        PlayerEvent::SessionConnected { connection_id, user_name } =>
            BridgeEventModel::SessionConnected {
                connection_id: connection_id@,
                user_name: user_name@,
            },
        PlayerEvent::SessionDisconnected { connection_id, user_name } =>
            BridgeEventModel::SessionDisconnected {
                connection_id: connection_id@,
                user_name: user_name@,
            },
        PlayerEvent::SessionClientChanged {
            client_id,
            client_name,
            client_brand_name,
            client_model_name,
        } => BridgeEventModel::SessionClientChanged {
            client_id: client_id@,
            client_name: client_name@,
            client_brand_name: client_brand_name@,
            client_model_name: client_model_name@,
        },
        PlayerEvent::ShuffleChanged { shuffle } => BridgeEventModel::ShuffleChanged { shuffle },
        PlayerEvent::RepeatChanged { repeat } =>
            BridgeEventModel::RepeatChanged { enable_repeat: repeat },
        PlayerEvent::AutoPlayChanged { auto_play } =>
            BridgeEventModel::AutoPlayChanged { auto_play },
        PlayerEvent::FilterExplicitContentChanged { filter } =>
            BridgeEventModel::FilterExplicitContentChanged { filter },
    }
}

/// Map an engine event to its bridge form. Total: every variant of the closed
/// set has exactly one image, and a 128-bit id always has a textual form, so
/// no input makes translation fail.
pub fn translate(e: PlayerEvent) -> (r: SpeckPlayerEvent)
    ensures
        r@ == spec_translate(e),
{
    match e {
        PlayerEvent::Stopped { play_request_id, track_id } => SpeckPlayerEvent::Stopped {
            play_request_id,
            track_id: encode_base62(track_id.id),
        },
        PlayerEvent::Loading { play_request_id, track_id, position_ms } =>
            SpeckPlayerEvent::Loading {
                play_request_id,
                track_id: encode_base62(track_id.id),
                position_ms,
            },
        PlayerEvent::Preloading { track_id } => SpeckPlayerEvent::Preloading {
            track_id: encode_base62(track_id.id),
        },
        PlayerEvent::Playing { play_request_id, track_id, position_ms } =>
            SpeckPlayerEvent::Playing {
                play_request_id,
                track_id: encode_base62(track_id.id),
                position_ms,
            },
        PlayerEvent::Paused { play_request_id, track_id, position_ms } =>
            SpeckPlayerEvent::Paused {
                play_request_id,
                track_id: encode_base62(track_id.id),
                position_ms,
            },
        PlayerEvent::TimeToPreloadNextTrack { play_request_id, track_id } =>
            SpeckPlayerEvent::TimeToPreloadNextTrack {
                play_request_id,
                track_id: encode_base62(track_id.id),
            },
        PlayerEvent::EndOfTrack { play_request_id, track_id } => SpeckPlayerEvent::EndOfTrack {
            play_request_id,
            track_id: encode_base62(track_id.id),
        },
        PlayerEvent::Unavailable { play_request_id, track_id } => SpeckPlayerEvent::Unavailable {
            play_request_id,
            track_id: encode_base62(track_id.id),
        },
        PlayerEvent::VolumeChanged { volume } => SpeckPlayerEvent::VolumeChanged { volume },
        PlayerEvent::PositionCorrection { play_request_id, track_id, position_ms } =>
            SpeckPlayerEvent::PositionCorrection {
                play_request_id,
                track_id: encode_base62(track_id.id),
                position_ms,
            },
        PlayerEvent::Seeked { play_request_id, track_id, position_ms } =>
            SpeckPlayerEvent::Seeked {
                play_request_id,
                track_id: encode_base62(track_id.id),
                position_ms,
            },
        PlayerEvent::TrackChanged { track_id, duration_ms } => SpeckPlayerEvent::TrackChanged {
            track_id: encode_base62(track_id.id),
            duration_ms,
        },
        PlayerEvent::SessionConnected { connection_id, user_name } =>
            SpeckPlayerEvent::SessionConnected { connection_id, user_name },
        PlayerEvent::SessionDisconnected { connection_id, user_name } =>
            SpeckPlayerEvent::SessionDisconnected { connection_id, user_name },
        PlayerEvent::SessionClientChanged {
            client_id,
            client_name,
            client_brand_name,
            client_model_name,
        } => SpeckPlayerEvent::SessionClientChanged {
            client_id,
            client_name,
            client_brand_name,
            client_model_name,
        },
        PlayerEvent::ShuffleChanged { shuffle } => SpeckPlayerEvent::ShuffleChanged { shuffle },
        PlayerEvent::RepeatChanged { repeat } => SpeckPlayerEvent::RepeatChanged {
            enable_repeat: repeat,
        },
        PlayerEvent::AutoPlayChanged { auto_play } => SpeckPlayerEvent::AutoPlayChanged {
            auto_play,
        },
        PlayerEvent::FilterExplicitContentChanged { filter } =>
            SpeckPlayerEvent::FilterExplicitContentChanged { filter },
    }
}

/// Position of a variant within the closed engine vocabulary.
pub open spec fn event_tag(e: PlayerEvent) -> int {
    match e {
        PlayerEvent::Stopped { .. } => 0,
        PlayerEvent::Loading { .. } => 1,
        PlayerEvent::Preloading { .. } => 2,
        PlayerEvent::Playing { .. } => 3,
        PlayerEvent::Paused { .. } => 4,
        PlayerEvent::TimeToPreloadNextTrack { .. } => 5,
        PlayerEvent::EndOfTrack { .. } => 6,
        PlayerEvent::Unavailable { .. } => 7,
        PlayerEvent::VolumeChanged { .. } => 8,
        PlayerEvent::PositionCorrection { .. } => 9,
        PlayerEvent::Seeked { .. } => 10,
        PlayerEvent::TrackChanged { .. } => 11,
        PlayerEvent::SessionConnected { .. } => 12,
        PlayerEvent::SessionDisconnected { .. } => 13,
        PlayerEvent::SessionClientChanged { .. } => 14,
        PlayerEvent::ShuffleChanged { .. } => 15,
        PlayerEvent::RepeatChanged { .. } => 16,
        PlayerEvent::AutoPlayChanged { .. } => 17,
        PlayerEvent::FilterExplicitContentChanged { .. } => 18,
    }
}

/// Position of a variant within the frozen bridge vocabulary, numbered as the
/// engine vocabulary is.
pub open spec fn bridge_tag(b: BridgeEventModel) -> int {
    match b {
        BridgeEventModel::Stopped { .. } => 0,
        BridgeEventModel::Loading { .. } => 1,
        BridgeEventModel::Preloading { .. } => 2,
        BridgeEventModel::Playing { .. } => 3,
        BridgeEventModel::Paused { .. } => 4,
        BridgeEventModel::TimeToPreloadNextTrack { .. } => 5,
        BridgeEventModel::EndOfTrack { .. } => 6,
        BridgeEventModel::Unavailable { .. } => 7,
        BridgeEventModel::VolumeChanged { .. } => 8,
        BridgeEventModel::PositionCorrection { .. } => 9,
        BridgeEventModel::Seeked { .. } => 10,
        BridgeEventModel::TrackChanged { .. } => 11,
        BridgeEventModel::SessionConnected { .. } => 12,
        BridgeEventModel::SessionDisconnected { .. } => 13,
        BridgeEventModel::SessionClientChanged { .. } => 14,
        BridgeEventModel::ShuffleChanged { .. } => 15,
        BridgeEventModel::RepeatChanged { .. } => 16,
        BridgeEventModel::AutoPlayChanged { .. } => 17,
        BridgeEventModel::FilterExplicitContentChanged { .. } => 18,
    }
}

/// The request-correlation id an engine event carries, if any.
pub open spec fn request_id_of(e: PlayerEvent) -> Option<u64> {
    match e {
        PlayerEvent::Stopped { play_request_id, .. } => Some(play_request_id),
        PlayerEvent::Loading { play_request_id, .. } => Some(play_request_id),
        PlayerEvent::Playing { play_request_id, .. } => Some(play_request_id),
        PlayerEvent::Paused { play_request_id, .. } => Some(play_request_id),
        PlayerEvent::TimeToPreloadNextTrack { play_request_id, .. } => Some(play_request_id),
        PlayerEvent::EndOfTrack { play_request_id, .. } => Some(play_request_id),
        PlayerEvent::Unavailable { play_request_id, .. } => Some(play_request_id),
        PlayerEvent::PositionCorrection { play_request_id, .. } => Some(play_request_id),
        PlayerEvent::Seeked { play_request_id, .. } => Some(play_request_id),
        _ => None,
    }
}

/// The request-correlation id a bridge event carries, if any.
pub open spec fn bridge_request_id(b: BridgeEventModel) -> Option<u64> {
    match b {
        BridgeEventModel::Stopped { play_request_id, .. } => Some(play_request_id),
        BridgeEventModel::Loading { play_request_id, .. } => Some(play_request_id),
        BridgeEventModel::Playing { play_request_id, .. } => Some(play_request_id),
        BridgeEventModel::Paused { play_request_id, .. } => Some(play_request_id),
        BridgeEventModel::TimeToPreloadNextTrack { play_request_id, .. } => Some(play_request_id),
        BridgeEventModel::EndOfTrack { play_request_id, .. } => Some(play_request_id),
        BridgeEventModel::Unavailable { play_request_id, .. } => Some(play_request_id),
        BridgeEventModel::PositionCorrection { play_request_id, .. } => Some(play_request_id),
        BridgeEventModel::Seeked { play_request_id, .. } => Some(play_request_id),
        _ => None,
    }
}

/// Translation carries each variant to the bridge variant of the same
/// position: the map over the closed vocabulary is one-to-one on variants,
/// and it is total, being a function of every engine event.
pub proof fn lemma_translate_preserves_variant(a: PlayerEvent, b: PlayerEvent)
    ensures
        bridge_tag(spec_translate(a)) == event_tag(a),
        event_tag(a) != event_tag(b) ==> bridge_tag(spec_translate(a))
            != bridge_tag(spec_translate(b)),
{
}

/// Every translated event keeps the request-correlation id of the engine
/// event verbatim, so the host can match progress events to commands.
pub proof fn lemma_translate_preserves_request_id(e: PlayerEvent)
    ensures
        bridge_request_id(spec_translate(e)) == request_id_of(e),
{
}

/// The textual form in a translated event pins the raw identifier: no two
/// raw ids share it, so translation never conflates tracks.
pub proof fn lemma_encoded_id_faithful(a: TrackId, b: TrackId)
    requires
        encoded_id(a) == encoded_id(b),
    ensures
        a.id == b.id,
{
    lemma_encode_injective(a.id, b.id);
}

} // verus!
