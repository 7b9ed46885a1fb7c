use speck::events::translate;
use speck::events::PlayerEvent;
use speck::events::SpeckPlayerEvent;
use speck::ids::TrackId;

const ID_TEXT: &str = "4uLU6hMCjMI75M1A2tKUQC";

fn id() -> TrackId {
    TrackId::from_base62(ID_TEXT).unwrap().as_track()
}

#[test]
fn translates_stopped() {
    assert_eq!(
        translate(PlayerEvent::Stopped { play_request_id: 1, track_id: id() }),
        SpeckPlayerEvent::Stopped { play_request_id: 1, track_id: ID_TEXT.to_string() }
    );
}

#[test]
fn translates_loading() {
    assert_eq!(
        translate(PlayerEvent::Loading { play_request_id: 2, track_id: id(), position_ms: 30 }),
        SpeckPlayerEvent::Loading {
            play_request_id: 2,
            track_id: ID_TEXT.to_string(),
            position_ms: 30,
        }
    );
}

#[test]
fn translates_preloading() {
    assert_eq!(
        translate(PlayerEvent::Preloading { track_id: id() }),
        SpeckPlayerEvent::Preloading { track_id: ID_TEXT.to_string() }
    );
}

#[test]
fn translates_playing() {
    assert_eq!(
        translate(PlayerEvent::Playing { play_request_id: 3, track_id: id(), position_ms: 40 }),
        SpeckPlayerEvent::Playing {
            play_request_id: 3,
            track_id: ID_TEXT.to_string(),
            position_ms: 40,
        }
    );
}

#[test]
fn translates_paused() {
    assert_eq!(
        translate(PlayerEvent::Paused { play_request_id: 4, track_id: id(), position_ms: 50 }),
        SpeckPlayerEvent::Paused {
            play_request_id: 4,
            track_id: ID_TEXT.to_string(),
            position_ms: 50,
        }
    );
}

#[test]
fn translates_time_to_preload_next_track() {
    assert_eq!(
        translate(PlayerEvent::TimeToPreloadNextTrack { play_request_id: 5, track_id: id() }),
        SpeckPlayerEvent::TimeToPreloadNextTrack {
            play_request_id: 5,
            track_id: ID_TEXT.to_string(),
        }
    );
}

#[test]
fn translates_end_of_track() {
    assert_eq!(
        translate(PlayerEvent::EndOfTrack { play_request_id: 6, track_id: id() }),
        SpeckPlayerEvent::EndOfTrack { play_request_id: 6, track_id: ID_TEXT.to_string() }
    );
}

#[test]
fn translates_unavailable() {
    assert_eq!(
        translate(PlayerEvent::Unavailable { play_request_id: 7, track_id: id() }),
        SpeckPlayerEvent::Unavailable { play_request_id: 7, track_id: ID_TEXT.to_string() }
    );
}

#[test]
fn translates_volume_changed() {
    assert_eq!(
        translate(PlayerEvent::VolumeChanged { volume: 11 }),
        SpeckPlayerEvent::VolumeChanged { volume: 11 }
    );
}

#[test]
fn translates_position_correction() {
    assert_eq!(
        translate(PlayerEvent::PositionCorrection {
            play_request_id: 8,
            track_id: id(),
            position_ms: 60,
        }),
        SpeckPlayerEvent::PositionCorrection {
            play_request_id: 8,
            track_id: ID_TEXT.to_string(),
            position_ms: 60,
        }
    );
}

#[test]
fn translates_seeked() {
    assert_eq!(
        translate(PlayerEvent::Seeked { play_request_id: 9, track_id: id(), position_ms: 70 }),
        SpeckPlayerEvent::Seeked {
            play_request_id: 9,
            track_id: ID_TEXT.to_string(),
            position_ms: 70,
        }
    );
}

#[test]
fn translates_track_changed() {
    assert_eq!(
        translate(PlayerEvent::TrackChanged { track_id: id(), duration_ms: 180_000 }),
        SpeckPlayerEvent::TrackChanged {
            track_id: ID_TEXT.to_string(),
            duration_ms: 180_000,
        }
    );
}

#[test]
fn translates_session_connected() {
    assert_eq!(
        translate(PlayerEvent::SessionConnected {
            connection_id: "conn-1".to_string(),
            user_name: "alice".to_string(),
        }),
        SpeckPlayerEvent::SessionConnected {
            connection_id: "conn-1".to_string(),
            user_name: "alice".to_string(),
        }
    );
}

#[test]
fn translates_session_disconnected() {
    assert_eq!(
        translate(PlayerEvent::SessionDisconnected {
            connection_id: "conn-1".to_string(),
            user_name: "alice".to_string(),
        }),
        SpeckPlayerEvent::SessionDisconnected {
            connection_id: "conn-1".to_string(),
            user_name: "alice".to_string(),
        }
    );
}

#[test]
fn translates_session_client_changed() {
    assert_eq!(
        translate(PlayerEvent::SessionClientChanged {
            client_id: "cid".to_string(),
            client_name: "cname".to_string(),
            client_brand_name: "cbrand".to_string(),
            client_model_name: "cmodel".to_string(),
        }),
        SpeckPlayerEvent::SessionClientChanged {
            client_id: "cid".to_string(),
            client_name: "cname".to_string(),
            client_brand_name: "cbrand".to_string(),
            client_model_name: "cmodel".to_string(),
        }
    );
}

#[test]
fn translates_shuffle_changed() {
    assert_eq!(
        translate(PlayerEvent::ShuffleChanged { shuffle: true }),
        SpeckPlayerEvent::ShuffleChanged { shuffle: true }
    );
}

#[test]
fn translates_repeat_changed() {
    assert_eq!(
        translate(PlayerEvent::RepeatChanged { repeat: false }),
        SpeckPlayerEvent::RepeatChanged { enable_repeat: false }
    );
}

#[test]
fn translates_auto_play_changed() {
    assert_eq!(
        translate(PlayerEvent::AutoPlayChanged { auto_play: true }),
        SpeckPlayerEvent::AutoPlayChanged { auto_play: true }
    );
}

#[test]
fn translates_filter_explicit_content_changed() {
    assert_eq!(
        translate(PlayerEvent::FilterExplicitContentChanged { filter: true }),
        SpeckPlayerEvent::FilterExplicitContentChanged { filter: true }
    );
}

#[test]
fn translation_encodes_every_raw_id() {
    // An id whose textual form is not the one the host sent: translation
    // re-encodes the raw value, it does not echo input text.
    let raw = TrackId::from_base62("0000000000000000000001").unwrap().as_track();
    assert_eq!(
        translate(PlayerEvent::Preloading { track_id: raw }),
        SpeckPlayerEvent::Preloading { track_id: "0000000000000000000001".to_string() }
    );
}
