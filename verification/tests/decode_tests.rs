use ncspot_controller::decode::{decode_line, DecodeError};
use ncspot_controller::hook::{console_line, invocation_for_event};
use ncspot_controller::ncspot_event::Mode;
use ncspot_controller::state::mode_to_state_string;

#[test]
fn stopped_line_decodes_and_prints() {
    let event = decode_line(r#"{"mode":"Stopped","playable":null}"#).unwrap();
    assert!(matches!(&event.mode, Mode::Simple(s) if s == "Stopped"));
    assert!(event.playable.is_none());
    let inv = invocation_for_event(&event);
    assert_eq!(console_line(&inv), "stopped|||");
}

#[test]
fn paused_line_decodes_and_prints() {
    let line = r#"{"mode":{"Paused":{"secs":125,"nanos":0}},"playable":{"title":"X","album":"Y","artists":["A","B"]}}"#;
    let event = decode_line(line).unwrap();
    match &event.mode {
        Mode::Paused { paused } => {
            assert_eq!(paused.secs, 125);
            assert_eq!(paused.nanos, 0);
        },
        other => panic!("wrong mode: {:?}", other),
    }
    let playable = event.playable.as_ref().unwrap();
    assert_eq!(playable.title, "X");
    assert_eq!(playable.album, "Y");
    assert_eq!(playable.artists, vec!["A".to_string(), "B".to_string()]);
    let inv = invocation_for_event(&event);
    assert_eq!(console_line(&inv), "paused|A, B|X|Y");
}

#[test]
fn playing_shape_decodes_to_playing_variant() {
    let line = r#"{"mode":{"Playing":{"secs_since_epoch":100,"nanos_since_epoch":5}},"playable":null}"#;
    let event = decode_line(line).unwrap();
    match &event.mode {
        Mode::Playing { playing } => {
            assert_eq!(playing.secs_since_epoch, 100);
            assert_eq!(playing.nanos_since_epoch, 5);
        },
        other => panic!("playing shape fell through: {:?}", other),
    }
}

#[test]
fn decoding_twice_gives_the_same_event() {
    let line = r#"{"mode":{"Paused":{"secs":1,"nanos":2}},"playable":{"title":"T","album":"L","artists":["A"]}}"#;
    assert_eq!(decode_line(line).unwrap(), decode_line(line).unwrap());
}

#[test]
fn non_json_line_is_not_json() {
    assert_eq!(decode_line("not json at all").unwrap_err(), DecodeError::NotJson);
    assert_eq!(decode_line("").unwrap_err(), DecodeError::NotJson);
}

#[test]
fn wrong_shapes_are_bad_shape() {
    // mode of the wrong type
    assert_eq!(
        decode_line(r#"{"mode":true,"playable":null}"#).unwrap_err(),
        DecodeError::BadShape
    );
    // mode missing
    assert_eq!(decode_line(r#"{"playable":null}"#).unwrap_err(), DecodeError::BadShape);
    // mode object with neither Playing nor Paused
    assert_eq!(
        decode_line(r#"{"mode":{"Loading":1},"playable":null}"#).unwrap_err(),
        DecodeError::BadShape
    );
    // Playing present but not timestamp-shaped, no fallback applies
    assert_eq!(
        decode_line(r#"{"mode":{"Playing":"soon"},"playable":null}"#).unwrap_err(),
        DecodeError::BadShape
    );
    // playable of the wrong type
    assert_eq!(
        decode_line(r#"{"mode":"Stopped","playable":7}"#).unwrap_err(),
        DecodeError::BadShape
    );
    // top level not an object
    assert_eq!(decode_line(r#"["Stopped"]"#).unwrap_err(), DecodeError::BadShape);
}

#[test]
fn numbers_out_of_range_are_bad_shape() {
    let line = r#"{"mode":"Stopped","playable":{"title":"T","album":"L","artists":[],"track_number":5000000000}}"#;
    assert_eq!(decode_line(line).unwrap_err(), DecodeError::BadShape);
    let negative = r#"{"mode":{"Paused":{"secs":-1,"nanos":0}},"playable":null}"#;
    assert_eq!(decode_line(negative).unwrap_err(), DecodeError::BadShape);
}

#[test]
fn full_track_descriptor_is_carried_through() {
    let line = r#"{"mode":{"Playing":{"secs_since_epoch":7,"nanos_since_epoch":0}},"playable":{"type":"Track","id":"id1","uri":"spotify:track:id1","title":"Song","track_number":3,"disc_number":1,"duration":215000,"artists":["A1","A2"],"artist_ids":["x","y"],"album":"Alb","album_id":"alb1","album_artists":["A1"],"cover_url":"http://c","url":"http://u","added_at":"2021-01-01","list_index":9,"is_local":false,"is_playable":true}}"#;
    let event = decode_line(line).unwrap();
    let p = event.playable.as_ref().unwrap();
    assert_eq!(p.playable_type, "Track");
    assert_eq!(p.id, "id1");
    assert_eq!(p.uri, "spotify:track:id1");
    assert_eq!(p.title, "Song");
    assert_eq!(p.track_number, 3);
    assert_eq!(p.disc_number, 1);
    assert_eq!(p.duration, 215000);
    assert_eq!(p.artists, vec!["A1".to_string(), "A2".to_string()]);
    assert_eq!(p.artist_ids, vec!["x".to_string(), "y".to_string()]);
    assert_eq!(p.album, "Alb");
    assert_eq!(p.album_id, "alb1");
    assert_eq!(p.album_artists, vec!["A1".to_string()]);
    assert_eq!(p.cover_url, "http://c");
    assert_eq!(p.url, "http://u");
    assert_eq!(p.added_at.as_deref(), Some("2021-01-01"));
    assert_eq!(p.list_index, 9);
    assert!(!p.is_local);
    assert!(p.is_playable);
}

#[test]
fn absent_metadata_fields_default() {
    let line = r#"{"mode":"Stopped","playable":{"title":"T","album":"L","artists":[]}}"#;
    let event = decode_line(line).unwrap();
    let p = event.playable.as_ref().unwrap();
    assert_eq!(p.playable_type, "");
    assert_eq!(p.duration, 0);
    assert_eq!(p.track_number, 0);
    assert!(p.artist_ids.is_empty());
    assert!(p.album_artists.is_empty());
    assert_eq!(p.added_at, None);
    assert!(!p.is_local);
    assert!(!p.is_playable);
}

#[test]
fn added_at_null_reads_as_none() {
    let line = r#"{"mode":"Stopped","playable":{"title":"T","album":"L","artists":[],"added_at":null}}"#;
    let event = decode_line(line).unwrap();
    assert_eq!(event.playable.as_ref().unwrap().added_at, None);
}

#[test]
fn missing_required_track_fields_are_bad_shape() {
    let line = r#"{"mode":"Stopped","playable":{"album":"L","artists":[]}}"#;
    assert_eq!(decode_line(line).unwrap_err(), DecodeError::BadShape);
}

#[test]
fn unknown_simple_states_normalize_to_unknown() {
    for name in ["Loading", "Buffering", "stopped", "STOPPED", ""] {
        let line = format!("{{\"mode\":{:?},\"playable\":null}}", name);
        let event = decode_line(&line).unwrap();
        assert!(matches!(&event.mode, Mode::Simple(s) if s == name));
        assert_eq!(mode_to_state_string(&event.mode), "unknown");
    }
}

#[test]
fn recognized_simple_states_normalize() {
    let stopped = decode_line(r#"{"mode":"Stopped","playable":null}"#).unwrap();
    assert_eq!(mode_to_state_string(&stopped.mode), "stopped");
    let finished = decode_line(r#"{"mode":"FinishedTrack","playable":null}"#).unwrap();
    assert_eq!(mode_to_state_string(&finished.mode), "finished");
}
