use media_sink::snapshot::{make_snapshot, MediaSnapshot, SessionInfo};
use media_sink::json::encode_frame;

fn info(source_id: &str, song: &str) -> SessionInfo {
    SessionInfo {
        source_id: String::from(source_id),
        song_name: String::from(song),
        artist: String::from("Artist"),
        album: String::from("Album"),
        start_time: 0,
        end_time: 215000,
        position: 1234,
        playing: true,
    }
}

#[test]
fn empty_frame_is_empty_array() {
    let snaps: Vec<MediaSnapshot> = Vec::new();
    assert_eq!(encode_frame(&snaps), "[]");
}

#[test]
fn one_snapshot_exact_frame() {
    let snap = make_snapshot(info("app.music", "Tune"), true, vec![1, 2, 255]);
    let frame = encode_frame(&vec![snap]);
    assert_eq!(
        frame,
        "[{\"source_id\":\"app.music\",\"song_name\":\"Tune\",\"artist\":\"Artist\",\
         \"album\":\"Album\",\"start_time\":0,\"end_time\":215000,\"position\":1234,\
         \"playing\":true,\"artwork\":[1,2,255],\"artwork_changed\":true}]"
    );
}

#[test]
fn unchanged_artwork_is_dropped_even_if_handed_in() {
    let snap = make_snapshot(info("a", "Tune"), false, vec![9, 9, 9]);
    let frame = encode_frame(&vec![snap]);
    assert!(frame.contains("\"artwork\":[]"));
    assert!(frame.contains("\"artwork_changed\":false"));
}

#[test]
fn two_snapshots_are_comma_separated() {
    let s1 = make_snapshot(info("a", "One"), true, vec![7]);
    let s2 = make_snapshot(info("b", "Two"), false, Vec::new());
    let frame = encode_frame(&vec![s1, s2]);
    assert!(frame.starts_with("[{\"source_id\":\"a\""));
    assert!(frame.contains("},{\"source_id\":\"b\""));
    assert!(frame.ends_with("}]"));
}

#[test]
fn strings_are_json_escaped() {
    let snap = make_snapshot(info("a", "A\"B\\C\nD\tE\u{1}"), false, Vec::new());
    let frame = encode_frame(&vec![snap]);
    assert!(frame.contains("\"song_name\":\"A\\\"B\\\\C\\nD\\tE\\u0001\""));
}

#[test]
fn largest_timeline_values_encode_exactly() {
    let mut i = info("a", "Tune");
    i.start_time = u64::MAX;
    i.end_time = 10;
    i.position = 100000;
    let snap = make_snapshot(i, false, Vec::new());
    let frame = encode_frame(&vec![snap]);
    assert!(frame.contains("\"start_time\":18446744073709551615"));
    assert!(frame.contains("\"end_time\":10"));
    assert!(frame.contains("\"position\":100000"));
}

#[test]
fn frame_parses_as_json_with_expected_fields() {
    let snap = make_snapshot(info("app.music", "So \"long\"\n"), true, vec![0, 128, 255]);
    let frame = encode_frame(&vec![snap]);
    let parsed: serde_json::Value = serde_json::from_str(&frame).unwrap();
    let arr = parsed.as_array().unwrap();
    assert_eq!(arr.len(), 1);
    let obj = &arr[0];
    assert_eq!(obj["source_id"], serde_json::Value::String(String::from("app.music")));
    assert_eq!(obj["song_name"], serde_json::Value::String(String::from("So \"long\"\n")));
    assert_eq!(obj["start_time"].as_u64().unwrap(), 0);
    assert_eq!(obj["end_time"].as_u64().unwrap(), 215000);
    assert_eq!(obj["playing"].as_bool().unwrap(), true);
    assert_eq!(obj["artwork_changed"].as_bool().unwrap(), true);
    let art: Vec<u64> = obj["artwork"]
        .as_array()
        .unwrap()
        .iter()
        .map(|v| v.as_u64().unwrap())
        .collect();
    assert_eq!(art, vec![0, 128, 255]);
}
