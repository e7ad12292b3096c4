use hlmv::pages::{render_player, render_player_byid};

#[test]
fn player_by_id_fills_every_route() {
    let t = "id={{MEDIA_ID}} s={{STREAM_PATH}} m={{MEDIA_PATH}} i={{INFO_PATH}} u={{INFO_UPLOAD_PATH}}";
    assert_eq!(
        render_player_byid(t, 42),
        "id=42 s=/stream-byid/42 m=42 i=/info-byid/42 u=/info-upload-byid/42"
    );
}

#[test]
fn player_by_id_negative_and_repeated_marks() {
    let t = "{{MEDIA_ID}}/{{MEDIA_ID}}";
    assert_eq!(render_player_byid(t, -1), "-1/-1");
}

#[test]
fn player_by_path() {
    let t = "<video src=\"/stream/{{PATH}}\"></video>";
    assert_eq!(render_player(t, Some("a/b.mp4")), "<video src=\"/stream/a/b.mp4\"></video>");
    assert_eq!(render_player(t, None), "<video src=\"/stream/\"></video>");
}
