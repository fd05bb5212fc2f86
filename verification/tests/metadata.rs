use ncmdump::{ErrorKind, Json, JsonNumber, NcmMetadata};

#[test]
fn test_parse_metadata() {
    let json = br#"{"musicName":"Test","album":"Album","artist":[["Artist1",0],["Artist2",1]],"bitrate":320000,"duration":240000,"format":"mp3"}"#;
    let meta = NcmMetadata::from_decrypted(json).unwrap();
    assert_eq!(meta.music_name, "Test");
    assert_eq!(meta.artist_names(), "Artist1 / Artist2");
}

#[test]
fn test_parse_with_music_prefix() {
    let mut data = b"music:".to_vec();
    data.extend_from_slice(br#"{"musicName":"X","album":"A","artist":[],"bitrate":128000,"duration":1000,"format":"flac"}"#);
    let meta = NcmMetadata::from_decrypted(&data).unwrap();
    assert_eq!(meta.music_name, "X");
}

#[test]
fn metadata_fields_are_read() {
    let json = br#"{"musicName":"Test","album":"Album","artist":[["Artist1",7],["Artist2",1]],"bitrate":320000,"duration":240000,"format":"mp3","extra":[1,2.5,-3]}"#;
    let meta = NcmMetadata::from_decrypted(json).unwrap();
    assert_eq!(meta.album, "Album");
    assert_eq!(meta.bitrate, 320000);
    assert_eq!(meta.duration, 240000);
    assert_eq!(meta.format, "mp3");
    assert_eq!(meta.artist.len(), 2);
    assert_eq!(meta.artist[0].len(), 2);
    assert_eq!(meta.artist[0][0].as_str(), Some("Artist1"));
    assert_eq!(meta.artist[0][1].as_u64(), Some(7));
}

#[test]
fn artist_names_skip_entries_without_a_name() {
    let json = br#"{"musicName":"T","album":"A","artist":[[1,"x"],["X",0],[],[null],["Y",1]],"bitrate":1,"duration":2,"format":"mp3"}"#;
    let meta = NcmMetadata::from_decrypted(json).unwrap();
    assert_eq!(meta.artist_names(), "X / Y");
}

#[test]
fn artist_names_of_no_artist() {
    let json = br#"{"musicName":"T","album":"A","artist":[],"bitrate":1,"duration":2,"format":"mp3"}"#;
    let meta = NcmMetadata::from_decrypted(json).unwrap();
    assert_eq!(meta.artist_names(), "");
}

#[test]
fn artist_names_of_one_artist() {
    let meta = NcmMetadata {
        music_name: "T".to_string(),
        album: "A".to_string(),
        artist: vec![vec![Json::String("Solo".to_string()), Json::Number(JsonNumber::PosInt(3))]],
        bitrate: 0,
        duration: 0,
        format: "flac".to_string(),
    };
    assert_eq!(meta.artist_names(), "Solo");
}

#[test]
fn malformed_json_is_a_json_error() {
    let err = NcmMetadata::from_decrypted(b"{\"musicName\":").unwrap_err();
    assert_eq!(err.kind(), ErrorKind::Json);
    let err = NcmMetadata::from_decrypted(b"").unwrap_err();
    assert_eq!(err.kind(), ErrorKind::Json);
}

#[test]
fn json_of_another_shape_is_a_json_error() {
    for text in [
        &br#"{"musicName":"T","album":"A","artist":[],"bitrate":1,"duration":2}"#[..],
        &br#"{"musicName":"T","album":"A","artist":[],"bitrate":-1,"duration":2,"format":"mp3"}"#[..],
        &br#"{"musicName":"T","album":"A","artist":[],"bitrate":1.5,"duration":2,"format":"mp3"}"#[..],
        &br#"{"musicName":"T","album":"A","artist":["X"],"bitrate":1,"duration":2,"format":"mp3"}"#[..],
        &br#"{"musicName":5,"album":"A","artist":[],"bitrate":1,"duration":2,"format":"mp3"}"#[..],
        &br#"[1,2,3]"#[..],
        &br#"null"#[..],
    ] {
        let err = NcmMetadata::from_decrypted(text).unwrap_err();
        assert_eq!(err.kind(), ErrorKind::Json);
    }
}

#[test]
fn record_written_as_an_array() {
    let json = br#"["Test","Album",[["Artist1",0]],320000,240000,"mp3"]"#;
    let meta = NcmMetadata::from_decrypted(json).unwrap();
    assert_eq!(meta.music_name, "Test");
    assert_eq!(meta.album, "Album");
    assert_eq!(meta.artist_names(), "Artist1");
    assert_eq!((meta.bitrate, meta.duration), (320000, 240000));
    assert_eq!(meta.format, "mp3");
    for text in [
        &br#"["Test","Album",[],320000,240000]"#[..],
        &br#"["Test","Album",[],320000,240000,"mp3",1]"#[..],
        &br#"["Test","Album",[],"320000",240000,"mp3"]"#[..],
        &br#"[]"#[..],
    ] {
        let err = NcmMetadata::from_decrypted(text).unwrap_err();
        assert_eq!(err.kind(), ErrorKind::Json);
    }
}

#[test]
fn from_json_reads_a_record() {
    let json = Json::Object(vec![
        ("musicName".to_string(), Json::String("N".to_string())),
        ("album".to_string(), Json::String("A".to_string())),
        (
            "artist".to_string(),
            Json::Array(vec![Json::Array(vec![Json::String("X".to_string())])]),
        ),
        ("bitrate".to_string(), Json::Number(JsonNumber::PosInt(9))),
        ("duration".to_string(), Json::Number(JsonNumber::PosInt(8))),
        ("format".to_string(), Json::String("mp3".to_string())),
    ]);
    let meta = NcmMetadata::from_json(&json).unwrap();
    assert_eq!(meta.music_name, "N");
    assert_eq!(meta.bitrate, 9);
    assert_eq!(meta.duration, 8);
    assert_eq!(meta.artist_names(), "X");
    assert!(NcmMetadata::from_json(&Json::Null).is_none());
}
