//! Reading song metadata out of the prober's JSON reports.

use syncbops::ffmpeg_interface::{FfmpegError, SongMetaData};

#[test]
fn metadata_mp3_with_art() {
    let report = r#"{
        "streams": [
            {"codec_type": "audio", "bit_rate": "169352"},
            {"codec_type": "video", "codec_name": "mjpeg"}
        ],
        "format": {"bit_rate": "172000", "tags": {"title": "mp3 with art"}}
    }"#;
    let md = SongMetaData::parse_file(report).unwrap();
    assert!(md.has_embedded_album_art);
    assert!(md.title == Some("mp3 with art".to_string()));
    assert!(md.bitrate_kbps == 169);
}

#[test]
fn metadata_mp3_without_art() {
    let report = r#"{
        "streams": [
            {"codec_type": "audio", "bit_rate": "180000"}
        ],
        "format": {"bit_rate": "180512", "tags": {"title": "mp3 without art"}}
    }"#;
    let md = SongMetaData::parse_file(report).unwrap();
    assert!(!md.has_embedded_album_art);
    assert!(md.title == Some("mp3 without art".to_string()));
    assert!(md.bitrate_kbps == 180);
}

#[test]
fn metadata_flac_with_art() {
    // FLAC streams carry no bit_rate of their own, so the whole file's is
    // the approximation, and the tags are fully capitalised.
    let report = r#"{
        "streams": [
            {"codec_type": "audio"},
            {"codec_type": "video", "codec_name": "png"}
        ],
        "format": {"bit_rate": "1070850", "tags": {"TITLE": "flac with art"}}
    }"#;
    let md = SongMetaData::parse_file(report).unwrap();
    assert!(md.has_embedded_album_art);
    assert!(md.title == Some("flac with art".to_string()));
    assert!(md.bitrate_kbps == 1070);
}

#[test]
fn metadata_flac_without_art() {
    let report = r#"{
        "streams": [
            {"codec_type": "audio"}
        ],
        "format": {"bit_rate": "869107", "tags": {"TITLE": "Flac without art"}}
    }"#;
    let md = SongMetaData::parse_file(report).unwrap();
    assert!(!md.has_embedded_album_art);
    assert!(md.title == Some("Flac without art".to_string()));
    assert!(md.bitrate_kbps == 869);
}

#[test]
fn metadata_ogg_with_art() {
    // Vorbis files sometimes miss the global metadata block; the title
    // then comes from the audio stream's own tags.
    let report = r#"{
        "streams": [
            {"codec_type": "audio", "bit_rate": "499821", "tags": {"TITLE": "ogg with art"}},
            {"codec_type": "video"}
        ],
        "format": {}
    }"#;
    let md = SongMetaData::parse_file(report).unwrap();
    assert!(md.has_embedded_album_art);
    assert!(md.title == Some("ogg with art".to_string()));
    assert!(md.bitrate_kbps == 499);
}

#[test]
fn metadata_ogg_without_art() {
    let report = r#"{
        "streams": [
            {"codec_type": "audio", "bit_rate": "499821", "tags": {"title": "vorbis without art"}}
        ],
        "format": {}
    }"#;
    let md = SongMetaData::parse_file(report).unwrap();
    assert!(!md.has_embedded_album_art);
    assert!(md.title == Some("vorbis without art".to_string()));
    assert!(md.bitrate_kbps == 499);
}

#[test]
fn metadata_m4a_with_art() {
    // The bit rate may also arrive as a JSON number.
    let report = r#"{
        "streams": [
            {"codec_type": "audio", "bit_rate": 197641},
            {"codec_type": "video"}
        ],
        "format": {"tags": {"title": "m4a with art"}}
    }"#;
    let md = SongMetaData::parse_file(report).unwrap();
    assert!(md.has_embedded_album_art);
    assert!(md.title == Some("m4a with art".to_string()));
    assert!(md.bitrate_kbps == 197);
}

#[test]
fn metadata_m4a_without_art() {
    let report = r#"{
        "streams": [
            {"codec_type": "audio", "bit_rate": 198000}
        ],
        "format": {"tags": {"title": "m4a without art"}}
    }"#;
    let md = SongMetaData::parse_file(report).unwrap();
    assert!(!md.has_embedded_album_art);
    assert!(md.title == Some("m4a without art".to_string()));
    assert!(md.bitrate_kbps == 198);
}

#[test]
fn metadata_unparseable_report() {
    let r = SongMetaData::parse_file("this is not json");
    assert!(matches!(r, Err(FfmpegError::JsonMetadata)));
}

#[test]
fn metadata_no_streams() {
    let r = SongMetaData::parse_file(r#"{"format": {}}"#);
    assert!(matches!(r, Err(FfmpegError::JsonMetadata)));
}

#[test]
fn metadata_no_audio_stream() {
    let r = SongMetaData::parse_file(r#"{"streams": [{"codec_type": "video"}], "format": {}}"#);
    assert!(matches!(r, Err(FfmpegError::JsonMetadata)));
}

#[test]
fn metadata_no_bitrate() {
    let r = SongMetaData::parse_file(r#"{"streams": [{"codec_type": "audio"}], "format": {}}"#);
    assert!(matches!(r, Err(FfmpegError::Bitrate)));
}

#[test]
fn metadata_numeric_bitrate_keeps_low_32_bits() {
    // A numeric bit_rate is read through a 32-bit cast, so only its low
    // 32 bits count.
    let above = 4_294_967_296u64 + 169_000;
    let report = format!(
        r#"{{"streams": [{{"codec_type": "audio", "bit_rate": {}}}], "format": {{}}}}"#,
        above
    );
    let md = SongMetaData::parse_file(&report).unwrap();
    assert_eq!(md.bitrate_kbps, 169);
}

#[test]
fn metadata_missing_title_is_none() {
    let report = r#"{
        "streams": [{"codec_type": "audio", "bit_rate": "128000"}],
        "format": {}
    }"#;
    let md = SongMetaData::parse_file(report).unwrap();
    assert!(md.title.is_none());
    assert_eq!(md.bitrate_kbps, 128);
}

#[test]
fn metadata_global_title_wins_over_stream_title() {
    let report = r#"{
        "streams": [{"codec_type": "audio", "bit_rate": "128000", "tags": {"title": "stream name"}}],
        "format": {"tags": {"title": "global name"}}
    }"#;
    let md = SongMetaData::parse_file(report).unwrap();
    assert_eq!(md.title, Some("global name".to_string()));
}
