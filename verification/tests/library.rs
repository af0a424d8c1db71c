//! Encodings, file classification, path handling, and the command lines
//! handed to the external tools.

use syncbops::decimal::{parse_u32, u64_to_dec_string};
use syncbops::ffmpeg_interface::{ffprobe_args, transcode_song_args};
use syncbops::music_library::{
    dedicated_cover_art_target, external_art_for_song, first_album_art_in_dir,
    get_shadow_filename, identify_file_type, is_image_file_album_art, library_relative_path,
    FileType, MusicFileType,
};
use syncbops::paths::{join_path, parent_of, with_extension};
use syncbops::song::Song;
use syncbops::ffmpeg_interface::SongMetaData;

#[test]
fn equivalent_bitrates() {
    assert_eq!(MusicFileType::Mp3CBR { bitrate: 192 }.equivalent_bitrate(), 192);
    let vbr_table = [245, 225, 190, 175, 165, 130, 115, 100, 85, 65];
    for (q, expected) in vbr_table.iter().enumerate() {
        assert_eq!(MusicFileType::Mp3VBR { quality: q }.equivalent_bitrate(), *expected);
    }
    assert_eq!(
        MusicFileType::Opus { bitrate: 160, compression_level: 3 }.equivalent_bitrate(),
        160
    );
    // 64 * (10.0 - 4.0) at the top of the Vorbis scale.
    assert_eq!(MusicFileType::Vorbis { quality_tenths: 100 }.equivalent_bitrate(), 384);
    // 16 * (-1.0 + 4.0) at the bottom.
    assert_eq!(MusicFileType::Vorbis { quality_tenths: -10 }.equivalent_bitrate(), 48);
    // 32 * 5.5 in the middle band.
    assert_eq!(MusicFileType::Vorbis { quality_tenths: 55 }.equivalent_bitrate(), 176);
    assert_eq!(MusicFileType::Flac { quality: 10 }.equivalent_bitrate(), 800);
}

#[test]
fn extensions() {
    assert_eq!(MusicFileType::Mp3CBR { bitrate: 128 }.extension(), "mp3");
    assert_eq!(MusicFileType::Mp3VBR { quality: 3 }.extension(), "mp3");
    assert_eq!(MusicFileType::Opus { bitrate: 128, compression_level: 3 }.extension(), "opus");
    assert_eq!(MusicFileType::Vorbis { quality_tenths: 30 }.extension(), "ogg");
    assert_eq!(MusicFileType::Flac { quality: 5 }.extension(), "flac");
}

#[test]
fn shadow_filenames() {
    let t = MusicFileType::Mp3VBR { quality: 6 };
    assert_eq!(get_shadow_filename("album/track.flac", "/shadow", &t), "/shadow/album/track.mp3");
    assert_eq!(get_shadow_filename("track.flac", "/shadow/", &t), "/shadow/track.mp3");
    // A file without an extension gets one appended.
    assert_eq!(get_shadow_filename("album/track", "/shadow", &t), "/shadow/album/track.mp3");
}

#[test]
fn relative_paths() {
    assert_eq!(library_relative_path("/lib/a/b.mp3", "/lib"), "a/b.mp3");
    assert_eq!(library_relative_path("/lib/a/b.mp3", "/lib/"), "a/b.mp3");
    assert_eq!(library_relative_path("/lib/b.mp3", "/lib"), "b.mp3");
}

#[test]
fn path_helpers() {
    assert_eq!(join_path("/a", "b"), "/a/b");
    assert_eq!(join_path("/a/", "b"), "/a/b");
    assert_eq!(join_path("", "b"), "b");
    assert_eq!(parent_of("/a/b/c.mp3"), Some("/a/b".to_string()));
    assert_eq!(parent_of("/c.mp3"), Some("/".to_string()));
    assert_eq!(parent_of("c.mp3"), None);
    assert_eq!(with_extension("a/b.flac", "mp3"), "a/b.mp3");
    assert_eq!(with_extension("a/b", "mp3"), "a/b.mp3");
    // A hidden file's leading dot does not count as an extension dot.
    assert_eq!(with_extension("a/.hidden", "mp3"), "a/.hidden.mp3");
    assert_eq!(with_extension("a.b/c", "mp3"), "a.b/c.mp3");
}

#[test]
fn file_types_by_extension() {
    assert_eq!(identify_file_type("x/a.mp3", true, false), Some(FileType::Music));
    assert_eq!(identify_file_type("a.FLAC", true, false), Some(FileType::Music));
    assert_eq!(identify_file_type("a.m4a", true, false), Some(FileType::Music));
    assert_eq!(identify_file_type("a.ogg", true, false), Some(FileType::Music));
    assert_eq!(identify_file_type("a.png", true, false), Some(FileType::Art));
    assert_eq!(identify_file_type("a.JPG", true, false), Some(FileType::Art));
    assert_eq!(identify_file_type("a.jpeg", true, false), Some(FileType::Art));
    assert_eq!(identify_file_type("a.cue", true, false), Some(FileType::Meta));
    assert_eq!(identify_file_type("a.nfo", true, false), Some(FileType::Meta));
    assert_eq!(identify_file_type("a.log", true, false), Some(FileType::Meta));
    assert_eq!(identify_file_type("a.accurip", true, false), Some(FileType::Meta));
    assert_eq!(identify_file_type("a.lrc", true, false), Some(FileType::Meta));
    assert_eq!(identify_file_type("a.lyrics", true, false), Some(FileType::Meta));
    assert_eq!(identify_file_type("a.sfv", true, false), Some(FileType::Meta));
    assert_eq!(identify_file_type("a.m3u", true, false), Some(FileType::Playlist));
    assert_eq!(identify_file_type("a.xyz", true, false), None);
    assert_eq!(identify_file_type("noext", true, false), None);
    assert_eq!(identify_file_type("dir", true, true), Some(FileType::Folder));
    assert_eq!(identify_file_type("gone.mp3", false, false), None);
}

#[test]
fn album_art_names() {
    assert!(is_image_file_album_art("x/cover.jpg"));
    assert!(is_image_file_album_art("x/Folder.PNG"));
    assert!(is_image_file_album_art("x/front.jpeg"));
    assert!(is_image_file_album_art("album.png"));
    assert!(is_image_file_album_art("x/cover_image.jpg"));
    assert!(is_image_file_album_art("x/cover_art.jpg"));
    assert!(!is_image_file_album_art("x/scan.jpg"));
    assert!(!is_image_file_album_art("x/cover.txt"));
    assert!(!is_image_file_album_art("x/cover"));
}

#[test]
fn external_art_lookup() {
    let files: Vec<String> = vec![
        "/lib/album/01.mp3".to_string(),
        "/lib/album/cover.jpg".to_string(),
        "/lib/other/02.mp3".to_string(),
        "/lib/folder.png".to_string(),
    ];
    assert_eq!(
        first_album_art_in_dir(&files, "/lib/album"),
        Some("/lib/album/cover.jpg".to_string())
    );
    assert_eq!(first_album_art_in_dir(&files, "/lib/missing"), None);
    // Art in the song's own directory wins.
    assert_eq!(
        external_art_for_song(&files, "/lib/album/01.mp3"),
        Some("/lib/album/cover.jpg".to_string())
    );
    // A directory without its own art falls back to the directory above.
    assert_eq!(
        external_art_for_song(&files, "/lib/other/02.mp3"),
        Some("/lib/folder.png".to_string())
    );
}

#[test]
fn cover_art_targets() {
    let metadata = SongMetaData {
        title: None,
        bitrate_kbps: 320,
        has_embedded_album_art: false,
    };
    let song = Song::new(
        "/lib/album/01.mp3".to_string(),
        "/lib".to_string(),
        Some("/lib/album/cover.jpg".to_string()),
        metadata,
    )
    .unwrap();
    assert_eq!(
        dedicated_cover_art_target(&song, "/lib", "/shadow"),
        Some("/shadow/album/cover.jpg".to_string())
    );
    let bare = Song::new(
        "/lib/album/02.mp3".to_string(),
        "/lib".to_string(),
        None,
        SongMetaData { title: None, bitrate_kbps: 320, has_embedded_album_art: false },
    )
    .unwrap();
    assert_eq!(dedicated_cover_art_target(&bare, "/lib", "/shadow"), None);
}

#[test]
fn parse_u32_like_std() {
    assert_eq!(parse_u32("0"), Some(0));
    assert_eq!(parse_u32("169000"), Some(169000));
    assert_eq!(parse_u32("+12"), Some(12));
    assert_eq!(parse_u32("007"), Some(7));
    assert_eq!(parse_u32("4294967295"), Some(u32::MAX));
    assert_eq!(parse_u32("4294967296"), None);
    assert_eq!(parse_u32(""), None);
    assert_eq!(parse_u32("+"), None);
    assert_eq!(parse_u32("-3"), None);
    assert_eq!(parse_u32("12a"), None);
    assert_eq!(parse_u32(" 12"), None);
}

#[test]
fn decimal_formatting() {
    assert_eq!(u64_to_dec_string(0), "0");
    assert_eq!(u64_to_dec_string(7), "7");
    assert_eq!(u64_to_dec_string(320), "320");
    assert_eq!(u64_to_dec_string(1070850), "1070850");
    assert_eq!(u64_to_dec_string(u64::MAX), "18446744073709551615");
}

#[test]
fn ffprobe_command_line() {
    assert_eq!(
        ffprobe_args("/lib/a.mp3"),
        vec!["-loglevel", "0", "-print_format", "json", "-show_format", "-show_streams",
            "/lib/a.mp3"]
    );
}

#[test]
fn transcode_command_line_vbr_no_art() {
    let args = transcode_song_args(
        "/lib/a.flac",
        "/shadow/a.mp3",
        &MusicFileType::Mp3VBR { quality: 6 },
        false,
        None,
    );
    assert_eq!(
        args,
        vec!["-y", "-i", "/lib/a.flac", "-codec:a", "libmp3lame", "-q:a", "6", "-map_metadata",
            "0", "-map_metadata", "0:s:0", "-id3v2_version", "3", "-vn", "/shadow/a.mp3"]
    );
}

#[test]
fn transcode_command_line_cbr_with_external_art() {
    let args = transcode_song_args(
        "/lib/a.flac",
        "/shadow/a.mp3",
        &MusicFileType::Mp3CBR { bitrate: 60 },
        true,
        Some("/lib/cover.jpg"),
    );
    assert_eq!(
        args,
        vec!["-y", "-i", "/lib/a.flac", "-i", "/lib/cover.jpg", "-codec:a", "libmp3lame", "-b:a",
            "60k", "-map_metadata", "0", "-map_metadata", "0:s:0", "-id3v2_version", "3",
            "-metadata:s:v", "title=\"Cover\"", "-metadata:s:v", "comments=\"Cover\"", "-map",
            "0:a", "-map", "1:v", "/shadow/a.mp3"]
    );
}

#[test]
fn transcode_command_line_passthrough_embedded_art() {
    // Embedding wanted but no external file: the source's own art passes
    // through, so neither the art mapping nor -vn appears.
    let args = transcode_song_args(
        "/lib/a.mp3",
        "/shadow/a.ogg",
        &MusicFileType::Vorbis { quality_tenths: 100 },
        true,
        None,
    );
    assert_eq!(
        args,
        vec!["-y", "-i", "/lib/a.mp3", "-codec:a", "libvorbis", "-qscale:a", "10.000",
            "-map_metadata", "0", "-map_metadata", "0:s:0", "/shadow/a.ogg"]
    );
}

#[test]
fn transcode_command_line_opus_and_vorbis_quality() {
    let args = transcode_song_args(
        "/lib/a.mp3",
        "/shadow/a.opus",
        &MusicFileType::Opus { bitrate: 180, compression_level: 3 },
        false,
        None,
    );
    assert_eq!(
        args,
        vec!["-y", "-i", "/lib/a.mp3", "-codec:a", "libopus", "-b:a", "180k", "-map_metadata",
            "0", "-map_metadata", "0:s:0", "-vn", "/shadow/a.opus"]
    );
    let args = transcode_song_args(
        "/lib/a.mp3",
        "/shadow/a.ogg",
        &MusicFileType::Vorbis { quality_tenths: -10 },
        false,
        None,
    );
    assert_eq!(args[6], "-1.000");
    let args = transcode_song_args(
        "/lib/a.mp3",
        "/shadow/a.ogg",
        &MusicFileType::Vorbis { quality_tenths: 33 },
        false,
        None,
    );
    assert_eq!(args[6], "3.300");
}
