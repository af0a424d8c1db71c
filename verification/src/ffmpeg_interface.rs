//! Song metadata as reported by the `ffprobe` prober, and the failures of
//! the prober and the `ffmpeg` transcoder.
//!
//! The subprocesses themselves run outside this crate; the logic here turns
//! the prober's JSON report into a [`SongMetaData`] and builds the exact
//! argument lists the subprocesses are invoked with.

use crate::decimal::{parse_u32, spec_parse_u32, spec_digit_char, spec_u64_dec, u64_to_dec_string};
use crate::json::{json_of, parse_json, spec_json_get, JsonValue};
use crate::music_library::{spec_music_file_type_valid, MusicFileType};
use crate::paths::str_eq;
use vstd::prelude::*;

verus! {

/// What a song file's metadata says: its title, its bitrate, and whether
/// it carries embedded album art.
#[derive(Debug, Clone)]
pub struct SongMetaData {
    pub title: Option<String>,
    pub bitrate_kbps: u32,
    pub has_embedded_album_art: bool,
}

/// The mathematical content of a [`SongMetaData`].
pub struct SongMetaDataView {
    pub title: Option<Seq<char>>,
    pub bitrate_kbps: u32,
    pub has_embedded_album_art: bool,
}

impl View for SongMetaData {
    type V = SongMetaDataView;

    open spec fn view(&self) -> SongMetaDataView {
        SongMetaDataView {
            title: match self.title {
                Option::Some(t) => Option::Some(t@),
                Option::None => Option::None,
            },
            bitrate_kbps: self.bitrate_kbps,
            has_embedded_album_art: self.has_embedded_album_art,
        }
    }
}

/// A failure of the prober or of the transcoder.
#[derive(Debug, Clone)]
pub enum FfmpegError {
    /// The transcoder ran but exited with a failure code.
    FfmpegNotSuccesful { file: String, arguments: String, msg: String },
    /// The transcoder command itself could not be run.
    TranscodeCommand { arguments: String, msg: String },
    /// The prober command could not be run.
    CheckForAlbumArtCommand { arguments: String, msg: String },
    /// The prober's report holds no usable bitrate.
    Bitrate,
    /// The prober's report could not be parsed.
    JsonMetadata,
    /// The file to be probed or transcoded does not exist.
    FileDoesNotExist { path: String },
}

/// Whether a stream object declares itself an audio stream.
pub open spec fn spec_is_audio_stream(v: JsonValue) -> bool {
    match spec_json_get(v, "codec_type"@) {
        Option::Some(ct) => match ct {
            JsonValue::Str(s) => s@ == "audio"@,
            _ => false,
        },
        Option::None => false,
    }
}

/// The first audio stream among `streams`, if any.
pub open spec fn spec_find_audio_stream(streams: Seq<JsonValue>) -> Option<JsonValue>
    decreases streams.len(),
{
    if streams.len() == 0 {
        Option::None
    } else if spec_is_audio_stream(streams[0]) {
        Option::Some(streams[0])
    } else {
        spec_find_audio_stream(streams.drop_first())
    }
}

/// A 64-bit value cut down to its low 32 bits.
pub open spec fn spec_truncate_u32(u: u64) -> u32 {
    u as u32
}

/// The `bit_rate` member of a stream or format object, read as the prober
/// writes it: either a number or a string of digits.
pub open spec fn spec_bit_rate_field(v: JsonValue) -> Option<u32> {
    match spec_json_get(v, "bit_rate"@) {
        Option::Some(b) => match b {
            JsonValue::UInt(u) => Option::Some(spec_truncate_u32(u)),
            JsonValue::Str(s) => spec_parse_u32(s@),
            _ => Option::None,
        },
        Option::None => Option::None,
    }
}

/// The bit rate in bits per second: the audio stream's own, or, as a
/// fallback, the whole file's from the format block.
pub open spec fn spec_bits_per_second(parsed: JsonValue, audio: JsonValue) -> Option<u32> {
    match spec_bit_rate_field(audio) {
        Option::Some(b) => Option::Some(b),
        Option::None => match spec_json_get(parsed, "format"@) {
            Option::Some(f) => spec_bit_rate_field(f),
            Option::None => Option::None,
        },
    }
}

/// The string member `key` of the `tags` block of `v`, if present.
pub open spec fn spec_tag_in(v: JsonValue, key: Seq<char>) -> Option<Seq<char>> {
    match spec_json_get(v, "tags"@) {
        Option::Some(tags) => match spec_json_get(tags, key) {
            Option::Some(t) => match t {
                JsonValue::Str(s) => Option::Some(s@),
                _ => Option::None,
            },
            Option::None => Option::None,
        },
        Option::None => Option::None,
    }
}

/// The title of the probed file: from the global metadata block first
/// (lower case, then the capitalised form some FLAC files carry), then
/// from the audio stream's own block (as some Vorbis files need).
pub open spec fn spec_title_of(parsed: JsonValue, audio: JsonValue) -> Option<Seq<char>> {
    let from_format = match spec_json_get(parsed, "format"@) {
        Option::Some(f) => match spec_tag_in(f, "title"@) {
            Option::Some(t) => Option::Some(t),
            Option::None => spec_tag_in(f, "TITLE"@),
        },
        Option::None => Option::None,
    };
    match from_format {
        Option::Some(t) => Option::Some(t),
        Option::None => match spec_tag_in(audio, "TITLE"@) {
            Option::Some(t) => Option::Some(t),
            Option::None => spec_tag_in(audio, "title"@),
        },
    }
}

/// What the prober's parsed report means: an error when the report has no
/// streams array or no audio stream, an error when no bitrate can be
/// determined, and otherwise the title, the bitrate in kbps, and whether
/// a second stream — the embedded art — is present.
pub open spec fn spec_metadata_from_json(parsed: JsonValue) -> Result<
    SongMetaDataView,
    FfmpegError,
> {
    match spec_json_get(parsed, "streams"@) {
        Option::Some(streams) => match streams {
            JsonValue::Arr(items) => match spec_find_audio_stream(items@) {
                Option::Some(audio) => match spec_bits_per_second(parsed, audio) {
                    Option::Some(bps) => Result::Ok(
                        SongMetaDataView {
                            title: spec_title_of(parsed, audio),
                            bitrate_kbps: (bps / 1000) as u32,
                            has_embedded_album_art: items@.len() >= 2 && !(items@[1] is Null),
                        },
                    ),
                    Option::None => Result::Err(FfmpegError::Bitrate),
                },
                Option::None => Result::Err(FfmpegError::JsonMetadata),
            },
            _ => Result::Err(FfmpegError::JsonMetadata),
        },
        Option::None => Result::Err(FfmpegError::JsonMetadata),
    }
}

/// Whether a stream object declares itself an audio stream.
fn is_audio_stream(v: &JsonValue) -> (r: bool)
    ensures
        r == spec_is_audio_stream(*v),
{
    match v.get("codec_type") {
        Some(ct) => match ct.as_str() {
            Some(s) => str_eq(s.as_str(), "audio"),
            None => false,
        },
        None => false,
    }
}

/// Reads the `bit_rate` member of a stream or format object.
fn bit_rate_field(v: &JsonValue) -> (r: Option<u32>)
    ensures
        r == spec_bit_rate_field(*v),
{
    match v.get("bit_rate") {
        Some(b) => match b {
            JsonValue::UInt(u) => Some(#[verifier::truncate] (*u as u32)),
            JsonValue::Str(s) => parse_u32(s.as_str()),
            _ => None,
        },
        None => None,
    }
}

/// Reads the string member `key` of the `tags` block of `v`.
fn tag_in(v: &JsonValue, key: &str) -> (r: Option<String>)
    ensures
        r matches Some(t) ==> spec_tag_in(*v, key@) == Some(t@),
        r is None ==> spec_tag_in(*v, key@) is None,
{
    match v.get("tags") {
        Some(tags) => match tags.get(key) {
            Some(t) => match t.as_str() {
                Some(s) => Some(s.clone()),
                None => None,
            },
            None => None,
        },
        None => None,
    }
}

/// Reads the title of the probed file from its tag blocks.
fn title_of(parsed: &JsonValue, audio: &JsonValue) -> (r: Option<String>)
    ensures
        r matches Some(t) ==> spec_title_of(*parsed, *audio) == Some(t@),
        r is None ==> spec_title_of(*parsed, *audio) is None,
{
    if let Some(f) = parsed.get("format") {
        if let Some(t) = tag_in(f, "title") {
            return Some(t);
        }
        if let Some(t) = tag_in(f, "TITLE") {
            return Some(t);
        }
    }
    if let Some(t) = tag_in(audio, "TITLE") {
        return Some(t);
    }
    tag_in(audio, "title")
}

/// Reads a [`SongMetaData`] out of the prober's parsed report.
pub fn metadata_from_json(parsed: &JsonValue) -> (r: Result<SongMetaData, FfmpegError>)
    ensures
        r matches Ok(md) ==> (spec_metadata_from_json(*parsed) matches Ok(v) && md@ == v),
        r matches Err(e) ==> (spec_metadata_from_json(*parsed) matches Err(e2) && e == e2),
{
    let streams = match parsed.get("streams") {
        Some(v) => v,
        None => {
            return Err(FfmpegError::JsonMetadata);
        }
    };
    let items = match streams {
        JsonValue::Arr(items) => items,
        _ => {
            return Err(FfmpegError::JsonMetadata);
        }
    };
    // There must be one audio stream, but there might be more video
    // streams (different art), and the audio stream need not come first.
    proof {
        assert(items@.skip(0) =~= items@);
    }
    let n = items.len();
    let mut i: usize = 0;
    let mut audio_index: Option<usize> = None;
    while i < n
        invariant
            i <= n,
            n == items@.len(),
            audio_index matches Some(a) ==> a < n && spec_is_audio_stream(items@[a as int])
                && spec_find_audio_stream(items@) == Some(items@[a as int]),
            audio_index is None ==> spec_find_audio_stream(items@) == spec_find_audio_stream(
                items@.skip(i as int),
            ),
        decreases n - i,
    {
        if audio_index.is_none() {
            proof {
                assert(items@.skip(i as int)[0] == items@[i as int]);
                assert(items@.skip(i as int).drop_first() =~= items@.skip(i + 1));
            }
            if is_audio_stream(&items[i]) {
                audio_index = Some(i);
            }
        }
        i = i + 1;
    }
    let audio = match audio_index {
        Some(a) => &items[a],
        None => {
            proof {
                assert(items@.skip(n as int).len() == 0);
            }
            return Err(FfmpegError::JsonMetadata);
        }
    };
    let bits = match bit_rate_field(audio) {
        Some(b) => Some(b),
        None => {
            // The audio stream gives no bitrate; approximate it with the
            // whole file's, which also counts the image stream.
            match parsed.get("format") {
                Some(f) => bit_rate_field(f),
                None => None,
            }
        }
    };
    let bps = match bits {
        Some(b) => b,
        None => {
            return Err(FfmpegError::Bitrate);
        }
    };
    let title = title_of(parsed, audio);
    // To check for album art, just check if there is a second stream.
    let has_embedded_album_art = if items.len() >= 2 {
        !items[1].is_null()
    } else {
        false
    };
    Ok(SongMetaData { title, bitrate_kbps: bps / 1000, has_embedded_album_art })
}

impl SongMetaData {
    /// Reads the title, bitrate and art presence of a song out of the
    /// prober's JSON report.
    pub fn parse_file(ffprobe_output: &str) -> (r: Result<SongMetaData, FfmpegError>)
        ensures
            json_of(ffprobe_output@) is None ==> (r matches Err(e) && e
                == FfmpegError::JsonMetadata),
            json_of(ffprobe_output@) matches Some(parsed) ==> (((r matches Ok(md) && (
            spec_metadata_from_json(parsed) matches Ok(v) && md@ == v))) || ((r matches Err(e) && (
            spec_metadata_from_json(parsed) matches Err(e2) && e == e2)))),
    {
        let parsed = match parse_json(ffprobe_output) {
            Some(v) => v,
            None => {
                return Err(FfmpegError::JsonMetadata);
            }
        };
        metadata_from_json(&parsed)
    }
}

/// The views of a vector of argument strings.
pub open spec fn spec_arg_views(args: Seq<String>) -> Seq<Seq<char>> {
    args.map_values(|s: String| s@)
}

/// The prober's command line: quiet, JSON output, both the format block
/// and the stream blocks, for the given file.
pub open spec fn spec_ffprobe_args(path: Seq<char>) -> Seq<Seq<char>> {
    seq!["-loglevel"@, "0"@, "-print_format"@, "json"@, "-show_format"@, "-show_streams"@, path]
}

/// Builds the prober's argument list for one file.
pub fn ffprobe_args(path: &str) -> (r: Vec<String>)
    ensures
        spec_arg_views(r@) == spec_ffprobe_args(path@),
{
    let mut args: Vec<String> = Vec::new();
    args.push(String::from_str("-loglevel"));
    args.push(String::from_str("0"));
    args.push(String::from_str("-print_format"));
    args.push(String::from_str("json"));
    args.push(String::from_str("-show_format"));
    args.push(String::from_str("-show_streams"));
    args.push(String::from_str(path));
    proof {
        assert(spec_arg_views(args@) =~= spec_ffprobe_args(path@));
    }
    args
}

/// The Vorbis quality with three decimal places, as the transcoder's
/// quality scale argument wants it, from the quality in tenths.
pub open spec fn spec_vorbis_quality_arg(t: int) -> Seq<char> {
    let a = if t < 0 {
        -t
    } else {
        t
    };
    (if t < 0 {
        seq!['-']
    } else {
        Seq::<char>::empty()
    }) + spec_u64_dec(a / 10) + seq!['.'] + seq![spec_digit_char(a % 10)] + seq!['0', '0']
}

/// Writes the Vorbis quality with three decimal places.
fn vorbis_quality_arg(quality_tenths: i32) -> (r: String)
    requires
        -10 <= quality_tenths <= 100,
    ensures
        r@ == spec_vorbis_quality_arg(quality_tenths as int),
{
    let a: u64 = if quality_tenths < 0 {
        (-quality_tenths) as u64
    } else {
        quality_tenths as u64
    };
    let mut r = String::new();
    if quality_tenths < 0 {
        r.append("-");
    }
    let whole = u64_to_dec_string(a / 10);
    r.append(whole.as_str());
    r.append(".");
    let frac = u64_to_dec_string(a % 10);
    r.append(frac.as_str());
    r.append("00");
    proof {
        reveal_strlit("-");
        reveal_strlit(".");
        reveal_strlit("00");
        assert(r@ =~= spec_vorbis_quality_arg(quality_tenths as int));
    }
    r
}

/// The codec choice and its quality arguments, per encoding.
pub open spec fn spec_codec_args(t: MusicFileType) -> Seq<Seq<char>>
    recommends
        spec_music_file_type_valid(t),
        !(t is Flac),
{
    match t {
        MusicFileType::Mp3VBR { quality } => seq![
            "libmp3lame"@,
            "-q:a"@,
            spec_u64_dec(quality as int),
        ],
        MusicFileType::Mp3CBR { bitrate } => seq![
            "libmp3lame"@,
            "-b:a"@,
            spec_u64_dec(bitrate as int) + seq!['k'],
        ],
        MusicFileType::Opus { bitrate, compression_level } => seq![
            "libopus"@,
            "-b:a"@,
            spec_u64_dec(bitrate as int) + seq!['k'],
        ],
        MusicFileType::Vorbis { quality_tenths } => seq![
            "libvorbis"@,
            "-qscale:a"@,
            spec_vorbis_quality_arg(quality_tenths as int),
        ],
        MusicFileType::Flac { quality } => Seq::empty(),
    }
}

/// The tag-version arguments: MP3 targets write ID3v2.3, which is more
/// broadly supported than ID3v2.4.
pub open spec fn spec_id3_args(t: MusicFileType) -> Seq<Seq<char>> {
    match t {
        MusicFileType::Mp3VBR { .. } => seq!["-id3v2_version"@, "3"@],
        MusicFileType::Mp3CBR { .. } => seq!["-id3v2_version"@, "3"@],
        _ => Seq::empty(),
    }
}

/// The art-handling arguments: when external art is to be embedded, it is
/// mapped in as the video track and titled as the cover; when no art is
/// wanted, the video track is dropped; otherwise whatever embedded art
/// the source has passes through.
pub open spec fn spec_art_args(embed_art: bool, external_art: Option<Seq<char>>) -> Seq<Seq<char>> {
    if embed_art && external_art is Some {
        seq![
            "-metadata:s:v"@,
            "title=\"Cover\""@,
            "-metadata:s:v"@,
            "comments=\"Cover\""@,
            "-map"@,
            "0:a"@,
            "-map"@,
            "1:v"@,
        ]
    } else if !embed_art {
        seq!["-vn"@]
    } else {
        Seq::empty()
    }
}

/// The transcoder's whole command line: overwrite the target, read the
/// source (and the external art when it is to be embedded), pick the
/// codec, carry the metadata over, fix the tag version, handle the art,
/// and write the target.
pub open spec fn spec_transcode_args(
    source: Seq<char>,
    target: Seq<char>,
    t: MusicFileType,
    embed_art: bool,
    external_art: Option<Seq<char>>,
) -> Seq<Seq<char>>
    recommends
        spec_music_file_type_valid(t),
        !(t is Flac),
{
    seq!["-y"@, "-i"@, source] + (if embed_art && external_art is Some {
        seq!["-i"@, external_art.unwrap()]
    } else {
        Seq::empty()
    }) + seq!["-codec:a"@] + spec_codec_args(t) + seq![
        "-map_metadata"@,
        "0"@,
        "-map_metadata"@,
        "0:s:0"@,
    ] + spec_id3_args(t) + spec_art_args(embed_art, external_art) + seq![target]
}

/// Builds the transcoder's argument list, like
/// `ffmpeg -y -i [source] -codec:a libmp3lame -q:a [level] [target]`.
/// Encoding to FLAC is not implemented as a target.
pub fn transcode_song_args(
    source: &str,
    target: &str,
    target_type: &MusicFileType,
    embed_art: bool,
    external_art_to_embed: Option<&str>,
) -> (r: Vec<String>)
    requires
        spec_music_file_type_valid(*target_type),
        !(*target_type is Flac),
    ensures
        spec_arg_views(r@) == spec_transcode_args(
            source@,
            target@,
            *target_type,
            embed_art,
            match external_art_to_embed {
                Option::Some(p) => Option::Some(p@),
                Option::None => Option::None,
            },
        ),
{
    let ghost ext_view: Option<Seq<char>> = match external_art_to_embed {
        Option::Some(p) => Option::Some(p@),
        Option::None => Option::None,
    };
    let mut args: Vec<String> = Vec::new();
    // Replace the target file if it already exists, and read the source.
    args.push(String::from_str("-y"));
    args.push(String::from_str("-i"));
    args.push(String::from_str(source));
    if embed_art {
        if let Some(art) = external_art_to_embed {
            // Second input: the external album art.
            args.push(String::from_str("-i"));
            args.push(String::from_str(art));
        }
    }
    args.push(String::from_str("-codec:a"));
    match target_type {
        MusicFileType::Mp3VBR { quality } => {
            args.push(String::from_str("libmp3lame"));
            // The quality scale of the audio track, instead of a bitrate.
            args.push(String::from_str("-q:a"));
            args.push(u64_to_dec_string(*quality as u64));
        }
        MusicFileType::Mp3CBR { bitrate } => {
            args.push(String::from_str("libmp3lame"));
            // Constant bitrate in kbps.
            args.push(String::from_str("-b:a"));
            let mut b = u64_to_dec_string(*bitrate as u64);
            b.append("k");
            proof {
                reveal_strlit("k");
                assert(b@ =~= spec_u64_dec(*bitrate as int) + seq!['k']);
            }
            args.push(b);
        }
        MusicFileType::Opus { bitrate, compression_level } => {
            args.push(String::from_str("libopus"));
            args.push(String::from_str("-b:a"));
            let mut b = u64_to_dec_string(*bitrate as u64);
            b.append("k");
            proof {
                reveal_strlit("k");
                assert(b@ =~= spec_u64_dec(*bitrate as int) + seq!['k']);
            }
            args.push(b);
        }
        MusicFileType::Vorbis { quality_tenths } => {
            args.push(String::from_str("libvorbis"));
            args.push(String::from_str("-qscale:a"));
            args.push(vorbis_quality_arg(*quality_tenths));
        }
        MusicFileType::Flac { .. } => {
            proof {
                assert(false);
            }
        }
    }
    // Take the metadata from the source, both the global block and the
    // first stream's; this also converts between tag formats.
    args.push(String::from_str("-map_metadata"));
    args.push(String::from_str("0"));
    args.push(String::from_str("-map_metadata"));
    args.push(String::from_str("0:s:0"));
    match target_type {
        MusicFileType::Mp3VBR { .. } => {
            args.push(String::from_str("-id3v2_version"));
            args.push(String::from_str("3"));
        }
        MusicFileType::Mp3CBR { .. } => {
            args.push(String::from_str("-id3v2_version"));
            args.push(String::from_str("3"));
        }
        _ => {}
    }
    if external_art_to_embed.is_some() && embed_art {
        // Title the inserted album art as the cover; some players look
        // for the comment instead of the title.  The first input is the
        // audio track, the second the art.
        args.push(String::from_str("-metadata:s:v"));
        args.push(String::from_str("title=\"Cover\""));
        args.push(String::from_str("-metadata:s:v"));
        args.push(String::from_str("comments=\"Cover\""));
        args.push(String::from_str("-map"));
        args.push(String::from_str("0:a"));
        args.push(String::from_str("-map"));
        args.push(String::from_str("1:v"));
    } else if !embed_art {
        // Drop the video track altogether.
        args.push(String::from_str("-vn"));
    }
    args.push(String::from_str(target));
    proof {
        assert(spec_arg_views(args@) =~= spec_transcode_args(
            source@,
            target@,
            *target_type,
            embed_art,
            ext_view,
        ));
    }
    args
}

} // verus!
