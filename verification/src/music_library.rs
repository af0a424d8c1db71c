//! The vocabulary of a synchronisation run: outcome taxonomy, art handling
//! strategies, target encodings, and classification of library files.

use crate::ffmpeg_interface::FfmpegError;
use crate::paths::{
    eq_ignore_ascii_case, join_path, spec_eq_ignore_ascii_case, spec_extension_of,
    spec_file_stem_of, spec_join_path, spec_with_extension, with_extension, extension_of,
    file_stem_of,
};
use vstd::prelude::*;

verus! {

/// How a file should be updated, or how it was updated last time.
#[derive(Debug, PartialEq, Eq, Structural, Clone, Copy)]
pub enum UpdateType {
    /// The file did not need to be changed, as it is up-to-date.
    NoChange,
    /// The file is completely new, so everything had to be done from scratch.
    NewTranscode,
    /// Updated because the source changed since the shadow copy was made.
    Overwrite,
    /// Actually unchanged, but forced into being overwritten.
    ForceOverwrite,
    /// The song has been synced before according to the records,
    /// but the target file is no longer there.
    TranscodeMissingTarget,
    /// The target file does not yet exist, and the source already has a low
    /// bitrate.  It should just be copied, and not transcoded.
    Copied,
}

/// Which sources of album art a song has.
#[derive(Debug, PartialEq, Eq, Structural, Clone, Copy)]
pub enum ArtworkType {
    Embedded,
    External,
    NoArt,
}

/// How to handle album art.
#[derive(Debug, PartialEq, Eq, Structural, Clone, Copy)]
pub enum ArtStrategy {
    /// Remove all embedded album art, and don't copy album art files.
    NoArt,
    /// Embed album art in all files: carry over art that was already in the
    /// source file, and embed external album art.
    EmbedAll,
    /// If there is both embedded and external art, prefer the external file;
    /// embed only when no dedicated art file exists.
    PreferFile,
    /// Never embed: discard embedded art and only keep dedicated art files.
    FileOnly,
}

/// The target encoding, one variant per codec, each carrying its own
/// quality parameters.
#[derive(Debug, Clone)]
pub enum MusicFileType {
    /// Constant bitrate MP3, with the bitrate in kbps.
    Mp3CBR { bitrate: u32 },
    /// Variable bitrate MP3.  The quality factor runs from 0 to 9;
    /// lower is higher quality but a larger file.
    Mp3VBR { quality: usize },
    /// Opus, with the target bitrate in kbps and a compression level that
    /// trades quality for encoding time without affecting file size.
    Opus { bitrate: u32, compression_level: usize },
    /// Vorbis.  The quality runs from -1.0 to 10.0 and is carried here in
    /// tenths, so from -10 to 100; higher is better quality.
    Vorbis { quality_tenths: i32 },
    /// Lossless FLAC, with a compression factor from 0 to 12.
    Flac { quality: u64 },
}

/// Whether the parameters of this encoding lie in their documented ranges.
pub open spec fn spec_music_file_type_valid(t: MusicFileType) -> bool {
    match t {
        MusicFileType::Mp3CBR { bitrate } => true,
        MusicFileType::Mp3VBR { quality } => quality <= 9,
        MusicFileType::Opus { bitrate, compression_level } => true,
        MusicFileType::Vorbis { quality_tenths } => -10 <= quality_tenths <= 100,
        MusicFileType::Flac { quality } => true,
    }
}

/// The estimated output bitrate of an encoding, in kbps, used only to
/// compare the requested quality against a source file's quality.
pub open spec fn spec_equivalent_bitrate(t: MusicFileType) -> u32
    recommends
        spec_music_file_type_valid(t),
{
    match t {
        MusicFileType::Mp3CBR { bitrate } => bitrate,
        MusicFileType::Mp3VBR { quality } => spec_mp3_vbr_bitrate(quality),
        MusicFileType::Opus { bitrate, compression_level } => bitrate,
        MusicFileType::Vorbis { quality_tenths } => spec_vorbis_bitrate(quality_tenths),
        MusicFileType::Flac { quality } => 800,
    }
}

/// Typical bitrates of the MP3 VBR quality levels.
pub open spec fn spec_mp3_vbr_bitrate(quality: usize) -> u32
    recommends
        quality <= 9,
{
    if quality == 0 { 245 }
    else if quality == 1 { 225 }
    else if quality == 2 { 190 }
    else if quality == 3 { 175 }
    else if quality == 4 { 165 }
    else if quality == 5 { 130 }
    else if quality == 6 { 115 }
    else if quality == 7 { 100 }
    else if quality == 8 { 85 }
    else { 65 }
}

/// The Vorbis quality-to-bitrate estimate: 16 * (q + 4) below quality 4,
/// 32 * q up to quality 8, and 64 * (q - 4) above, rounded half up,
/// with the quality given in tenths.
pub open spec fn spec_vorbis_bitrate(quality_tenths: i32) -> u32
    recommends
        -10 <= quality_tenths <= 100,
{
    if quality_tenths < 40 {
        (((16 * (quality_tenths + 40)) + 5) / 10) as u32
    } else if quality_tenths < 80 {
        (((32 * quality_tenths) + 5) / 10) as u32
    } else {
        (((64 * (quality_tenths - 40)) + 5) / 10) as u32
    }
}

impl MusicFileType {
    /// Whether the parameters of this encoding lie in their documented ranges.
    pub fn is_valid(&self) -> (r: bool)
        ensures
            r == spec_music_file_type_valid(*self),
    {
        match self {
            MusicFileType::Mp3CBR { bitrate } => true,
            MusicFileType::Mp3VBR { quality } => *quality <= 9,
            MusicFileType::Opus { bitrate, compression_level } => true,
            MusicFileType::Vorbis { quality_tenths } => -10 <= *quality_tenths && *quality_tenths <= 100,
            MusicFileType::Flac { quality } => true,
        }
    }

    /// To be able to compare quality and file sizes of different file types.
    pub fn equivalent_bitrate(&self) -> (r: u32)
        requires
            spec_music_file_type_valid(*self),
        ensures
            r == spec_equivalent_bitrate(*self),
    {
        match self {
            MusicFileType::Mp3CBR { bitrate } => *bitrate,
            MusicFileType::Mp3VBR { quality } => {
                let q = *quality;
                if q == 0 { 245 }
                else if q == 1 { 225 }
                else if q == 2 { 190 }
                else if q == 3 { 175 }
                else if q == 4 { 165 }
                else if q == 5 { 130 }
                else if q == 6 { 115 }
                else if q == 7 { 100 }
                else if q == 8 { 85 }
                else { 65 }
            }
            MusicFileType::Opus { bitrate, compression_level } => *bitrate,
            MusicFileType::Vorbis { quality_tenths } => {
                let t = *quality_tenths;
                if t < 40 {
                    (((16 * (t + 40)) + 5) / 10) as u32
                } else if t < 80 {
                    (((32 * t) + 5) / 10) as u32
                } else {
                    (((64 * (t - 40)) + 5) / 10) as u32
                }
            }
            MusicFileType::Flac { quality } => 800,
        }
    }

    /// The canonical file extension of this encoding.
    pub fn extension(&self) -> (r: String)
        ensures
            r@ == spec_codec_extension(*self),
    {
        match self {
            MusicFileType::Mp3CBR { .. } => String::from_str("mp3"),
            MusicFileType::Mp3VBR { .. } => String::from_str("mp3"),
            MusicFileType::Opus { .. } => String::from_str("opus"),
            MusicFileType::Vorbis { .. } => String::from_str("ogg"),
            MusicFileType::Flac { .. } => String::from_str("flac"),
        }
    }
}

/// The canonical file extension of an encoding.
pub open spec fn spec_codec_extension(t: MusicFileType) -> Seq<char> {
    match t {
        MusicFileType::Mp3CBR { .. } => "mp3"@,
        MusicFileType::Mp3VBR { .. } => "mp3"@,
        MusicFileType::Opus { .. } => "opus"@,
        MusicFileType::Vorbis { .. } => "ogg"@,
        MusicFileType::Flac { .. } => "flac"@,
    }
}

/// The kinds of image files that can serve as album art.
#[derive(Debug, PartialEq, Eq, Structural, Clone, Copy)]
pub enum ImageType {
    Png,
    Jpg,
}

/// What kind of file a library entry is.
#[derive(Debug, PartialEq, Eq, Structural, Clone, Copy)]
pub enum FileType {
    Folder,
    Music,
    Art,
    /// Things like cue files, rip logs, lyrics.
    Meta,
    Playlist,
}

pub open spec fn spec_is_music_extension(e: Seq<char>) -> bool {
    ||| spec_eq_ignore_ascii_case(e, "mp3"@)
    ||| spec_eq_ignore_ascii_case(e, "m4a"@)
    ||| spec_eq_ignore_ascii_case(e, "ogg"@)
    ||| spec_eq_ignore_ascii_case(e, "flac"@)
}

pub open spec fn spec_is_art_extension(e: Seq<char>) -> bool {
    ||| spec_eq_ignore_ascii_case(e, "png"@)
    ||| spec_eq_ignore_ascii_case(e, "jpg"@)
    ||| spec_eq_ignore_ascii_case(e, "jpeg"@)
}

pub open spec fn spec_is_meta_extension(e: Seq<char>) -> bool {
    ||| spec_eq_ignore_ascii_case(e, "cue"@)
    ||| spec_eq_ignore_ascii_case(e, "nfo"@)
    ||| spec_eq_ignore_ascii_case(e, "log"@)
    ||| spec_eq_ignore_ascii_case(e, "accurip"@)
    ||| spec_eq_ignore_ascii_case(e, "lrc"@)
    ||| spec_eq_ignore_ascii_case(e, "lyrics"@)
    ||| spec_eq_ignore_ascii_case(e, "sfv"@)
}

pub open spec fn spec_is_playlist_extension(e: Seq<char>) -> bool {
    spec_eq_ignore_ascii_case(e, "m3u"@)
}

/// The file type an extension stands for, if any.
pub open spec fn spec_classify_extension(e: Seq<char>) -> Option<FileType> {
    if spec_is_music_extension(e) {
        Option::Some(FileType::Music)
    } else if spec_is_art_extension(e) {
        Option::Some(FileType::Art)
    } else if spec_is_meta_extension(e) {
        Option::Some(FileType::Meta)
    } else if spec_is_playlist_extension(e) {
        Option::Some(FileType::Playlist)
    } else {
        Option::None
    }
}

/// What kind of file the entry at `path` is, given whether it exists and
/// whether it is a directory: `None` when it does not exist or cannot be
/// identified from its extension.
pub open spec fn spec_identify_file_type(path: Seq<char>, exists: bool, is_dir: bool) -> Option<
    FileType,
> {
    if !exists {
        Option::None
    } else if is_dir {
        Option::Some(FileType::Folder)
    } else {
        match spec_extension_of(path) {
            Option::Some(e) => spec_classify_extension(e),
            Option::None => Option::None,
        }
    }
}

/// Classifies the entry at `path`.  Whether the entry exists and whether it
/// is a directory are observations of the file system and are passed in.
pub fn identify_file_type(path: &str, exists: bool, is_dir: bool) -> (r: Option<FileType>)
    ensures
        r == spec_identify_file_type(path@, exists, is_dir),
{
    if !exists {
        return None;
    }
    if is_dir {
        return Some(FileType::Folder);
    }
    let ext = match extension_of(path) {
        Some(e) => e,
        None => {
            return None;
        }
    };
    let e = ext.as_str();
    if eq_ignore_ascii_case(e, "mp3") || eq_ignore_ascii_case(e, "m4a") || eq_ignore_ascii_case(
        e,
        "ogg",
    ) || eq_ignore_ascii_case(e, "flac") {
        Some(FileType::Music)
    } else if eq_ignore_ascii_case(e, "png") || eq_ignore_ascii_case(e, "jpg")
        || eq_ignore_ascii_case(e, "jpeg") {
        Some(FileType::Art)
    } else if eq_ignore_ascii_case(e, "cue") || eq_ignore_ascii_case(e, "nfo")
        || eq_ignore_ascii_case(e, "log") || eq_ignore_ascii_case(e, "accurip")
        || eq_ignore_ascii_case(e, "lrc") || eq_ignore_ascii_case(e, "lyrics")
        || eq_ignore_ascii_case(e, "sfv") {
        Some(FileType::Meta)
    } else if eq_ignore_ascii_case(e, "m3u") {
        Some(FileType::Playlist)
    } else {
        None
    }
}

/// Whether the file stem is one of the names a dedicated album art file
/// may carry.
pub open spec fn spec_is_album_art_stem(stem: Seq<char>) -> bool {
    ||| spec_eq_ignore_ascii_case(stem, "cover"@)
    ||| spec_eq_ignore_ascii_case(stem, "folder"@)
    ||| spec_eq_ignore_ascii_case(stem, "album"@)
    ||| spec_eq_ignore_ascii_case(stem, "cover_image"@)
    ||| spec_eq_ignore_ascii_case(stem, "cover_art"@)
    ||| spec_eq_ignore_ascii_case(stem, "front"@)
}

/// Whether `path` names a dedicated album art file: an image file whose
/// stem is something like `cover` or `folder`.
pub open spec fn spec_is_image_file_album_art(path: Seq<char>) -> bool {
    &&& spec_is_album_art_stem(spec_file_stem_of(path))
    &&& match spec_extension_of(path) {
        Option::Some(e) => spec_is_art_extension(e),
        Option::None => false,
    }
}

/// Checks if the file meets the criteria to be considered dedicated album
/// art: is it named cover.jpg or something like it?
pub fn is_image_file_album_art(path: &str) -> (r: bool)
    ensures
        r == spec_is_image_file_album_art(path@),
{
    let stem = file_stem_of(path);
    let s = stem.as_str();
    let stem_is_allowed = eq_ignore_ascii_case(s, "cover") || eq_ignore_ascii_case(s, "folder")
        || eq_ignore_ascii_case(s, "album") || eq_ignore_ascii_case(s, "cover_image")
        || eq_ignore_ascii_case(s, "cover_art") || eq_ignore_ascii_case(s, "front");
    if !stem_is_allowed {
        return false;
    }
    match extension_of(path) {
        Some(e) => {
            let ee = e.as_str();
            eq_ignore_ascii_case(ee, "png") || eq_ignore_ascii_case(ee, "jpg")
                || eq_ignore_ascii_case(ee, "jpeg")
        }
        None => false,
    }
}

/// Where to put the synchronised copy: the library-relative path with the
/// encoding's extension, rooted at the target library.
pub open spec fn spec_shadow_filename(
    library_relative_path: Seq<char>,
    target_library: Seq<char>,
    filetype: MusicFileType,
) -> Seq<char> {
    spec_join_path(
        target_library,
        spec_with_extension(library_relative_path, spec_codec_extension(filetype)),
    )
}

/// Where to put the synchronised copy.
pub fn get_shadow_filename(
    library_relative_path: &str,
    target_library: &str,
    filetype: &MusicFileType,
) -> (r: String)
    ensures
        r@ == spec_shadow_filename(library_relative_path@, target_library@, *filetype),
{
    let ext = filetype.extension();
    let renamed = with_extension(library_relative_path, ext.as_str());
    join_path(target_library, renamed.as_str())
}

/// Gets the path relative to the library.
pub fn library_relative_path(full_path: &str, source_library: &str) -> (r: String)
    requires
        crate::paths::spec_is_path_under(full_path@, source_library@),
    ensures
        r@ == crate::paths::spec_library_relative_path(full_path@, source_library@),
{
    crate::paths::library_relative_path_str(full_path, source_library)
}

/// The first file among `filenames` that is a dedicated album art file
/// lying directly in the directory `dir`.
pub open spec fn spec_first_album_art_in_dir(filenames: Seq<Seq<char>>, dir: Seq<char>) -> Option<
    Seq<char>,
>
    decreases filenames.len(),
{
    if filenames.len() == 0 {
        Option::None
    } else if spec_is_image_file_album_art(filenames[0]) && crate::paths::spec_parent_of(
        filenames[0],
    ) == Option::Some(dir) {
        Option::Some(filenames[0])
    } else {
        spec_first_album_art_in_dir(filenames.drop_first(), dir)
    }
}

/// Finds the first dedicated album art file directly in `dir`.
pub fn first_album_art_in_dir(filenames: &Vec<String>, dir: &str) -> (r: Option<String>)
    ensures
        r matches Some(p) ==> spec_first_album_art_in_dir(
            filenames@.map_values(|f: String| f@),
            dir@,
        ) == Some(p@),
        r is None ==> spec_first_album_art_in_dir(filenames@.map_values(|f: String| f@), dir@)
            is None,
{
    let ghost fs = filenames@.map_values(|f: String| f@);
    proof {
        assert(fs.skip(0) =~= fs);
    }
    let n = filenames.len();
    let mut i: usize = 0;
    while i < n
        invariant
            i <= n,
            n == filenames@.len(),
            fs == filenames@.map_values(|f: String| f@),
            spec_first_album_art_in_dir(fs, dir@) == spec_first_album_art_in_dir(
                fs.skip(i as int),
                dir@,
            ),
        decreases n - i,
    {
        proof {
            assert(fs.skip(i as int)[0] == fs[i as int]);
            assert(fs.skip(i as int).drop_first() =~= fs.skip(i + 1));
        }
        let f = &filenames[i];
        if is_image_file_album_art(f.as_str()) {
            let same_dir = match crate::paths::parent_of(f.as_str()) {
                Some(p) => crate::paths::str_eq(p.as_str(), dir),
                None => false,
            };
            if same_dir {
                return Some(f.clone());
            }
        }
        i = i + 1;
    }
    proof {
        assert(fs.skip(n as int).len() == 0);
    }
    None
}

/// The external album art that serves a song: a dedicated art file in the
/// song's own directory, or, failing that, in the directory above it.
pub open spec fn spec_external_art_for_song(
    filenames: Seq<Seq<char>>,
    song_path: Seq<char>,
) -> Option<Seq<char>> {
    match crate::paths::spec_parent_of(song_path) {
        Option::Some(dir) => match spec_first_album_art_in_dir(filenames, dir) {
            Option::Some(art) => Option::Some(art),
            Option::None => match crate::paths::spec_parent_of(dir) {
                Option::Some(up) => spec_first_album_art_in_dir(filenames, up),
                Option::None => Option::None,
            },
        },
        Option::None => Option::None,
    }
}

/// Finds the external album art that serves a song: art in its own
/// directory wins over art one directory up.
pub fn external_art_for_song(filenames: &Vec<String>, song_path: &str) -> (r: Option<String>)
    ensures
        r matches Some(p) ==> spec_external_art_for_song(
            filenames@.map_values(|f: String| f@),
            song_path@,
        ) == Some(p@),
        r is None ==> spec_external_art_for_song(filenames@.map_values(|f: String| f@), song_path@)
            is None,
{
    let dir = match crate::paths::parent_of(song_path) {
        Some(d) => d,
        None => {
            return None;
        }
    };
    if let Some(art) = first_album_art_in_dir(filenames, dir.as_str()) {
        return Some(art);
    }
    match crate::paths::parent_of(dir.as_str()) {
        Some(up) => first_album_art_in_dir(filenames, up.as_str()),
        None => None,
    }
}

/// Where a song's dedicated cover art file is mirrored to in the target
/// library: the art's library-relative path under the target root, or
/// `None` for a song without external art.
pub open spec fn spec_cover_art_target(
    song: crate::song::SongView,
    source_library: Seq<char>,
    target_library: Seq<char>,
) -> Option<Seq<char>> {
    match song.external_album_art {
        Option::Some(art) => Option::Some(
            spec_join_path(
                target_library,
                crate::paths::spec_library_relative_path(art, source_library),
            ),
        ),
        Option::None => Option::None,
    }
}

/// Computes where a song's dedicated cover art is to be copied to.
/// Whether and how to copy it is the caller's business.
pub fn dedicated_cover_art_target(
    song: &crate::song::Song,
    source_library: &str,
    target_library: &str,
) -> (r: Option<String>)
    requires
        song@.external_album_art matches Some(art) ==> crate::paths::spec_is_path_under(
            art,
            source_library@,
        ),
    ensures
        r matches Some(p) ==> spec_cover_art_target(song@, source_library@, target_library@)
            == Some(p@),
        r is None ==> spec_cover_art_target(song@, source_library@, target_library@) is None,
{
    let art = match &song.external_album_art {
        Some(a) => a,
        None => {
            return None;
        }
    };
    let relative = library_relative_path(art.as_str(), source_library);
    Some(join_path(target_library, relative.as_str()))
}

/// A failure while scanning or synchronising the library.
#[derive(Debug, Clone)]
pub enum MusicLibraryError {
    /// Could not generate a list of filenames in the source library.
    ListFilenames { msg: String },
    /// Tried to discover albums in something that is not a directory.
    NotADirectory { path: String },
    /// Could not process reading a directory.
    CouldNotProcessDir { path: String },
    /// Error in calling the transcoder.
    Ffmpeg { error: FfmpegError },
    /// The given target directory does not (yet) exist.
    TargetLibraryDoesNotExist { target_library: String },
    /// This output encoding is not yet supported as a target.
    OutputCodecNotYetImplemented,
    /// Could not hash a file.
    CantHash { path: String },
}

} // verus!
