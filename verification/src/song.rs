//! One discovered library item and its metadata.

use crate::ffmpeg_interface::{SongMetaData, SongMetaDataView};
use crate::music_library::{ArtworkType, MusicLibraryError};
use crate::paths::{
    library_relative_path_str, parent_of, spec_is_path_under, spec_library_relative_path,
    spec_parent_of,
};
use vstd::prelude::*;

verus! {

/// One discovered library item.  Immutable once constructed; it is rebuilt
/// fresh every run from the disk scan and the metadata prober.
#[derive(Debug)]
pub struct Song {
    /// Where the original song file can be found.
    pub absolute_path: String,
    /// The location of the song file relative to the source library;
    /// the stable identity key of the song.
    pub library_relative_path: String,
    /// Where the external album art is, if it exists.
    pub external_album_art: Option<String>,
    pub metadata: SongMetaData,
}

/// The mathematical content of a [`Song`].
pub struct SongView {
    pub absolute_path: Seq<char>,
    pub library_relative_path: Seq<char>,
    pub external_album_art: Option<Seq<char>>,
    pub metadata: SongMetaDataView,
}

impl View for Song {
    type V = SongView;

    open spec fn view(&self) -> SongView {
        SongView {
            absolute_path: self.absolute_path@,
            library_relative_path: self.library_relative_path@,
            external_album_art: match self.external_album_art {
                Option::Some(p) => Option::Some(p@),
                Option::None => Option::None,
            },
            metadata: self.metadata@,
        }
    }
}

/// Which kind of artwork a song offers: a dedicated external file wins over
/// embedded art, and embedded art over nothing.
pub open spec fn spec_artwork_type(song: SongView) -> ArtworkType {
    if song.external_album_art is Some {
        ArtworkType::External
    } else if song.metadata.has_embedded_album_art {
        ArtworkType::Embedded
    } else {
        ArtworkType::NoArt
    }
}

impl Song {
    /// Creates a new song from its path, its source library, any external
    /// album art found next to it, and the metadata the prober reported.
    pub fn new(
        path: String,
        source_library: String,
        external_album_art: Option<String>,
        metadata: SongMetaData,
    ) -> (r: Result<Song, MusicLibraryError>)
        requires
            spec_is_path_under(path@, source_library@),
        ensures
            r matches Ok(song) && song@.absolute_path == path@ && song@.library_relative_path
                == spec_library_relative_path(path@, source_library@) && song@.external_album_art
                == (match external_album_art {
                Option::Some(p) => Option::Some(p@),
                Option::None => Option::None::<Seq<char>>,
            }) && song@.metadata == metadata@,
    {
        let library_relative_path = library_relative_path_str(path.as_str(), source_library.as_str());
        Ok(
            Song {
                absolute_path: path,
                library_relative_path,
                external_album_art,
                metadata,
            },
        )
    }

    /// Does the song have artwork information, and of which kind?
    pub fn has_artwork(&self) -> (r: ArtworkType)
        ensures
            r == spec_artwork_type(self@),
    {
        if self.external_album_art.is_some() {
            return ArtworkType::External;
        }
        if self.metadata.has_embedded_album_art {
            ArtworkType::Embedded
        } else {
            ArtworkType::NoArt
        }
    }

    /// Shorthand for creating a new Song.  Sets the library as the
    /// directory the file is in directly (no nesting).
    pub fn new_debug(path: String, external_album_art: Option<String>, metadata: SongMetaData) -> (r:
        Result<Song, MusicLibraryError>)
        requires
            spec_parent_of(path@) is Some,
            spec_is_path_under(path@, spec_parent_of(path@).unwrap()),
        ensures
            r matches Ok(song) && song@.absolute_path == path@ && song@.library_relative_path
                == spec_library_relative_path(path@, spec_parent_of(path@).unwrap())
                && song@.external_album_art == (match external_album_art {
                Option::Some(p) => Option::Some(p@),
                Option::None => Option::None::<Seq<char>>,
            }) && song@.metadata == metadata@,
    {
        let parent_directory = match parent_of(path.as_str()) {
            Some(p) => p,
            None => {
                return Err(MusicLibraryError::CouldNotProcessDir { path });
            }
        };
        Song::new(path, parent_directory, external_album_art, metadata)
    }
}

} // verus!
