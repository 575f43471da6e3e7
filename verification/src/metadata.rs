//! Display metadata of a track, with the fallback rules applied when the
//! container carries no tags. Reading the tags themselves is I/O and lives
//! with the embedding program; this module only decides what is displayed.

use vstd::prelude::*;

verus! {

/// Title, artist and album shown for the loaded track.
pub struct TrackInfo {
    pub title: String,
    pub artist: String,
    pub album: String,
}

/// ASCII lowercasing of one byte (65 ..= 90 are `A` ..= `Z`); other bytes
/// are unchanged.
pub open spec fn ascii_lower(b: u8) -> u8 {
    if 65 <= b && b <= 90 {
        (b + 32) as u8
    } else {
        b
    }
}

/// The extension names an MPEG audio file, compared without regard to
/// ASCII case: `mp3`, `MP3`, `Mp3`, ... (109, 112 and 51 are `m`, `p`, `3`).
pub open spec fn is_mp3_ext_spec(ext: Seq<u8>) -> bool {
    &&& ext.len() == 3
    &&& ascii_lower(ext[0]) == 109
    &&& ascii_lower(ext[1]) == 112
    &&& ascii_lower(ext[2]) == 51
}

/// ASCII lowercasing of one byte.
fn ascii_lower_byte(b: u8) -> (r: u8)
    ensures
        r == ascii_lower(b),
{
    if 65 <= b && b <= 90 {
        b + 32
    } else {
        b
    }
}

/// Whether a file extension, given as bytes, names an MPEG audio file.
/// Decides whether the dedicated MPEG tag reader is tried before the
/// generic container probe.
pub fn is_mp3_extension(ext: &[u8]) -> (r: bool)
    ensures
        r == is_mp3_ext_spec(ext@),
{
    if ext.len() != 3 {
        return false;
    }
    ascii_lower_byte(ext[0]) == 109 && ascii_lower_byte(ext[1]) == 112
        && ascii_lower_byte(ext[2]) == 51
}

impl TrackInfo {
    /// What is shown before any track is loaded.
    pub fn initial() -> (info: TrackInfo)
        ensures
            info.title@ == "No track loaded"@,
            info.artist@ == ""@,
            info.album@ == ""@,
    {
        TrackInfo {
            title: "No track loaded".to_owned(),
            artist: "".to_owned(),
            album: "".to_owned(),
        }
    }

    /// Resolve the displayed fields from the tag values that could be read:
    /// a missing title falls back to the file name, and failing that to a
    /// placeholder; missing artist and album fall back to placeholders.
    pub fn resolve(
        file_name: Option<String>,
        title: Option<String>,
        artist: Option<String>,
        album: Option<String>,
    ) -> (info: TrackInfo)
        ensures
            info.title@ == (match title {
                Some(t) => t@,
                None => match file_name {
                    Some(f) => f@,
                    None => "Unknown"@,
                },
            }),
            info.artist@ == (match artist {
                Some(a) => a@,
                None => "Unknown Artist"@,
            }),
            info.album@ == (match album {
                Some(a) => a@,
                None => "Unknown Album"@,
            }),
    {
        TrackInfo {
            title: match title {
                Some(t) => t,
                None => match file_name {
                    Some(f) => f,
                    None => "Unknown".to_owned(),
                },
            },
            artist: match artist {
                Some(a) => a,
                None => "Unknown Artist".to_owned(),
            },
            album: match album {
                Some(a) => a,
                None => "Unknown Album".to_owned(),
            },
        }
    }
}

} // verus!
