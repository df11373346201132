//! YM files in LHA archives.
//!
//! YM files are distributed as LHA archives that hold the one file. The archive is unpacked
//! by the `delharc` crate; what it hands back is parsed by [`crate::ym::parse::parse_ym`].
//!
//! The time of the last change that the header of an archive gives is not read here: the
//! caller hands it in, and it is taken over where the data is an archive.
use chrono::NaiveDateTime;
use delharc::LhaDecodeReader;
use std::io::Read;
use vstd::prelude::*;

use crate::ym::parse::{parse_ym, parsed, EndTag, ParseError};
use crate::ym::playback::SongState;
use crate::ym::song::YmSong;
use crate::ym::YmVersion;

verus! {

/// What `delharc` makes of the start of `data`: nothing if it finds no LHA header there,
/// else whether it can unpack the file that the header describes.
pub uninterp spec fn lha_probed(data: Seq<u8>) -> Option<bool>;

/// The file that `delharc` unpacks from the archive `data`: the first one of the archive.
/// Nothing if there is no LHA header or the file cannot be unpacked.
pub uninterp spec fn lha_unpacked(data: Seq<u8>) -> Option<Seq<u8>>;

/// `LhaDecodeReader::new` and `LhaDecodeReader::is_decoder_supported`: reads the first
/// header of the archive. Returns `None` if there is none, else whether the compression
/// method that the header names is supported.
#[verifier::external_body]
fn lha_probe(data: &[u8]) -> (res: Option<bool>)
    ensures
        res == lha_probed(data@),
{
    match LhaDecodeReader::new(data) {
        Ok(lha) => Some(lha.is_decoder_supported()),
        Err(_) => None,
    }
}

/// `LhaHeader::parse_pathname`: the file name that the first header of the archive
/// gives, without its directories. How a path is split depends on the platform, so nothing
/// is claimed of the name. `None` where there is no header or no file name.
#[verifier::external_body]
fn lha_file_name(data: &[u8]) -> (res: Option<String>) {
    match LhaDecodeReader::new(data) {
        Ok(lha) => match lha.header().parse_pathname().file_name() {
            Some(name) => Some(name.to_string_lossy().into_owned()),
            None => None,
        },
        Err(_) => None,
    }
}

/// Reading an `LhaDecodeReader` to its end: unpacks the first file of the archive.
/// Returns `None` if there is no header or the data cannot be unpacked.
#[verifier::external_body]
fn lha_unpack(data: &[u8]) -> (res: Option<Vec<u8>>)
    ensures
        match res {
            Some(bytes) => lha_unpacked(data@) == Some(bytes@),
            None => lha_unpacked(data@) is None,
        },
{
    match LhaDecodeReader::new(data) {
        Ok(mut lha) => {
            let mut bytes = Vec::new();
            match lha.read_to_end(&mut bytes) {
                Ok(_) => Some(bytes),
                Err(_) => None,
            }
        },
        Err(_) => None,
    }
}

/// Whether `res` is what parsing says of a file: the song with the state and the end tag
/// that are `expected`, or the error.
pub open spec fn agrees(
    res: Result<(YmSong, EndTag), ParseError>,
    expected: Result<(SongState, EndTag), ParseError>,
) -> bool {
    match expected {
        Ok((state, end_tag)) => res matches Ok(found) && found.0@ == state && found.1 == end_tag,
        Err(e) => res matches Err(found) && found == e,
    }
}

/// Whether `res` is what parsing says of the file `data`, which was last changed at
/// `created`, for some title.
pub open spec fn agrees_on(
    res: Result<(YmSong, EndTag), ParseError>,
    data: Seq<u8>,
    created: Option<NaiveDateTime>,
) -> bool {
    exists|title: Seq<char>| agrees(res, #[trigger] parsed(data, title, created))
}

/// Whether `res` is what parsing says of a file, but for the end tag: the song with the
/// state that is `expected`, or the error.
pub open spec fn song_agrees(
    res: Result<YmSong, ParseError>,
    expected: Result<(SongState, EndTag), ParseError>,
) -> bool {
    match expected {
        Ok((state, _)) => res matches Ok(song) && song@ == state,
        Err(e) => res matches Err(found) && found == e,
    }
}

/// Whether `res` is what parsing says of the file `data`, which was last changed at
/// `created`, but for the end tag, for some title.
pub open spec fn song_agrees_on(
    res: Result<YmSong, ParseError>,
    data: Seq<u8>,
    created: Option<NaiveDateTime>,
) -> bool {
    exists|title: Seq<char>| song_agrees(res, #[trigger] parsed(data, title, created))
}

/// A song that is taken out of a result which agrees with what parsing says, agrees
/// with it but for the end tag.
proof fn lemma_song_agrees(
    res: Result<YmSong, ParseError>,
    full: Result<(YmSong, EndTag), ParseError>,
    data: Seq<u8>,
    created: Option<NaiveDateTime>,
)
    requires
        agrees_on(full, data, created),
        match full {
            Ok((song, _)) => res == Ok::<YmSong, ParseError>(song),
            Err(e) => res == Err::<YmSong, ParseError>(e),
        },
    ensures
        song_agrees_on(res, data, created),
{
    let title = choose|title: Seq<char>| agrees(full, #[trigger] parsed(data, title, created));
    assert(song_agrees(res, parsed(data, title, created)));
}

/// Unpacks the archive `data`, whose header names the title, and parses the file that it
/// holds. `created` is the time of the last change of that file.
fn parse_lha(data: &[u8], created: Option<NaiveDateTime>) -> (res: Result<
    (YmSong, EndTag),
    ParseError,
>)
    ensures
        match lha_unpacked(data@) {
            Some(bytes) => agrees_on(res, bytes, created),
            None => res matches Err(e) && e == ParseError::Archive,
        },
        res matches Ok(found) ==> found.0@.version == YmVersion::Ym2 || found.0@.wf(),
{
    let title = match lha_file_name(data) {
        Some(name) => name,
        None => String::new(),
    };
    match lha_unpack(data) {
        Some(bytes) => {
            let ghost given = title@;
            let res = parse_ym(bytes.as_slice(), title, created);
            assert(agrees(res, parsed(bytes@, given, created)));
            res
        },
        None => Err(ParseError::Archive),
    }
}

/// Parses a file that can be either an LHA archive or a plain YM file.
///
/// The data is taken for an archive if it starts with an LHA header whose compression
/// method is supported. The title of the song is then the file name that the header gives,
/// and else `file_name`, if the YM file names none. `created` is the time of the last change
/// that the header of the archive gives; it is taken over if the data is an archive.
///
/// Returns the song and what was found in place of the tag `End!`.
pub fn parse_any_tagged(data: &[u8], file_name: String, created: Option<NaiveDateTime>) -> (res:
    Result<(YmSong, EndTag), ParseError>)
    ensures
        match lha_probed(data@) {
            Some(true) => match lha_unpacked(data@) {
                Some(bytes) => agrees_on(res, bytes, created),
                None => res matches Err(e) && e == ParseError::Archive,
            },
            _ => agrees(res, parsed(data@, file_name@, None)),
        },
        res matches Ok(found) ==> found.0@.version == YmVersion::Ym2 || found.0@.wf(),
{
    match lha_probe(data) {
        Some(true) => parse_lha(data, created),
        _ => parse_ym(data, file_name, None),
    }
}

/// Parses a YM file in an LHA archive. `created` is the time of the last change that the
/// header of the archive gives.
///
/// Returns the song and what was found in place of the tag `End!`.
pub fn parse_packed_tagged(data: &[u8], created: Option<NaiveDateTime>) -> (res: Result<
    (YmSong, EndTag),
    ParseError,
>)
    ensures
        match (lha_probed(data@), lha_unpacked(data@)) {
            (Some(_), Some(bytes)) => agrees_on(res, bytes, created),
            _ => res matches Err(e) && e == ParseError::Archive,
        },
        res matches Ok(found) ==> found.0@.version == YmVersion::Ym2 || found.0@.wf(),
{
    match lha_probe(data) {
        Some(_) => parse_lha(data, created),
        None => Err(ParseError::Archive),
    }
}

impl YmSong {
    /// Attempts to parse an YM-file that can be either compressed or uncompressed, from the
    /// given `data`.
    ///
    /// Provide `file_name` which will be used as a fallback song title, and as `created`
    /// the time of the last change that the header of the archive gives, if the data is an
    /// archive.
    ///
    /// Returns an instance of `YmSong` on success: the song that [`parse_any_tagged`]
    /// returns.
    pub fn parse_any(data: &[u8], file_name: String, created: Option<NaiveDateTime>) -> (res:
        Result<YmSong, ParseError>)
        ensures
            match lha_probed(data@) {
                Some(true) => match lha_unpacked(data@) {
                    Some(bytes) => song_agrees_on(res, bytes, created),
                    None => res matches Err(e) && e == ParseError::Archive,
                },
                _ => song_agrees(res, parsed(data@, file_name@, None)),
            },
            res matches Ok(song) ==> song@.version == YmVersion::Ym2 || song@.wf(),
    {
        let full = parse_any_tagged(data, file_name, created);
        let res = match full {
            Ok((song, _)) => Ok(song),
            Err(e) => Err(e),
        };
        proof {
            if lha_probed(data@) == Some(true) {
                if let Some(bytes) = lha_unpacked(data@) {
                    lemma_song_agrees(res, full, bytes, created);
                }
            }
        }
        res
    }

    /// Attempts to parse a compressed YM-file from the given `data`. `created` is the time
    /// of the last change that the header of the archive gives.
    ///
    /// Returns an instance of `YmSong` on success: the song that [`parse_packed_tagged`]
    /// returns.
    pub fn parse(data: &[u8], created: Option<NaiveDateTime>) -> (res: Result<YmSong, ParseError>)
        ensures
            match (lha_probed(data@), lha_unpacked(data@)) {
                (Some(_), Some(bytes)) => song_agrees_on(res, bytes, created),
                _ => res matches Err(e) && e == ParseError::Archive,
            },
            res matches Ok(song) ==> song@.version == YmVersion::Ym2 || song@.wf(),
    {
        let full = parse_packed_tagged(data, created);
        let res = match full {
            Ok((song, _)) => Ok(song),
            Err(e) => Err(e),
        };
        proof {
            if lha_probed(data@) is Some {
                if let Some(bytes) = lha_unpacked(data@) {
                    lemma_song_agrees(res, full, bytes, created);
                }
            }
        }
        res
    }
}

} // verus!
