use chrono::{NaiveDate, NaiveDateTime};
use ym_file_parser::{ParseError, YmSong, YmVersion};

fn new_year() -> Option<NaiveDateTime> {
    Some(NaiveDate::from_ymd_opt(1980, 1, 1).unwrap().and_hms_opt(0, 0, 0).unwrap())
}

/// An archive that holds the one file `content` under the given method, without compression.
fn archive(method: &[u8; 5], name: &[u8], content: &[u8], stored: usize) -> Vec<u8> {
    let mut header = method.to_vec();
    header.extend_from_slice(&(content.len() as u32).to_le_bytes());
    header.extend_from_slice(&(content.len() as u32).to_le_bytes());
    // 1980-01-01 00:00:00 as an MS-DOS date and time
    header.extend_from_slice(&0x0021_0000u32.to_le_bytes());
    header.push(0x20);
    header.push(0);
    header.push(name.len() as u8);
    header.extend_from_slice(name);
    header.extend_from_slice(&[0, 0]);
    let sum = header.iter().fold(0u8, |sum, byte| sum.wrapping_add(*byte));
    let mut data = vec![header.len() as u8, sum];
    data.extend_from_slice(&header);
    data.extend_from_slice(&content[..stored]);
    data
}

fn ym3_file() -> Vec<u8> {
    let mut data = b"YM3b".to_vec();
    data.extend((0..28u8).map(|i| i + 1));
    data.extend_from_slice(&[0, 0, 0, 1]);
    data
}

#[test]
fn archive_is_unpacked() {
    let file = ym3_file();
    let packed = archive(b"-lh0-", b"song.ym", &file, file.len());
    let song = YmSong::parse(&packed, new_year()).unwrap();
    assert_eq!(song.version, YmVersion::Ym3);
    assert_eq!(song.title, "song.ym");
    assert_eq!(song.created, new_year());
    assert_eq!(song.frames.len(), 2);
    assert_eq!(song.frames[0].data[0], 1);
    assert_eq!(song.frames[1].data[0], 2);
    assert_eq!(song.frames[1].data[13], 28);
    assert_eq!(song.loop_frame, 1);

    let song = YmSong::parse_any(&packed, String::from("fallback"), new_year()).unwrap();
    assert_eq!(song.title, "song.ym");
    assert_eq!(song.frames.len(), 2);
    assert_eq!(song.created, new_year());
    let song = YmSong::parse_any(&packed, String::from("fallback"), None).unwrap();
    assert_eq!(song.created, None);
}

#[test]
fn archive_title_is_the_file_name_without_directories() {
    let file = ym3_file();
    let packed = archive(b"-lh0-", b"music/deep/tune.ym", &file, file.len());
    let song = YmSong::parse(&packed, None).unwrap();
    assert_eq!(song.title, "tune.ym");
}

#[test]
fn plain_file_is_taken_as_it_is() {
    let file = ym3_file();
    // the time belongs to an archive: a plain file has none
    let song = YmSong::parse_any(&file, String::from("fallback"), new_year()).unwrap();
    assert_eq!(song.title, "fallback");
    assert_eq!(song.created, None);
    assert_eq!(song.frames.len(), 2);
    assert_eq!(YmSong::parse(&file, None).unwrap_err(), ParseError::Archive);
    assert_eq!(YmSong::parse(&[], None).unwrap_err(), ParseError::Archive);
    assert_eq!(
        YmSong::parse_any(&[], String::new(), None).unwrap_err(),
        ParseError::UnexpectedEof
    );
    assert_eq!(ParseError::Archive.message(), "LHA decode error");
}

#[test]
fn archive_of_something_else_is_refused_as_what_it_holds() {
    let packed = archive(b"-lh0-", b"readme.txt", b"hello world", 11);
    assert_eq!(YmSong::parse(&packed, None).unwrap_err(), ParseError::UnrecognizedSignature);
    assert_eq!(
        YmSong::parse_any(&packed, String::new(), None).unwrap_err(),
        ParseError::UnrecognizedSignature
    );
    let packed = archive(b"-lh0-", b"short.ym", b"YM3!", 4);
    assert_eq!(YmSong::parse(&packed, None).unwrap_err(), ParseError::NoYmData);
}

#[test]
fn damaged_archive_is_refused() {
    let file = ym3_file();
    let packed = archive(b"-lh0-", b"song.ym", &file, file.len() - 5);
    assert_eq!(YmSong::parse(&packed, None).unwrap_err(), ParseError::Archive);
    assert_eq!(
        YmSong::parse_any(&packed, String::new(), None).unwrap_err(),
        ParseError::Archive
    );
}

#[test]
fn archive_with_an_unknown_method_is_not_unpacked() {
    let file = ym3_file();
    let packed = archive(b"-zz9-", b"song.ym", &file, file.len());
    assert_eq!(YmSong::parse(&packed, None).unwrap_err(), ParseError::Archive);
    // taken as a plain file, it does not start with a signature
    assert_eq!(
        YmSong::parse_any(&packed, String::new(), None).unwrap_err(),
        ParseError::UnrecognizedSignature
    );
}
