use ym_file_parser::flags::SongAttributes;
use ym_file_parser::ym::parse::read_song_end_tag;
use ym_file_parser::ym::song::unpack_ym2_samples;
use ym_file_parser::{parse_ym, EndTag, ParseError, YmSong, YmVersion};

fn early_file(signature: &[u8], frames: &[[u8; 14]], loop_frame: Option<u32>) -> Vec<u8> {
    let mut data = signature.to_vec();
    for reg in 0..14 {
        for frame in frames {
            data.push(frame[reg]);
        }
    }
    if let Some(index) = loop_frame {
        data.extend_from_slice(&index.to_be_bytes());
    }
    data
}

struct Later {
    signature: &'static [u8],
    nframes: u32,
    attrs: u32,
    chipset: u32,
    frame_frequency: u16,
    loop_frame: u32,
    extra: u16,
    samples: Vec<Vec<u8>>,
    title: &'static [u8],
    author: &'static [u8],
    comments: &'static [u8],
    frames: Vec<u8>,
    end: &'static [u8],
}

fn later() -> Later {
    Later {
        signature: b"YM5!",
        nframes: 2,
        attrs: 0,
        chipset: 1_000_000,
        frame_frequency: 60,
        loop_frame: 1,
        extra: 0,
        samples: Vec::new(),
        title: b"Title\0",
        author: b"Author\0",
        comments: b"Comments\0",
        frames: (0u8..32).collect(),
        end: b"End!",
    }
}

fn later_file(file: &Later) -> Vec<u8> {
    let mut data = file.signature.to_vec();
    data.extend_from_slice(b"LeOnArD!");
    data.extend_from_slice(&file.nframes.to_be_bytes());
    data.extend_from_slice(&file.attrs.to_be_bytes());
    data.extend_from_slice(&(file.samples.len() as u16).to_be_bytes());
    if file.signature != b"YM4!" {
        data.extend_from_slice(&file.chipset.to_be_bytes());
        data.extend_from_slice(&file.frame_frequency.to_be_bytes());
    }
    data.extend_from_slice(&file.loop_frame.to_be_bytes());
    if file.signature != b"YM4!" {
        data.extend_from_slice(&file.extra.to_be_bytes());
    }
    for sample in file.samples.iter() {
        data.extend_from_slice(&(sample.len() as u32).to_be_bytes());
        data.extend_from_slice(sample);
    }
    data.extend_from_slice(file.title);
    data.extend_from_slice(file.author);
    data.extend_from_slice(file.comments);
    data.extend_from_slice(&file.frames);
    data.extend_from_slice(file.end);
    data
}

fn error_of(data: &[u8]) -> ParseError {
    YmSong::parse_unpacked(data, String::from("name")).unwrap_err()
}

#[test]
fn minimal_ym3_file() {
    let data = early_file(b"YM3!", &[[0u8; 14]], None);
    assert_eq!(data.len(), 18);
    let song = YmSong::parse_unpacked(&data, String::from("silence")).unwrap();
    assert_eq!(song.version, YmVersion::Ym3);
    assert_eq!(song.frames.len(), 1);
    assert_eq!(song.frames[0].data, [0u8; 16]);
    assert_eq!(song.loop_frame, 0);
    assert_eq!(song.title, "silence");
    assert_eq!(song.author, "");
    assert_eq!(song.comments, "");
    assert_eq!(song.created, None);
    assert_eq!(song.chipset_frequency, 2_000_000);
    assert_eq!(song.frame_frequency, 50);
    assert_eq!(song.song_attrs, SongAttributes::empty());
    assert!(song.dd_samples.is_empty());
    assert_eq!(song.dd_samples_ends, [0usize; 32]);
    assert_eq!(song.cursor(), 0);
    assert_eq!(song.clock_frequency(), 2_000_000);
    assert_eq!(song.song_duration(), 20_000_000);
}

#[test]
fn ym3_frames_are_stored_register_by_register() {
    let mut first = [0u8; 14];
    let mut second = [0u8; 14];
    let mut third = [0u8; 14];
    for reg in 0..14 {
        first[reg] = reg as u8;
        second[reg] = 0x40 + reg as u8;
        third[reg] = 0x80 + reg as u8;
    }
    let data = early_file(b"YM3!", &[first, second, third], None);
    assert_eq!(&data[4..10], &[0, 0x40, 0x80, 1, 0x41, 0x81]);
    let (song, end_tag) = parse_ym(&data, String::from("t"), None).unwrap();
    assert_eq!(end_tag, EndTag::NotExpected);
    assert_eq!(song.frames.len(), 3);
    assert_eq!(song.frames[0].data, [0, 1, 2, 3, 4, 5, 6, 7, 8, 9, 10, 11, 12, 13, 0, 0]);
    assert_eq!(song.frames[1].data[3], 0x43);
    assert_eq!(song.frames[2].data[13], 0x8d);
    assert_eq!(song.frames[2].data[14], 0);
    assert_eq!(song.loop_frame, 0);
    assert_eq!(song.song_duration(), 60_000_000);
}

#[test]
fn ym3b_file_ends_with_its_loop_frame() {
    let data = early_file(b"YM3b", &[[1u8; 14], [2u8; 14]], Some(0x0102_0304));
    let song = YmSong::parse_unpacked(&data, String::from("t")).unwrap();
    assert_eq!(song.version, YmVersion::Ym3);
    assert_eq!(song.frames.len(), 2);
    assert_eq!(song.loop_frame, 0x0102_0304);
    let data = early_file(b"YM3!", &[[1u8; 14], [2u8; 14]], Some(1));
    let song = YmSong::parse_unpacked(&data, String::from("t")).unwrap();
    assert_eq!(song.loop_frame, 1);
}

#[test]
fn ym2_file_is_laid_out_like_ym3() {
    let data = early_file(b"YM2!", &[[7u8; 14]], None);
    let song = YmSong::parse_unpacked(&data, String::from("t")).unwrap();
    assert_eq!(song.version, YmVersion::Ym2);
    assert_eq!(song.frames.len(), 1);
    assert_eq!(song.frames[0].data[13], 7);
    assert_eq!(song.frames[0].data[15], 0);
    assert!(song.dd_samples.is_empty());
    let song = song.with_ym2_samples(&[0x12, 0xab, 0xf0]);
    assert_eq!(song.dd_samples, vec![1, 2, 0xa, 0xb, 0xf, 0]);
}

#[test]
fn ym3_without_frames_has_no_data() {
    assert_eq!(error_of(b"YM3!"), ParseError::NoYmData);
    assert_eq!(error_of(b"YM3b\0\0\0\x01"), ParseError::NoYmData);
    assert_eq!(error_of(b"YM2!"), ParseError::NoYmData);
    assert_eq!(ParseError::NoYmData.message(), "no YM data");
    assert!(!ParseError::NoYmData.is_unexpected_eof());
}

#[test]
fn ym3_of_a_wrong_size_is_refused() {
    for extra in [1usize, 2, 3, 5, 6, 7, 8, 9, 10, 11, 12, 13] {
        let mut data = early_file(b"YM3!", &[[0u8; 14]], None);
        data.extend(std::iter::repeat(0u8).take(extra));
        assert_eq!(error_of(&data), ParseError::WrongFileSize);
        assert_eq!(error_of(&data[0..4 + extra]), ParseError::WrongFileSize);
    }
    assert_eq!(ParseError::WrongFileSize.message(), "wrong file size");
}

#[test]
fn signatures() {
    assert_eq!(error_of(b""), ParseError::UnexpectedEof);
    assert_eq!(error_of(b"YM3"), ParseError::UnexpectedEof);
    assert_eq!(error_of(b"YM1!"), ParseError::UnrecognizedSignature);
    assert_eq!(error_of(b"YM7!"), ParseError::UnrecognizedSignature);
    assert_eq!(error_of(b"YM2b"), ParseError::UnrecognizedSignature);
    assert_eq!(error_of(b"ym3!"), ParseError::UnrecognizedSignature);
    assert_eq!(error_of(b"XM3!0123456789abcd"), ParseError::UnrecognizedSignature);
    assert_eq!(ParseError::UnrecognizedSignature.message(), "unrecognized file signature");
    assert_eq!(ParseError::UnexpectedEof.message(), "failed to fill whole buffer");
    assert!(ParseError::UnexpectedEof.is_unexpected_eof());
    assert!(ParseError::EndedPrematurely.is_unexpected_eof());
    assert!(!ParseError::Archive.is_unexpected_eof());
}

#[test]
fn ym5_file() {
    let mut file = later();
    file.samples = vec![vec![0x10, 0x2f, 0xff], vec![], vec![0x80]];
    let data = later_file(&file);
    let (song, end_tag) = parse_ym(&data, String::from("fallback"), None).unwrap();
    assert_eq!(end_tag, EndTag::Found);
    assert_eq!(song.version, YmVersion::Ym5);
    assert_eq!(song.title, "Title");
    assert_eq!(song.author, "Author");
    assert_eq!(song.comments, "Comments");
    assert_eq!(song.chipset_frequency, 1_000_000);
    assert_eq!(song.frame_frequency, 60);
    assert_eq!(song.loop_frame, 1);
    assert_eq!(song.song_attrs.bits(), 0);
    assert_eq!(song.frames.len(), 2);
    assert_eq!(song.frames[0].data, [0, 1, 2, 3, 4, 5, 6, 7, 8, 9, 10, 11, 12, 13, 14, 15]);
    assert_eq!(song.frames[1].data[0], 16);
    assert_eq!(song.frames[1].data[15], 31);
    assert_eq!(song.dd_samples, vec![1, 2, 0xf, 8]);
    let mut ends = [0usize; 32];
    ends[0] = 3;
    ends[1] = 3;
    ends[2] = 4;
    assert_eq!(song.dd_samples_ends, ends);
    assert_eq!(song.sample_data_range(0), 0..3);
    assert_eq!(song.sample_data_range(1), 3..3);
    assert_eq!(song.sample_data_range(2), 3..4);
    assert_eq!(song.sample_data_range(3), 4..0);
    assert_eq!(song.song_duration(), 33_333_333);
    assert_eq!(song.clock_frequency(), 1_000_000);
}

#[test]
fn ym6_file_with_interleaved_frames() {
    let mut file = later();
    file.signature = b"YM6!";
    file.attrs = 1;
    file.nframes = 2;
    let data = later_file(&file);
    let song = YmSong::parse_unpacked(&data, String::from("fallback")).unwrap();
    assert_eq!(song.version, YmVersion::Ym6);
    assert!(song.song_attrs.is_interleaved());
    assert_eq!(
        song.frames[0].data,
        [0, 2, 4, 6, 8, 10, 12, 14, 16, 18, 20, 22, 24, 26, 28, 30]
    );
    assert_eq!(
        song.frames[1].data,
        [1, 3, 5, 7, 9, 11, 13, 15, 17, 19, 21, 23, 25, 27, 29, 31]
    );
}

#[test]
fn ym4_file_has_no_frequencies() {
    let mut file = later();
    file.signature = b"YM4!";
    file.loop_frame = 0;
    let data = later_file(&file);
    let song = YmSong::parse_unpacked(&data, String::from("fallback")).unwrap();
    assert_eq!(song.version, YmVersion::Ym4);
    assert_eq!(song.title, "Title");
    assert_eq!(song.chipset_frequency, 2_000_000);
    assert_eq!(song.frame_frequency, 50);
    assert_eq!(song.loop_frame, 0);
    assert_eq!(song.frames.len(), 2);
    assert_eq!(song.frames[1].data[1], 17);
}

#[test]
fn sample_attributes() {
    let mut file = later();
    file.samples = vec![vec![0x00, 0x7f, 0x80, 0xff, 0x12]];
    file.attrs = 0;
    let song = YmSong::parse_unpacked(&later_file(&file), String::new()).unwrap();
    assert_eq!(song.dd_samples, vec![0x0, 0x7, 0x8, 0xf, 0x1]);
    file.attrs = 2;
    let song = YmSong::parse_unpacked(&later_file(&file), String::new()).unwrap();
    assert!(song.song_attrs.is_signed());
    assert_eq!(song.dd_samples, vec![0x8, 0xf, 0x0, 0x7, 0x9]);
    file.attrs = 4;
    let song = YmSong::parse_unpacked(&later_file(&file), String::new()).unwrap();
    assert!(song.song_attrs.is_4bit());
    assert_eq!(song.dd_samples, vec![0x00, 0x7f, 0x80, 0xff, 0x12]);
    file.attrs = 6;
    let song = YmSong::parse_unpacked(&later_file(&file), String::new()).unwrap();
    assert_eq!(song.dd_samples, vec![0x00, 0x7f, 0x80, 0xff, 0x12]);
    file.attrs = 0xffff_fff8;
    let song = YmSong::parse_unpacked(&later_file(&file), String::new()).unwrap();
    assert_eq!(song.song_attrs.bits(), 0);
}

#[test]
fn header_errors() {
    let mut file = later();
    file.frame_frequency = 0;
    assert_eq!(error_of(&later_file(&file)), ParseError::FramePeriodZero);
    assert_eq!(ParseError::FramePeriodZero.message(), "frame period must not be 0");
    file.chipset = 0;
    assert_eq!(error_of(&later_file(&file)), ParseError::ChipsetPeriodZero);
    assert_eq!(ParseError::ChipsetPeriodZero.message(), "chipset period must not be 0");

    let mut file = later();
    file.extra = 1;
    assert_eq!(error_of(&later_file(&file)), ParseError::UnknownHeaderData);
    assert_eq!(ParseError::UnknownHeaderData.message(), "unknown additional header data");

    let mut file = later();
    file.nframes = 0;
    assert_eq!(error_of(&later_file(&file)), ParseError::NoYmData);

    let mut file = later();
    file.samples = vec![Vec::new(); 33];
    assert_eq!(error_of(&later_file(&file)), ParseError::TooManyDigiDrumSamples);
    assert_eq!(ParseError::TooManyDigiDrumSamples.message(), "too many digi-drum samples");
    file.samples = vec![Vec::new(); 32];
    assert!(YmSong::parse_unpacked(&later_file(&file), String::new()).is_ok());

    let mut data = later_file(&later());
    data[7] = b'x';
    assert_eq!(error_of(&data), ParseError::UnrecognizedVerifySignature);
    assert_eq!(
        ParseError::UnrecognizedVerifySignature.message(),
        "unrecognized file verify signature"
    );
}

#[test]
fn truncated_files() {
    let mut file = later();
    file.samples = vec![vec![1, 2, 3, 4]];
    let data = later_file(&file);
    // the header ends at 34, the sample at 42, the texts at 64, the frames at 96
    assert_eq!(data.len(), 100);
    for len in 4..34 {
        assert_eq!(error_of(&data[..len]), ParseError::UnexpectedEof, "{}", len);
    }
    for len in 34..38 {
        assert_eq!(error_of(&data[..len]), ParseError::UnexpectedEof, "{}", len);
    }
    for len in 38..43 {
        assert_eq!(error_of(&data[..len]), ParseError::EndedPrematurely, "{}", len);
    }
    assert_eq!(ParseError::EndedPrematurely.message(), "file ended prematurely");
    // a text that is cut short loses its last byte, and the next text is missing
    for len in 43..49 {
        assert_eq!(error_of(&data[..len]), ParseError::EndedPrematurely, "{}", len);
    }
    assert_eq!(error_of(&data[..55]), ParseError::EndedPrematurely);
    // once the comments have begun the texts are there, and the frames are missed
    for len in 56..96 {
        assert_eq!(error_of(&data[..len]), ParseError::UnexpectedEof, "{}", len);
    }
    for len in 96..100 {
        let (song, end_tag) = parse_ym(&data[..len], String::new(), None).unwrap();
        assert_eq!(end_tag, EndTag::Missing);
        assert_eq!(song.frames.len(), 2);
    }
}

#[test]
fn unterminated_comment_loses_its_last_byte() {
    let mut file = later();
    file.nframes = 1;
    file.comments = b"Comments";
    file.frames = Vec::new();
    file.end = b"";
    file.attrs = 1;
    let data = later_file(&file);
    let (song, end_tag) = parse_ym(&data, String::new(), None).unwrap();
    assert_eq!(song.comments, "Comment");
    assert_eq!(end_tag, EndTag::Missing);
    assert_eq!(song.frames.len(), 1);
    assert_eq!(song.frames[0].data, [0u8; 16]);
}

#[test]
fn interleaved_frames_that_are_cut_short_read_as_zero() {
    let mut file = later();
    file.attrs = 1;
    file.nframes = 2;
    file.frames = vec![1, 2, 3, 4, 5];
    file.end = b"";
    let data = later_file(&file);
    let (song, end_tag) = parse_ym(&data, String::new(), None).unwrap();
    assert_eq!(end_tag, EndTag::Missing);
    assert_eq!(song.frames[0].data, [1, 3, 5, 0, 0, 0, 0, 0, 0, 0, 0, 0, 0, 0, 0, 0]);
    assert_eq!(song.frames[1].data, [2, 4, 0, 0, 0, 0, 0, 0, 0, 0, 0, 0, 0, 0, 0, 0]);
}

#[test]
fn end_tag_is_not_required() {
    let mut file = later();
    file.end = b"end!";
    let (_, end_tag) = parse_ym(&later_file(&file), String::new(), None).unwrap();
    assert_eq!(end_tag, EndTag::Wrong);
    file.end = b"End";
    let (_, end_tag) = parse_ym(&later_file(&file), String::new(), None).unwrap();
    assert_eq!(end_tag, EndTag::Missing);
    file.end = b"End!!";
    let (_, end_tag) = parse_ym(&later_file(&file), String::new(), None).unwrap();
    assert_eq!(end_tag, EndTag::Found);
}

#[test]
fn texts_are_decoded_leniently() {
    let mut file = later();
    file.title = b"Caf\xc3\xa9\0";
    file.author = b"a\xffb\0";
    file.comments = b"\0";
    let song = YmSong::parse_unpacked(&later_file(&file), String::new()).unwrap();
    assert_eq!(song.title, "Caf\u{e9}");
    assert_eq!(song.author, "a\u{fffd}b");
    assert_eq!(song.comments, "");
}

#[test]
fn parsed_songs_keep_their_samples_within_bounds() {
    let mut file = later();
    file.samples = vec![vec![1; 10], vec![2; 5], vec![], vec![3; 7]];
    let song = YmSong::parse_unpacked(&later_file(&file), String::new()).unwrap();
    assert!(song.frames.len() >= 1);
    for end in song.dd_samples_ends.iter() {
        assert!(*end <= song.dd_samples.len());
    }
    assert_eq!(&song.dd_samples_ends[0..5], &[10, 15, 15, 22, 0]);
}

#[test]
fn end_tag_is_looked_for_where_it_is_told() {
    assert_eq!(read_song_end_tag(b"End!", 0), EndTag::Found);
    assert_eq!(read_song_end_tag(b"xxEnd!yy", 2), EndTag::Found);
    assert_eq!(read_song_end_tag(b"xxEnd!yy", 1), EndTag::Wrong);
    assert_eq!(read_song_end_tag(b"xxEnd!yy", 4), EndTag::Wrong);
    assert_eq!(read_song_end_tag(b"xxEnd!yy", 5), EndTag::Missing);
    assert_eq!(read_song_end_tag(b"xxEnd!yy", 8), EndTag::Missing);
    assert_eq!(read_song_end_tag(b"", 0), EndTag::Missing);
}

#[test]
fn packed_samples_are_split_into_nibbles() {
    assert_eq!(unpack_ym2_samples(&[]), Vec::<u8>::new());
    assert_eq!(unpack_ym2_samples(&[0x00, 0xff, 0x1e, 0xa5]), vec![0, 0, 0xf, 0xf, 1, 0xe, 0xa, 5]);
}
