use ym_file_parser::flags::SongAttributes;
use ym_file_parser::ym::effects::{RegChange, FRAME_SPAN};
use ym_file_parser::ym::parse::parse_ym3;
use ym_file_parser::ParseError;
use ym_file_parser::{YmFrame, YmSong, YmVersion};

fn frame(regs: &[(usize, u8)]) -> YmFrame {
    let mut data = [0u8; 16];
    for (reg, value) in regs {
        data[*reg] = *value;
    }
    YmFrame { data }
}

fn song(version: YmVersion, frames: Vec<YmFrame>, loop_frame: u32) -> YmSong {
    YmSong::new(version, frames, loop_frame, String::from("test"), None)
}

fn ramp(len: usize) -> Vec<u8> {
    (0..len).map(|i| (i % 16) as u8).collect()
}

fn with_one_sample(song: YmSong, len: usize) -> YmSong {
    let mut ends = [0usize; 32];
    ends[0] = len;
    song.with_samples(SongAttributes::from_bits_truncate(4), ramp(len), ends)
}

fn play(song: &mut YmSong) -> (bool, Vec<RegChange>) {
    let mut changes = Vec::new();
    let done = song.produce_next_ay_frame(&mut changes);
    (done, changes)
}

/// The changes at time zero that every frame of the later versions opens with, for a frame
/// whose registers are all zero but those given.
fn opening(frame: &YmFrame, mixer: u8, volumes: &[u8]) -> Vec<RegChange> {
    let mut changes = vec![(0, 11, frame.data[11]), (0, 12, frame.data[12])];
    if frame.data[13] != 0xff {
        changes.push((0, 13, frame.data[13]));
    }
    for reg in 0..6 {
        changes.push((0, reg as u8, frame.data[reg]));
    }
    changes.push((0, 6, mixer));
    for reg in volumes {
        changes.push((0, *reg, frame.data[*reg as usize] & 0x1f));
    }
    changes
}

fn assert_in_order(changes: &[RegChange]) {
    for pair in changes.windows(2) {
        assert!(pair[0].0 <= pair[1].0);
    }
    for change in changes {
        assert!(change.0 < FRAME_SPAN);
        assert!(change.1 <= 13);
    }
}

#[test]
fn silent_ym3_frame() {
    let mut song = YmSong::parse_unpacked(b"YM3!\0\0\0\0\0\0\0\0\0\0\0\0\0\0", String::new()).unwrap();
    assert_eq!(song.frames.len(), 1);
    assert_eq!(song.loop_frame, 0);
    assert_eq!(song.song_duration(), 20_000_000);
    let (done, changes) = play(&mut song);
    assert!(done);
    assert_eq!(
        changes,
        vec![
            (0, 11, 0),
            (0, 12, 0),
            (0, 13, 0),
            (0, 0, 0),
            (0, 1, 0),
            (0, 2, 0),
            (0, 3, 0),
            (0, 4, 0),
            (0, 5, 0),
            (0, 6, 0),
            (0, 8, 0),
            (0, 9, 0),
            (0, 10, 0),
        ]
    );
    assert_eq!(song.cursor(), 0);
}

#[test]
fn ym3_frame_writes_its_registers() {
    let first = frame(&[
        (0, 0x11),
        (1, 0xf2),
        (2, 0x33),
        (3, 0xf4),
        (4, 0x55),
        (5, 0x06),
        (6, 0xe7),
        (7, 0x38),
        (8, 0xe9),
        (9, 0x0a),
        (10, 0x8b),
        (11, 0x1c),
        (12, 0x2d),
        (13, 0x0e),
        (14, 99),
        (15, 98),
    ]);
    let mut song = song(YmVersion::Ym3, vec![first, frame(&[])], 0);
    let mut changes = vec![(7, 7, 7)];
    let done = song.produce_next_ay_frame(&mut changes);
    assert!(!done);
    assert_eq!(
        changes,
        vec![
            (7, 7, 7),
            (0, 11, 0x1c),
            (0, 12, 0x2d),
            (0, 13, 0x0e),
            (0, 0, 0x11),
            (0, 1, 0xf2),
            (0, 2, 0x33),
            (0, 3, 0xf4),
            (0, 4, 0x55),
            (0, 5, 0x06),
            (0, 6, 0x38),
            (0, 8, 0x09),
            (0, 9, 0x0a),
            (0, 10, 0x0b),
        ]
    );
    assert_eq!(song.cursor(), 1);
}

#[test]
fn envelope_shape_ff_is_not_written() {
    let quiet = frame(&[(11, 1), (12, 2), (13, 0xff)]);
    let mut later = song(YmVersion::Ym5, vec![quiet], 0);
    let (_, changes) = play(&mut later);
    assert_eq!(changes, opening(&quiet, 0, &[8, 9, 10]));
    assert_eq!(&changes[0..3], &[(0, 11, 1), (0, 12, 2), (0, 0, 0)]);
    assert!(changes.iter().all(|change| change.1 != 13));

    let mut early = song(YmVersion::Ym2, vec![quiet], 0).with_ym2_samples(&[0u8; 12379]);
    let (_, changes) = play(&mut early);
    assert!(changes.iter().all(|change| change.1 < 11));
    assert_eq!(changes.len(), 10);

    let loud = frame(&[(11, 1), (12, 2), (13, 3)]);
    let mut early = song(YmVersion::Ym2, vec![loud], 0).with_ym2_samples(&[0u8; 12379]);
    let (_, changes) = play(&mut early);
    assert_eq!(&changes[0..4], &[(0, 11, 1), (0, 12, 0), (0, 13, 0x10), (0, 0, 0)]);
    assert_eq!(changes.len(), 13);
}

#[test]
fn cursor_wraps_to_the_loop_frame() {
    let frames = vec![frame(&[]), frame(&[]), frame(&[]), frame(&[])];
    let mut song = song(YmVersion::Ym3, frames, 2);
    let mut wraps = Vec::new();
    let mut cursors = Vec::new();
    for _ in 0..8 {
        let (done, _) = play(&mut song);
        wraps.push(done);
        cursors.push(song.cursor());
    }
    assert_eq!(wraps, vec![false, false, false, true, false, true, false, true]);
    assert_eq!(cursors, vec![1, 2, 3, 2, 3, 2, 3, 2]);
    song.reset();
    assert_eq!(song.cursor(), 0);
    let dones: Vec<bool> = (0..4).map(|_| play(&mut song).0).collect();
    assert_eq!(dones, vec![false, false, false, true]);
    assert_eq!(song.cursor(), 2);
}

#[test]
fn loop_frame_behind_the_end_means_the_last_frame() {
    let mut data = b"YM3b".to_vec();
    data.extend_from_slice(&[0u8; 28]);
    data.extend_from_slice(&12u32.to_be_bytes());
    let mut song = YmSong::parse_unpacked(&data, String::new()).unwrap();
    assert_eq!(song.frames.len(), 2);
    assert_eq!(song.loop_frame, 12);
    assert_eq!(play(&mut song).0, false);
    assert_eq!(song.cursor(), 1);
    for _ in 0..5 {
        assert_eq!(play(&mut song).0, true);
        assert_eq!(song.cursor(), 1);
    }
}

#[test]
fn ym2_drum_on_voice_c() {
    let start = frame(&[(7, 0x01), (10, 0x80), (12, 1)]);
    let packed: Vec<u8> = (0..12379usize).map(|i| (i % 251) as u8).collect();
    let mut song = song(YmVersion::Ym2, vec![start, frame(&[(10, 5)])], 0).with_ym2_samples(&packed);
    assert_eq!(song.dd_samples.len(), 24758);
    assert_eq!(song.timer_interval(4), 200);
    let (done, changes) = play(&mut song);
    assert!(!done);
    assert_in_order(&changes);
    let mut expected: Vec<RegChange> = vec![(0, 11, 0), (0, 12, 0), (0, 13, 0x10)];
    for reg in 0..6 {
        expected.push((0, reg, 0));
    }
    expected.push((0, 6, 0x25));
    expected.push((0, 8, 0));
    expected.push((0, 9, 0));
    for k in 0..631usize {
        let byte = packed[k / 2];
        let value = if k % 2 == 0 { byte >> 4 } else { byte & 0x0f };
        expected.push((200 * k as u64, 10, value));
    }
    // the sample has ended: the volume of the frame is written at the next tick
    expected.push((200 * 631, 10, 0));
    assert_eq!(changes, expected);

    let (done, changes) = play(&mut song);
    assert!(done);
    assert_eq!(changes.len(), 13);
    assert_eq!(changes[9], (0, 6, 0));
    assert_eq!(changes[12], (0, 10, 5));
    assert!(changes.iter().all(|change| change.1 != 7));
}

#[test]
fn ym2_drum_needs_a_sample_and_a_divisor() {
    let packed = vec![0x11u8; 12379];
    for (vol_c, prediv, starts) in [
        (0x80u8, 0u8, false),
        (0x7f, 1, false),
        (0x80 + 39, 1, true),
        (0x80 + 40, 1, false),
        (0xff, 1, false),
        (0x80 + 1, 255, true),
    ] {
        let start = frame(&[(10, vol_c), (12, prediv)]);
        let mut song = song(YmVersion::Ym2, vec![start], 0).with_ym2_samples(&packed);
        let (_, changes) = play(&mut song);
        if starts {
            assert_eq!(changes[9], (0, 6, 0x24));
            assert_eq!(changes[12].1, 10);
            assert_eq!(changes[12].2, 1);
            assert_eq!(changes[13].0, 200 * prediv as u64);
        } else {
            assert_eq!(changes[9], (0, 6, 0));
            assert_eq!(changes.len(), 13);
        }
    }
}

#[test]
fn ym6_sync_buzzer() {
    let buzz = frame(&[(1, 0b1101_0000), (6, 0b1000_0000), (8, 7), (14, 100)]);
    assert_eq!(buzz.timer_divisor0(), Some(5000));
    let mut song = song(YmVersion::Ym6, vec![buzz, frame(&[])], 0);
    assert_eq!(song.timer_interval(5000), 250_000);
    let (done, changes) = play(&mut song);
    assert!(!done);
    assert_in_order(&changes);
    let mut expected = opening(&buzz, 0, &[8, 9, 10]);
    assert_eq!(expected[10], (0, 8, 7));
    for k in 0..10u64 {
        expected.push((250_000 * k, 13, 7));
    }
    assert_eq!(changes, expected);
    // the buzzer lasts for one frame
    let (done, changes) = play(&mut song);
    assert!(done);
    assert_eq!(changes, opening(&frame(&[]), 0, &[8, 9, 10]));
    // at rest its timer stands still: it carries 42400 units over from the first frame
    let (_, changes) = play(&mut song);
    assert_eq!(changes[13], (42_400, 13, 7));
    assert_eq!(changes.len(), 13 + 10);
}

#[test]
fn ym5_drum_plays_on_over_frames() {
    // register 3 starts a drum on voice A: sample 0, pre-divisor 10, divisor 1
    let start = frame(&[(3, 0b0001_0000), (7, 0x02), (8, 0b0100_0000), (15, 1)]);
    let rest = frame(&[(7, 0x80), (8, 0x0c), (9, 3)]);
    assert_eq!(start.timer_divisor1(), Some(10));
    let mut song = with_one_sample(song(YmVersion::Ym5, vec![start, rest, rest], 0), 10_000);
    assert_eq!(song.timer_interval(10), 500);

    let (_, changes) = play(&mut song);
    assert_in_order(&changes);
    let mut expected = opening(&start, 0x0b, &[9, 10]);
    for k in 0..4916usize {
        expected.push((500 * k as u64, 8, (k % 16) as u8));
    }
    assert_eq!(changes, expected);

    // nothing starts the drum in the second frame: it goes on where it stood, and its
    // timer is 400 units into the frame
    let (_, changes) = play(&mut song);
    assert_in_order(&changes);
    let mut expected = opening(&rest, 0x89, &[9, 10]);
    for k in 0..4915usize {
        expected.push((400 + 500 * k as u64, 8, ((4916 + k) % 16) as u8));
    }
    assert_eq!(changes, expected);

    // 169 values are left for the third frame, which then ends the sample
    let (done, changes) = play(&mut song);
    assert!(done);
    let mut expected = opening(&rest, 0x89, &[9, 10]);
    for k in 0..169usize {
        expected.push((300 + 500 * k as u64, 8, ((9831 + k) % 16) as u8));
    }
    expected.push((300 + 500 * 169, 8, 0x0c));
    assert_eq!(changes, expected);
}

#[test]
fn ym5_sid_voice_and_timer_restart() {
    // register 1 starts a SID voice on voice B: pre-divisor 200, divisor 100
    let start = frame(&[(1, 0b0010_0000), (6, 0b1110_0000), (9, 0x1d), (14, 100)]);
    let restart = frame(&[(1, 0b0110_0000), (6, 0b1110_0000), (9, 0x1d), (14, 100)]);
    let mut song = song(YmVersion::Ym4, vec![start, start, restart, frame(&[])], 0);
    assert_eq!(song.timer_interval(20_000), 1_000_000);
    let (_, changes) = play(&mut song);
    let mut expected = opening(&start, 0, &[8, 10]);
    expected.extend_from_slice(&[(0, 9, 13), (1_000_000, 9, 0), (2_000_000, 9, 13)]);
    assert_eq!(changes, expected);
    let (_, changes) = play(&mut song);
    let mut expected = opening(&start, 0, &[8, 10]);
    expected.extend_from_slice(&[(542_400, 9, 0), (1_542_400, 9, 13)]);
    assert_eq!(changes, expected);
    let (_, changes) = play(&mut song);
    let mut expected = opening(&restart, 0, &[8, 10]);
    expected.extend_from_slice(&[(0, 9, 13), (1_000_000, 9, 0), (2_000_000, 9, 13)]);
    assert_eq!(changes, expected);
    let (done, changes) = play(&mut song);
    assert!(done);
    assert_eq!(changes, opening(&frame(&[]), 0, &[8, 9, 10]));
}

#[test]
fn ym6_effects_are_mixed_in_order_of_time() {
    // register 1: Sinus SID on voice C, step 600000; register 3: SID voice on voice A,
    // step 400000
    let both = frame(&[
        (1, 0b1011_0000),
        (6, 0b1100_0000),
        (14, 120),
        (10, 0x0f),
        (3, 0b0001_0000),
        (8, 0b1100_0000 | 0x0a),
        (15, 80),
    ]);
    let mut song = song(YmVersion::Ym6, vec![both], 0);
    let (_, changes) = play(&mut song);
    assert_in_order(&changes);
    let mut expected = opening(&both, 0, &[9]);
    expected.extend_from_slice(&[
        (0, 8, 10),
        (0, 10, 15),
        (400_000, 8, 0),
        (600_000, 10, 13),
        (800_000, 8, 10),
        (1_200_000, 8, 0),
        (1_200_000, 10, 8),
        (1_600_000, 8, 10),
        (1_800_000, 10, 2),
        (2_000_000, 8, 0),
        (2_400_000, 8, 10),
        (2_400_000, 10, 0),
    ]);
    assert_eq!(changes, expected);
}

#[test]
fn one_unit_drives_a_voice() {
    // a drum runs on voice A; in the second frame a SID voice is started on it as well
    let drum = frame(&[(3, 0b0101_0000), (8, 0b0010_0000), (15, 250)]);
    let sid = frame(&[(1, 0b0001_0000), (6, 0b1110_0000), (14, 255), (8, 0x05)]);
    let mut song = with_one_sample(song(YmVersion::Ym6, vec![drum, sid, frame(&[(8, 9)])], 0), 5000);
    assert_eq!(song.timer_interval(1000), 50_000);
    let (_, changes) = play(&mut song);
    assert_eq!(changes[9], (0, 6, 0x09));
    let on_a: Vec<RegChange> = changes.iter().copied().filter(|change| change.1 == 8).collect();
    assert_eq!(on_a.len(), 50);
    assert_eq!(on_a[49], (49 * 50_000, 8, 49 % 16));
    // the SID voice comes first: the drum waits, but it is active and keeps its mixer bits
    let (_, changes) = play(&mut song);
    assert_eq!(changes[9], (0, 6, 0x09));
    let on_a: Vec<RegChange> = changes.iter().copied().filter(|change| change.1 == 8).collect();
    assert_eq!(on_a, vec![(0, 8, 5)]);
    // then the drum goes on where it stood
    let (_, changes) = play(&mut song);
    assert_eq!(changes[9], (0, 6, 0x09));
    let on_a: Vec<RegChange> = changes.iter().copied().filter(|change| change.1 == 8).collect();
    assert_eq!(on_a.len(), 49);
    assert_eq!(on_a[0], (42_400, 8, 50 % 16));
}

#[test]
fn every_frame_writes_the_mixer_once() {
    let drum = frame(&[(3, 0b0111_0000), (7, 0x40), (8, 0b0010_0000), (15, 250)]);
    let mut song = with_one_sample(song(YmVersion::Ym6, vec![drum, frame(&[(7, 0x12)])], 0), 70);
    for expected in [0x64u8, 0x36, 0x64] {
        let (_, changes) = play(&mut song);
        let mixer: Vec<RegChange> = changes.iter().copied().filter(|change| change.1 == 6).collect();
        assert_eq!(mixer, vec![(0, 6, expected)]);
        assert_eq!(changes.iter().filter(|change| change.1 == 7).count(), 0);
        for reg in 0..6u8 {
            assert_eq!(changes.iter().filter(|change| change.1 == reg).count(), 1);
        }
    }
}

#[test]
fn replay_after_reset_is_the_same() {
    // a drum, a Sinus SID, a SID voice and a buzzer, none of whose steps divides the frame
    let drum = frame(&[(3, 0b0101_0000), (8, 0b0010_0000), (15, 33)]);
    let sinus = frame(&[(1, 0b1010_0000), (6, 0b1110_0000), (14, 7), (9, 0x0f)]);
    let sid = frame(&[(1, 0b0011_0000), (6, 0b0110_0000), (14, 201), (10, 0x0b)]);
    let buzz = frame(&[(3, 0b1101_0000), (8, 0b1000_0000 | 5), (15, 77)]);
    let frames = vec![sinus, drum, sid, buzz, sinus, sid, frame(&[(13, 0xff)])];
    let mut song = with_one_sample(song(YmVersion::Ym6, frames, 3), 9000);
    let mut runs = Vec::new();
    for played_before in [0usize, 1, 5, 7, 12] {
        for _ in 0..played_before {
            song.produce_next_ay_frame(&mut Vec::new());
        }
        song.reset();
        assert_eq!(song.cursor(), 0);
        let mut changes = Vec::new();
        let mut wraps = Vec::new();
        for _ in 0..7 {
            wraps.push(song.produce_next_ay_frame(&mut changes));
        }
        assert_in_order(&changes[0..13]);
        runs.push((changes, wraps, song.cursor()));
    }
    assert!(runs[0].0.len() > 7 * 13);
    assert_eq!(runs[0].1, vec![false, false, false, false, false, false, true]);
    assert_eq!(runs[0].2, 3);
    for run in runs.iter() {
        assert_eq!(run, &runs[0]);
    }
}

#[test]
fn reset_puts_the_units_back() {
    let sid = frame(&[(1, 0b0001_0000), (6, 0b1110_0000), (14, 100), (8, 0x0d)]);
    let mut played = song(YmVersion::Ym5, vec![sid, frame(&[]), sid], 0);
    let mut fresh = played.clone();
    for _ in 0..2 {
        played.produce_next_ay_frame(&mut Vec::new());
    }
    // the timer of the SID voice is under way: the third frame is not like the first
    let (_, third) = play(&mut played);
    let (_, first) = play(&mut fresh);
    assert_ne!(third, first);
    played.reset();
    fresh.reset();
    assert_eq!(play(&mut played), (false, first));
    assert_eq!(play(&mut fresh).1[0], (0, 11, 0));
}

#[test]
fn builders_set_their_fields() {
    let mut ends = [0usize; 32];
    ends[0] = 2;
    ends[5] = 3;
    let song = song(YmVersion::Ym6, vec![frame(&[])], 7)
        .with_meta(String::from("author"), String::from("comments"))
        .with_samples(SongAttributes::from_bits_truncate(3), vec![1, 2, 3], ends)
        .with_frequency(1_773_400, 25);
    assert_eq!(song.version, YmVersion::Ym6);
    assert_eq!(song.title, "test");
    assert_eq!(song.author, "author");
    assert_eq!(song.comments, "comments");
    assert_eq!(song.song_attrs.bits(), 3);
    assert_eq!(song.dd_samples, vec![1, 2, 3]);
    assert_eq!(song.dd_samples_ends, ends);
    assert_eq!(song.chipset_frequency, 1_773_400);
    assert_eq!(song.frame_frequency, 25);
    assert_eq!(song.loop_frame, 7);
    assert_eq!(song.clock_frequency(), 1_773_400);
    assert_eq!(song.timer_interval(3), 75);
    assert_eq!(song.song_duration(), 40_000_000);
    assert_eq!(song.sample_data_range(0), 0..2);
    assert_eq!(song.sample_data_range(1), 2..0);
    assert_eq!(song.sample_data_range(5), 0..3);
    assert_eq!(song.sample_data_range(31), 0..0);
}

#[test]
fn ym3_size_is_looked_at_first() {
    for extra in [1usize, 2, 3, 5, 13] {
        let mut data = b"YM3!".to_vec();
        data.extend(std::iter::repeat(0u8).take(extra));
        let res = parse_ym3(YmVersion::Ym3, &data, String::new(), None);
        assert_eq!(res.unwrap_err(), ParseError::WrongFileSize);
        let res = parse_ym3(YmVersion::Ym2, &data, String::new(), None);
        assert_eq!(res.unwrap_err(), ParseError::WrongFileSize);
    }
    for extra in [0usize, 4] {
        let mut data = b"YM3!".to_vec();
        data.extend(std::iter::repeat(0u8).take(extra));
        let res = parse_ym3(YmVersion::Ym3, &data, String::new(), None);
        assert_eq!(res.unwrap_err(), ParseError::NoYmData);
        data.extend(std::iter::repeat(0u8).take(28));
        let song = parse_ym3(YmVersion::Ym3, &data, String::from("t"), None).unwrap();
        assert_eq!(song.frames.len(), 2);
    }
}

#[test]
fn ym3_frame_writes_its_envelope() {
    let song = song(YmVersion::Ym3, vec![frame(&[(11, 5), (12, 6), (13, 0xff)])], 0);
    let mut changes = Vec::new();
    song.play_ym3_frame(&mut changes);
    assert_eq!(changes, vec![(0, 11, 5), (0, 12, 6)]);
    let song = self::song(YmVersion::Ym5, vec![frame(&[(11, 5), (12, 6), (13, 0xfe)])], 0);
    let mut changes = Vec::new();
    song.play_ym3_frame(&mut changes);
    assert_eq!(changes, vec![(0, 11, 5), (0, 12, 6), (0, 13, 0xfe)]);
}

#[test]
fn ym2_frame_writes_its_envelope_and_starts_its_drum() {
    let packed = vec![0x5au8; 12379];
    let quiet = frame(&[(11, 5), (12, 6), (13, 0xff)]);
    let mut song = self::song(YmVersion::Ym2, vec![quiet], 0).with_ym2_samples(&packed);
    let mut changes = Vec::new();
    song.play_ym2_frame(&mut changes);
    assert_eq!(changes, vec![]);
    assert!(!song.voice_effects[2].2.is_active());

    let start = frame(&[(10, 0x80), (11, 5), (12, 1), (13, 9)]);
    let mut song = self::song(YmVersion::Ym2, vec![start], 0).with_ym2_samples(&packed);
    let mut changes = Vec::new();
    song.play_ym2_frame(&mut changes);
    assert_eq!(changes, vec![(0, 11, 5), (0, 12, 0), (0, 13, 0x10)]);
    for voice in 0..2 {
        assert!(!song.voice_effects[voice].0.is_active());
        assert!(!song.voice_effects[voice].1.is_active());
        assert!(!song.voice_effects[voice].2.is_active());
    }
    assert!(song.voice_effects[2].2.is_active());
    assert_eq!(song.buzzer.iter_frame(FRAME_SPAN), None);
    // sample 0 has 631 values; the timer starts at 0 and ticks every 200 units
    let played = song.voice_effects[2].2.iter_frame(200 * 700, 10, &song.dd_samples, 3).unwrap();
    assert_eq!(played.len(), 632);
    assert_eq!(played[0], (0, 10, 5));
    assert_eq!(played[1], (200, 10, 0xa));
    assert_eq!(played[630], (200 * 630, 10, 5));
    assert_eq!(played[631], (200 * 631, 10, 3));
}

#[test]
fn ym6_frame_starts_the_buzzer() {
    let buzz = frame(&[(1, 0b1101_0000), (6, 0b1000_0000), (8, 7), (14, 100)]);
    let mut song = self::song(YmVersion::Ym6, vec![buzz], 0);
    let mut changes = Vec::new();
    song.play_ym6_frame(&mut changes);
    assert_eq!(changes, vec![(0, 11, 0), (0, 12, 0), (0, 13, 0)]);
    for voice in 0..3 {
        assert!(!song.voice_effects[voice].0.is_active());
        assert!(!song.voice_effects[voice].1.is_active());
        assert!(!song.voice_effects[voice].2.is_active());
    }
    assert_eq!(
        song.buzzer.iter_frame(600_000).unwrap(),
        vec![(0, 13, 7), (250_000, 13, 7), (500_000, 13, 7)]
    );
}
