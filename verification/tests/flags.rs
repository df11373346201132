use ym_file_parser::flags::{FxChannel, FxCtrlFlags, FxType, SongAttributes};
use ym_file_parser::ym::calculate_timer_divisor;
use ym_file_parser::{YmFrame, YmVersion};

#[test]
fn song_attributes_keep_three_bits() {
    let attrs = SongAttributes::from_bits_truncate(0xffff_fff9);
    assert_eq!(attrs.bits(), 1);
    assert!(attrs.is_interleaved());
    assert!(!attrs.is_signed());
    assert!(!attrs.is_4bit());
    let attrs = SongAttributes::from_bits_truncate(6);
    assert!(!attrs.is_interleaved());
    assert!(attrs.is_signed());
    assert!(attrs.is_4bit());
    assert_eq!(SongAttributes::default(), SongAttributes::empty());
    assert_eq!(SongAttributes::empty().bits(), 0);
}

#[test]
fn channel_bits_select_a_voice() {
    assert_eq!(FxChannel::from(FxCtrlFlags::from_bits_truncate(0b0000_1111)), FxChannel::Idle);
    assert_eq!(FxChannel::from(FxCtrlFlags::from_bits_truncate(0b0001_0000)), FxChannel::RunOnA);
    assert_eq!(FxChannel::from(FxCtrlFlags::from_bits_truncate(0b1110_0000)), FxChannel::RunOnB);
    assert_eq!(FxChannel::from(FxCtrlFlags::from_bits_truncate(0b0011_0101)), FxChannel::RunOnC);
    assert_eq!(FxChannel::Idle.channel(), None);
    assert_eq!(FxChannel::RunOnA.channel(), Some(0));
    assert_eq!(FxChannel::RunOnB.channel(), Some(1));
    assert_eq!(FxChannel::RunOnC.channel(), Some(2));
}

#[test]
fn type_bits_select_an_effect() {
    assert_eq!(FxType::from(FxCtrlFlags::from_bits_truncate(0b0011_1111)), FxType::SidVoice);
    assert_eq!(FxType::from(FxCtrlFlags::from_bits_truncate(0b0100_0000)), FxType::DigiDrum);
    assert_eq!(FxType::from(FxCtrlFlags::from_bits_truncate(0b1000_0000)), FxType::SinusSid);
    assert_eq!(FxType::from(FxCtrlFlags::from_bits_truncate(0b1100_0000)), FxType::SyncBuzz);
}

#[test]
fn control_flags_decode() {
    let idle = FxCtrlFlags::from_bits_truncate(0b1100_1111);
    assert_eq!(idle.bits(), 0b1100_1111);
    assert_eq!(idle.ts_channel(), None);
    assert_eq!(idle.dd_channel(), None);
    assert_eq!(idle.fx6_channel(), None);
    let flags = FxCtrlFlags::from_bits_truncate(0b0101_0000);
    assert_eq!(flags.ts_channel(), Some((true, 0)));
    assert_eq!(flags.dd_channel(), Some(0));
    assert_eq!(flags.fx6_channel(), Some((FxType::DigiDrum, 0)));
    let flags = FxCtrlFlags::from_bits_truncate(0b1010_0000);
    assert_eq!(flags.ts_channel(), Some((false, 1)));
    assert_eq!(flags.fx6_channel(), Some((FxType::SinusSid, 1)));
    let flags = FxCtrlFlags::from_bits_truncate(0b1111_0000);
    assert_eq!(flags.ts_channel(), Some((true, 2)));
    assert_eq!(flags.dd_channel(), Some(2));
    assert_eq!(flags.fx6_channel(), Some((FxType::SyncBuzz, 2)));
    let flags = FxCtrlFlags::from_bits_truncate(0b0011_0000);
    assert_eq!(flags.fx6_channel(), Some((FxType::SidVoice, 2)));
}

#[test]
fn timer_divisor_is_the_product() {
    let prediv = [0u32, 4, 10, 16, 50, 64, 100, 200];
    for sel in 0..8u8 {
        assert_eq!(calculate_timer_divisor(sel << 5, 0), None);
        assert_eq!(calculate_timer_divisor((sel << 5) | 0x1f, 0), None);
        for div in [1u8, 2, 100, 255] {
            let expected = prediv[sel as usize] * div as u32;
            let found = calculate_timer_divisor((sel << 5) | 0x15, div);
            if expected == 0 {
                assert_eq!(found, None);
            } else {
                assert_eq!(found, Some(expected));
            }
        }
    }
    assert_eq!(calculate_timer_divisor(0xe0, 255), Some(51000));
}

#[test]
fn frame_accessors() {
    let mut data = [0u8; 16];
    data[1] = 0b0101_0011;
    data[3] = 0b1110_0001;
    data[6] = 0b0100_0001;
    data[8] = 0b1010_0111;
    data[9] = 0xff;
    data[10] = 0x80;
    data[11] = 0x3c;
    data[14] = 3;
    data[15] = 7;
    let frame = YmFrame { data };
    assert_eq!(frame.fx0().bits(), 0b0101_0011);
    assert_eq!(frame.fx1().bits(), 0b1110_0001);
    assert_eq!(frame.vol(0), 7);
    assert_eq!(frame.vol(1), 0x1f);
    assert_eq!(frame.vol(2), 0);
    assert_eq!(frame.vol(3), 0x1c);
    assert_eq!(frame.vol(8), 7);
    assert_eq!(frame.vol(9), 0x1f);
    assert_eq!(frame.vol(10), 0);
    assert_eq!(frame.timer_divisor0(), Some(30));
    assert_eq!(frame.timer_divisor1(), Some(448));
}

#[test]
fn default_frame_is_silent() {
    let frame = YmFrame::default();
    assert_eq!(frame.data, [0u8; 16]);
    assert_eq!(frame.fx0().dd_channel(), None);
    assert_eq!(frame.timer_divisor0(), None);
    assert_eq!(frame.timer_divisor1(), None);
}

#[test]
fn versions_have_names() {
    assert_eq!(YmVersion::Ym2.name(), "Ym2!");
    assert_eq!(YmVersion::Ym3.name(), "Ym3!");
    assert_eq!(YmVersion::Ym4.name(), "Ym4!");
    assert_eq!(YmVersion::Ym5.name(), "Ym5!");
    assert_eq!(YmVersion::Ym6.name(), "Ym6!");
}
