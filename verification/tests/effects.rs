use core::f32::consts::PI;
use ym_file_parser::ym::effects::{sinus_sid, SINUS_SID, SINUS_SID_PERIOD};

#[test]
fn sinus_sid_works() {
    assert_eq!(SINUS_SID_PERIOD, 8);
    for vol in 0..16 {
        println!("vol: {}", vol);
        for n in 0..SINUS_SID_PERIOD {
            let x = 2.0 * PI * n as f32 / SINUS_SID_PERIOD as f32;
            // the cosine of a quarter turn is zero, which single precision misses by a little
            let cosine = if n % 4 == 2 { 0.0 } else { x.cos() };
            let y = cosine * 0.5 + 0.5;
            let v0 = (y * vol as f32).round() as u8;
            let v1 = sinus_sid(n as usize, vol);
            println!("{:02}: {:02} {:02} {:03} {:.8} {:.8}", n, v0, v1, SINUS_SID[n as usize], y, x);
            assert_eq!(v0, v1);
        }
    }
}

#[test]
fn sinus_sid_table_has_its_peak_and_its_trough() {
    assert_eq!(SINUS_SID, [255, 218, 128, 37, 0, 37, 128, 218]);
    assert_eq!(SINUS_SID[0], 255);
    assert_eq!(SINUS_SID[4], 0);
    for k in 0..8usize {
        assert_eq!(SINUS_SID[k], SINUS_SID[(8 - k) % 8]);
        for vol in 0..=255u16 {
            assert_eq!(sinus_sid(k, vol), sinus_sid((8 - k) % 8, vol));
        }
    }
}

#[test]
fn sinus_sid_scales_and_wraps() {
    assert_eq!(sinus_sid(0, 15), 15);
    assert_eq!(sinus_sid(4, 15), 0);
    assert_eq!(sinus_sid(1, 15), 13);
    assert_eq!(sinus_sid(2, 15), 8);
    assert_eq!(sinus_sid(6, 15), 8);
    assert_eq!(sinus_sid(3, 15), 2);
    assert_eq!(sinus_sid(9, 15), sinus_sid(1, 15));
    assert_eq!(sinus_sid(0, 255), 255);
    assert_eq!(sinus_sid(0, 0), 0);
}
