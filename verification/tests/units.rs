use ym_file_parser::ym::effects::{
    DigiDrum, SidVoice, SinusSid, SyncBuzzer, Timer, ENV_REG, FRAME_SPAN, VOL_A_REG, VOL_B_REG,
};

#[test]
fn frame_span_is_the_timer_frequency() {
    assert_eq!(FRAME_SPAN, 2_457_600);
    assert_eq!(FRAME_SPAN, ym_file_parser::MFP_TIMER_FREQUENCY as u64);
}

#[test]
fn units_at_rest_yield_nothing() {
    let mut sid = SidVoice::default();
    let mut sinus = SinusSid::default();
    let mut drum = DigiDrum::default();
    let mut buzzer = SyncBuzzer::default();
    assert!(!sid.is_active());
    assert!(!sinus.is_active());
    assert!(!drum.is_active());
    assert_eq!(sid.iter_frame(1000, VOL_A_REG), None);
    assert_eq!(sinus.iter_frame(1000, VOL_A_REG), None);
    assert_eq!(drum.iter_frame(1000, VOL_A_REG, &[1, 2, 3], 9), None);
    assert_eq!(buzzer.iter_frame(1000), None);
}

#[test]
fn sid_voice_alternates_between_volume_and_silence() {
    let mut sid = SidVoice::default();
    sid.start(5, 1000);
    assert!(sid.is_active());
    let changes = sid.iter_frame(3500, VOL_A_REG).unwrap();
    assert_eq!(
        changes,
        vec![(0, VOL_A_REG, 5), (1000, VOL_A_REG, 0), (2000, VOL_A_REG, 5), (3000, VOL_A_REG, 0)]
    );
    // the timer ran 500 units past the end of the frame
    let changes = sid.iter_frame(3500, VOL_B_REG).unwrap();
    assert_eq!(changes, vec![(500, VOL_B_REG, 5), (1500, VOL_B_REG, 0), (2500, VOL_B_REG, 5)]);
    // three ticks: the next frame starts with silence, at time 0
    let changes = sid.iter_frame(1, VOL_A_REG).unwrap();
    assert_eq!(changes, vec![(0, VOL_A_REG, 0)]);
}

#[test]
fn sid_voice_keeps_its_phase_at_rest() {
    let mut played = SidVoice::default();
    played.start(9, 1000);
    let mut rested = played;
    assert_eq!(played.iter_frame(3500, VOL_A_REG).unwrap().len(), 4);
    assert_eq!(played.iter_frame(3500, VOL_A_REG).unwrap().len(), 3);
    rested.stop();
    assert_eq!(rested.iter_frame(3500, VOL_A_REG), None);
    assert_eq!(rested.iter_frame(3500, VOL_A_REG), None);
    rested.start(9, 1000);
    // seven ticks have passed for both: they go on alike
    assert_eq!(played.iter_frame(3000, VOL_A_REG), rested.iter_frame(3000, VOL_A_REG));
    assert_eq!(
        rested.iter_frame(2000, VOL_A_REG).unwrap(),
        vec![(0, VOL_A_REG, 9), (1000, VOL_A_REG, 0)]
    );
}

#[test]
fn sid_voice_reset_starts_over() {
    let mut sid = SidVoice::default();
    sid.start(3, 700);
    assert_eq!(sid.iter_frame(1000, VOL_A_REG).unwrap(), vec![(0, VOL_A_REG, 3), (700, VOL_A_REG, 0)]);
    sid.reset();
    assert_eq!(sid.iter_frame(1000, VOL_A_REG).unwrap(), vec![(0, VOL_A_REG, 3), (700, VOL_A_REG, 0)]);
    // without a reset the timer carries 400 units over and the phase goes on
    assert_eq!(sid.iter_frame(1000, VOL_A_REG).unwrap(), vec![(400, VOL_A_REG, 3)]);
}

#[test]
fn sid_voice_skips_a_frame_that_ends_before_its_tick() {
    let mut sid = SidVoice::default();
    sid.start(3, 2500);
    assert_eq!(sid.iter_frame(1000, VOL_A_REG).unwrap(), vec![(0, VOL_A_REG, 3)]);
    assert_eq!(sid.iter_frame(1000, VOL_A_REG).unwrap(), vec![]);
    assert_eq!(sid.iter_frame(1000, VOL_A_REG).unwrap(), vec![(500, VOL_A_REG, 0)]);
}

#[test]
fn sinus_sid_walks_its_table() {
    let mut sinus = SinusSid::default();
    sinus.start(15, 100);
    let changes = sinus.iter_frame(1000, VOL_B_REG).unwrap();
    let levels: Vec<u8> = changes.iter().map(|change| change.2).collect();
    let times: Vec<u64> = changes.iter().map(|change| change.0).collect();
    assert_eq!(levels, vec![15, 13, 8, 2, 0, 2, 8, 13, 15, 13]);
    assert_eq!(times, vec![0, 100, 200, 300, 400, 500, 600, 700, 800, 900]);
    assert!(changes.iter().all(|change| change.1 == VOL_B_REG));
    // the phase is kept over a stop and a start
    sinus.stop();
    assert_eq!(sinus.iter_frame(1000, VOL_B_REG), None);
    sinus.start(15, 500);
    assert_eq!(
        sinus.iter_frame(1000, VOL_B_REG).unwrap(),
        vec![(0, VOL_B_REG, 8), (500, VOL_B_REG, 2)]
    );
}

#[test]
fn sync_buzzer_writes_the_shape_again() {
    let mut buzzer = SyncBuzzer::default();
    buzzer.start(0xf7, 400);
    assert_eq!(
        buzzer.iter_frame(1000).unwrap(),
        vec![(0, ENV_REG, 7), (400, ENV_REG, 7), (800, ENV_REG, 7)]
    );
    assert_eq!(buzzer.iter_frame(1000).unwrap(), vec![(200, ENV_REG, 7), (600, ENV_REG, 7)]);
    buzzer.stop();
    assert_eq!(buzzer.iter_frame(1000), None);
}

#[test]
fn digi_drum_plays_across_frames() {
    let samples: Vec<u8> = vec![9, 1, 2, 3, 4, 5, 6, 7, 8];
    let mut drum = DigiDrum::default();
    drum.start(1, 8, 300);
    assert!(drum.is_active());
    assert_eq!(
        drum.iter_frame(1000, VOL_A_REG, &samples, 12).unwrap(),
        vec![(0, VOL_A_REG, 1), (300, VOL_A_REG, 2), (600, VOL_A_REG, 3), (900, VOL_A_REG, 4)]
    );
    assert!(drum.is_active());
    // the timer carries 200 units over; three values are left
    assert_eq!(
        drum.iter_frame(1000, VOL_A_REG, &samples, 12).unwrap(),
        vec![(200, VOL_A_REG, 5), (500, VOL_A_REG, 6), (800, VOL_A_REG, 7)]
    );
    // the frame ended together with the sample: nothing is left to say
    assert!(!drum.is_active());
    assert_eq!(drum.iter_frame(1000, VOL_A_REG, &samples, 12), None);
}

#[test]
fn digi_drum_ends_with_the_frame_volume() {
    let samples: Vec<u8> = vec![1, 2, 3];
    let mut drum = DigiDrum::default();
    drum.start(0, 3, 100);
    assert_eq!(
        drum.iter_frame(1000, VOL_B_REG, &samples, 12).unwrap(),
        vec![(0, VOL_B_REG, 1), (100, VOL_B_REG, 2), (200, VOL_B_REG, 3), (300, VOL_B_REG, 12)]
    );
    assert!(!drum.is_active());
    assert_eq!(drum.iter_frame(1000, VOL_B_REG, &samples, 12), None);
}

#[test]
fn digi_drum_stop_and_empty_range() {
    let samples: Vec<u8> = vec![1, 2, 3];
    let mut drum = DigiDrum::default();
    drum.start(0, 3, 100);
    drum.stop();
    assert!(!drum.is_active());
    drum.start(2, 2, 100);
    assert!(!drum.is_active());
    drum.start(3, 1, 100);
    assert!(!drum.is_active());
}

#[test]
fn timer_ticks_and_carries_over() {
    let mut timer = Timer::default();
    timer.set_step(10);
    assert_eq!(timer.run_frame(25), vec![0, 10, 20]);
    assert_eq!(timer.run_frame(25), vec![5, 15]);
    assert_eq!(timer.run_frame(25), vec![0, 10, 20]);
    assert_eq!(timer.run_frame(5), vec![]);
    assert_eq!(timer.run_frame(5), vec![0]);
    timer.set_step(3);
    assert_eq!(timer.run_frame(6), vec![5]);
    assert_eq!(timer.run_frame(6), vec![2, 5]);
    timer.reset();
    assert_eq!(timer.run_frame(6), vec![0, 3]);
    assert_eq!(timer.run_frame(1), vec![0]);
}

#[test]
fn timer_passes_a_frame_as_if_it_had_ticked() {
    for (step, limit) in [(10u64, 25u64), (10, 20), (7, 7), (7, 100), (100, 7), (1, 9)] {
        let mut ticked = Timer::default();
        ticked.set_step(step);
        let mut passed = ticked;
        for _ in 0..20 {
            let count = ticked.run_frame(limit).len() as u64;
            assert_eq!(passed.fast_forward(limit), count);
            assert_eq!(passed.run_frame(1), ticked.run_frame(1));
        }
    }
    let mut idle = Timer::default();
    assert_eq!(idle.fast_forward(100), 0);
    idle.set_step(40);
    assert_eq!(idle.run_frame(100), vec![0, 40, 80]);
}
