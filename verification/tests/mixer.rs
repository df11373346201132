use ym_file_parser::ym::mixer::Mixer;

#[test]
fn mixer_without_lanes_is_empty() {
    let mut mixer = Mixer::new();
    assert_eq!(mixer.len(), 0);
    assert_eq!(mixer.next(), None);
    let mut out = vec![(1, 2, 3)];
    mixer.drain_into(&mut out);
    assert_eq!(out, vec![(1, 2, 3)]);
}

#[test]
fn mixer_merges_by_time_and_prefers_earlier_lanes() {
    let mut mixer = Mixer::new();
    mixer.push(vec![(0, 8, 1), (5, 8, 2), (9, 8, 3)]);
    mixer.push(vec![]);
    mixer.push(vec![(0, 9, 4), (5, 9, 5), (7, 9, 6)]);
    mixer.push(vec![(4, 13, 7), (5, 13, 8)]);
    assert_eq!(mixer.len(), 4);
    assert_eq!(mixer.next(), Some((0, 8, 1)));
    assert_eq!(mixer.next(), Some((0, 9, 4)));
    let mut out = Vec::new();
    mixer.drain_into(&mut out);
    assert_eq!(
        out,
        vec![(4, 13, 7), (5, 8, 2), (5, 9, 5), (5, 13, 8), (7, 9, 6), (9, 8, 3)]
    );
    assert_eq!(mixer.next(), None);
}

#[test]
fn mixer_hands_out_a_single_lane_as_it_is() {
    let mut mixer = Mixer::new();
    mixer.push(vec![(3, 1, 1), (3, 1, 2), (4, 1, 3)]);
    let mut out = Vec::new();
    mixer.drain_into(&mut out);
    assert_eq!(out, vec![(3, 1, 1), (3, 1, 2), (4, 1, 3)]);
}
