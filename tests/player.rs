use lyra::player::{Down, PlayerState, PlayerStore, VolumeChange, DEFAULT_VOLUME};

#[test]
fn down_below_zero_mutes() {
    let down = Down { percent: Some(20) };
    assert_eq!(down.plan(15), VolumeChange::Mute);
    let mut state = PlayerState::new();
    state.set_volume(15);
    state.commit(down.plan(state.volume()), true);
    assert!(state.muted);
    assert_eq!(state.volume(), 15);
}

#[test]
fn down_to_exactly_zero_mutes() {
    assert_eq!(Down { percent: Some(15) }.plan(15), VolumeChange::Mute);
}

#[test]
fn down_lowers_volume() {
    assert_eq!(Down { percent: Some(20) }.plan(100), VolumeChange::SetVolume(80));
    assert_eq!(Down { percent: None }.plan(100), VolumeChange::SetVolume(90));
    assert_eq!(Down { percent: Some(1000) }.plan(1000), VolumeChange::Mute);
    assert_eq!(Down { percent: Some(1) }.plan(2), VolumeChange::SetVolume(1));
}

#[test]
fn unacknowledged_change_keeps_state() {
    let mut state = PlayerState::new();
    let before = state;
    state.commit(VolumeChange::SetVolume(40), false);
    assert_eq!(state, before);
    state.commit(VolumeChange::Mute, false);
    assert_eq!(state, before);
    state.commit(VolumeChange::SetVolume(40), true);
    assert_eq!(state.volume(), 40);
    assert!(!state.muted);
}

#[test]
fn store_reads_fresh_state_and_keeps_guilds_apart() {
    let mut store = PlayerStore::new();
    assert_eq!(store.read(7), PlayerState::new());
    assert_eq!(store.read(7).volume(), DEFAULT_VOLUME);
    let mut s = store.read(7);
    s.set_volume(50);
    store.write(7, s);
    assert_eq!(store.read(7).volume(), 50);
    assert_eq!(store.read(8).volume(), DEFAULT_VOLUME);
    store.remove(7);
    assert_eq!(store.read(7), PlayerState::new());
}

#[test]
fn store_commit_two_phase() {
    let mut store = PlayerStore::new();
    store.commit(3, VolumeChange::SetVolume(30), false);
    assert_eq!(store.read(3), PlayerState::new());
    store.commit(3, VolumeChange::SetVolume(30), true);
    assert_eq!(store.read(3).volume(), 30);
    store.commit(3, VolumeChange::Mute, true);
    assert!(store.read(3).muted);
    assert_eq!(store.read(3).volume(), 30);
}

#[test]
fn volume_steps_add_up_in_any_order() {
    let deltas: [i16; 5] = [5, -3, 12, -7, 1];
    let orders: [[usize; 5]; 3] = [[0, 1, 2, 3, 4], [4, 3, 2, 1, 0], [2, 0, 4, 1, 3]];
    for order in orders {
        let mut store = PlayerStore::new();
        for i in order {
            assert!(store.adjust_volume(9, deltas[i]));
        }
        assert_eq!(store.read(9).volume(), 108);
    }
}

#[test]
fn volume_step_out_of_range_is_refused() {
    let mut store = PlayerStore::new();
    assert!(!store.adjust_volume(1, -100));
    assert_eq!(store.read(1).volume(), DEFAULT_VOLUME);
    assert!(!store.adjust_volume(1, 901));
    assert!(store.adjust_volume(1, 900));
    assert_eq!(store.read(1).volume(), 1000);
}

#[test]
fn state_setters_change_one_field() {
    let mut s = PlayerState::new();
    s.set_pitch(1.5f64.to_bits());
    assert_eq!(s.pitch, 1.5f64.to_bits());
    s.set_muted(true);
    assert!(s.muted);
    assert_eq!(s.volume, DEFAULT_VOLUME);
}
