use input_dispatch::keyboard::Key;
use input_dispatch::keyboard::KeyStates;
use input_dispatch::keyboard::NUMBER_OF_KEYS;

fn held(keys: &[Key]) -> KeyStates {
    let mut states = KeyStates::new();
    for key in keys {
        states.set(*key);
    }
    states
}

#[test]
fn new_state_holds_nothing() {
    let states = KeyStates::new();
    assert!(states.is_empty());
    assert_eq!(states.ones(), 0);
    assert!(!states.get(Key::KeyShift));
    assert_eq!(KeyStates::default(), states);
}

#[test]
fn set_and_clear_change_one_key() {
    let mut states = KeyStates::new();
    states.set(Key::KeyShift);
    assert!(states.get(Key::KeyShift));
    assert!(!states.get(Key::KeyAlt));
    assert!(!states.is_empty());
    states.set(Key::KeyAlt);
    states.set(Key::KeyShift);
    assert_eq!(states.ones(), 2);
    states.clear(Key::KeyShift);
    assert!(!states.get(Key::KeyShift));
    assert!(states.get(Key::KeyAlt));
    states.clear(Key::KeyShift);
    assert_eq!(states.ones(), 1);
    states.clear(Key::KeyAlt);
    assert!(states.is_empty());
}

#[test]
fn extra_keys_do_not_matter_to_the_subset_test() {
    let required = held(&[Key::KeyShift]);
    let live = held(&[Key::KeyShift, Key::KeyAlt]);
    assert!(live.is_subset_of(&required));
}

#[test]
fn a_missing_key_fails_the_subset_test() {
    let required = held(&[Key::KeyShift, Key::KeyAlt]);
    let live = held(&[Key::KeyShift]);
    assert!(!live.is_subset_of(&required));
}

#[test]
fn nothing_required_is_always_held() {
    let required = KeyStates::new();
    assert!(KeyStates::new().is_subset_of(&required));
    assert!(held(&[Key::Lmb, Key::KeyPeriod]).is_subset_of(&required));
}

#[test]
fn subset_test_agrees_with_key_by_key_comparison() {
    let samples = [
        held(&[]),
        held(&[Key::UnknownKey]),
        held(&[Key::KeyPeriod]),
        held(&[Key::UnknownKey, Key::KeyPeriod]),
        held(&[Key::KeyShift, Key::KeyControl]),
        held(&[Key::KeyShift, Key::KeyControl, Key::KeyAlt, Key::Lmb]),
    ];
    for live in samples.iter() {
        for required in samples.iter() {
            let mut every_key_held = true;
            for index in 0..NUMBER_OF_KEYS {
                let key = Key::from_index(index).unwrap();
                if required.get(key) && !live.get(key) {
                    every_key_held = false;
                }
            }
            assert_eq!(live.is_subset_of(required), every_key_held);
        }
    }
}

#[test]
fn and_keeps_the_common_keys() {
    let left = held(&[Key::KeyShift, Key::KeyAlt]);
    let right = held(&[Key::KeyAlt, Key::KeyControl]);
    assert_eq!(left.and(&right), held(&[Key::KeyAlt]));
}

#[test]
fn xor_keeps_the_keys_of_exactly_one_side() {
    let left = held(&[Key::KeyShift, Key::KeyAlt]);
    let right = held(&[Key::KeyAlt, Key::KeyControl]);
    assert_eq!(left.xor(&right), held(&[Key::KeyShift, Key::KeyControl]));
}

#[test]
fn ones_counts_the_keys_held() {
    assert_eq!(held(&[Key::UnknownKey, Key::KeyPeriod, Key::KeyA]).ones(), 3);
    let mut all = KeyStates::new();
    for index in 0..NUMBER_OF_KEYS {
        all.set(Key::from_index(index).unwrap());
    }
    assert_eq!(all.ones(), 64);
}

#[test]
fn every_index_below_the_number_of_keys_is_a_key() {
    assert_eq!(NUMBER_OF_KEYS, 64);
    for index in 0..NUMBER_OF_KEYS {
        let key = Key::from_index(index).unwrap();
        assert_eq!(key.index(), index);
    }
    assert_eq!(Key::from_index(NUMBER_OF_KEYS), None);
    assert_eq!(Key::from_index(usize::MAX), None);
}

#[test]
fn keys_have_the_expected_indices_and_names() {
    assert_eq!(Key::UnknownKey.index(), 0);
    assert_eq!(Key::Lmb.index(), 1);
    assert_eq!(Key::KeyA.index(), 4);
    assert_eq!(Key::Key0.index(), 30);
    assert_eq!(Key::KeyPeriod.index(), 63);
    assert_eq!(Key::Lmb.name(), "Lmb");
    assert_eq!(Key::KeyShift.name(), "KeyShift");
    assert_eq!(Key::KeyArrowLeft.name(), "KeyArrowLeft");
}
