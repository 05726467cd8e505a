use upgrade_dryrun::overlay::{keys_are_unique, StateOverlay};

fn base_pairs() -> Vec<(Vec<u8>, Vec<u8>)> {
    vec![
        (b"alpha".to_vec(), b"one".to_vec()),
        (b"beta".to_vec(), b"two".to_vec()),
        (b"gamma".to_vec(), b"three".to_vec()),
    ]
}

#[test]
fn build_is_deterministic() {
    let injected = vec![(b":code".to_vec(), b"payload".to_vec()), (b"beta".to_vec(), b"patched".to_vec())];
    let o1 = StateOverlay::build(base_pairs(), injected.clone());
    let o2 = StateOverlay::build(base_pairs(), injected);
    assert_eq!(o1.pairs(), o2.pairs());
}

#[test]
fn injected_key_overrides_base_value() {
    let injected = vec![(b"beta".to_vec(), b"patched".to_vec())];
    let o = StateOverlay::build(base_pairs(), injected);
    assert_eq!(o.get(&b"beta".to_vec()), Some(&b"patched".to_vec()));
    assert_eq!(o.len(), 3);
}

#[test]
fn injected_new_key_is_added_and_base_keys_unchanged() {
    let injected = vec![(b":code".to_vec(), b"payload".to_vec())];
    let o = StateOverlay::build(base_pairs(), injected);
    assert_eq!(o.get(&b":code".to_vec()), Some(&b"payload".to_vec()));
    assert_eq!(o.get(&b"alpha".to_vec()), Some(&b"one".to_vec()));
    assert_eq!(o.get(&b"beta".to_vec()), Some(&b"two".to_vec()));
    assert_eq!(o.get(&b"gamma".to_vec()), Some(&b"three".to_vec()));
    assert_eq!(o.len(), 4);
}

#[test]
fn later_injected_pair_wins_for_same_key() {
    let injected = vec![
        (b"beta".to_vec(), b"first".to_vec()),
        (b"beta".to_vec(), b"second".to_vec()),
    ];
    let o = StateOverlay::build(base_pairs(), injected);
    assert_eq!(o.get(&b"beta".to_vec()), Some(&b"second".to_vec()));
    assert_eq!(o.len(), 3);
}

#[test]
fn empty_base_and_empty_injection() {
    let o = StateOverlay::build(Vec::new(), Vec::new());
    assert_eq!(o.len(), 0);
    assert_eq!(o.get(&b"anything".to_vec()), None);
}

#[test]
fn absent_key_is_absent() {
    let o = StateOverlay::build(base_pairs(), Vec::new());
    assert_eq!(o.get(&b"delta".to_vec()), None);
}

#[test]
fn duplicate_base_keys_are_detected() {
    let duplicated = vec![(b"a".to_vec(), b"1".to_vec()), (b"a".to_vec(), b"2".to_vec())];
    assert!(!keys_are_unique(&duplicated));
    assert!(keys_are_unique(&base_pairs()));
    assert!(keys_are_unique(&Vec::new()));
}
