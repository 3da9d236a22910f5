use xenon::binary_data::BinaryData;
use xenon::env::EnvData;

#[test]
fn pushed_bytes_resolve_until_removed() {
    let mut table = BinaryData::new();
    let a = table.push(&[1, 2, 3]);
    let b = table.push(&[4, 5]);
    assert_eq!(a, 0);
    assert_eq!(b, 1);
    assert_eq!(table.get(a), Some(&[1u8, 2, 3][..]));
    assert_eq!(table.get(b), Some(&[4u8, 5][..]));
    assert_eq!(table.remove(a), Some(vec![1, 2, 3]));
    assert_eq!(table.get(a), None);
    assert_eq!(table.get(b), Some(&[4u8, 5][..]));
    assert_eq!(table.len(), 2);
    assert_eq!(table.size(), 2);
}

#[test]
fn next_push_reuses_most_recently_removed_handle() {
    let mut table = BinaryData::new();
    for i in 0..4u8 {
        table.push(&[i]);
    }
    assert_eq!(table.remove(1), Some(vec![1]));
    assert_eq!(table.remove(3), Some(vec![3]));
    assert_eq!(table.push(&[9]), 3);
    assert_eq!(table.push(&[8]), 1);
    assert_eq!(table.push(&[7]), 4);
    assert_eq!(table.get(3), Some(&[9u8][..]));
    assert_eq!(table.get(1), Some(&[8u8][..]));
}

#[test]
fn removing_free_or_unknown_handle_gives_nothing() {
    let mut table = BinaryData::new();
    let a = table.push(&[]);
    assert_eq!(table.remove(a), Some(vec![]));
    assert_eq!(table.remove(a), None);
    assert_eq!(table.remove(17), None);
    assert_eq!(table.push(&[5]), a);
    assert_eq!(table.push(&[6]), 1);
}

#[test]
fn replace_swaps_live_buffer_only() {
    let mut table = BinaryData::new();
    let a = table.push(&[1]);
    assert_eq!(table.replace(a, vec![2, 2]), Ok(vec![1]));
    assert_eq!(table.get(a), Some(&[2u8, 2][..]));
    assert_eq!(table.replace(5, vec![3]), Err(vec![3]));
}

#[test]
fn env_data_starts_empty_and_unnotified() {
    let mut env = EnvData::new();
    assert!(!env.notified());
    assert_eq!(env.get_binary_data(0), None);
    let h = env.push_binary_data(&[7, 7]);
    assert_eq!(env.get_binary_data(h), Some(&[7u8, 7][..]));
    env.set_notified(true);
    assert!(env.notified());
    assert_eq!(env.remove_binary_data(h), Some(vec![7, 7]));
}
