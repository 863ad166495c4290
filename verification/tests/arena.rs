use virtfs_pipe::Arena;

#[test]
fn a_new_cell_has_one_holder() {
    let mut arena = Arena::new();
    let key = arena.share(String::from("a"));
    assert!(arena.contains(&key));
    assert_eq!(arena.holders(&key), 1);
    assert_eq!(arena.get(&key), "a");
}

#[test]
fn retain_counts_and_release_uncounts() {
    let mut arena = Arena::new();
    let key = arena.share(7u32);
    let second = arena.retain(&key);
    let third = arena.retain(&second);
    assert_eq!(arena.holders(&key), 3);
    assert_eq!(arena.release(third), None);
    assert_eq!(arena.holders(&key), 2);
    assert_eq!(arena.release(key), None);
    assert_eq!(arena.holders(&second), 1);
    assert!(arena.contains(&second));
    let probe = arena.retain(&second);
    assert_eq!(arena.release(second), None);
    assert_eq!(arena.release(probe), Some(7));
}

#[test]
fn a_released_cell_is_gone_and_its_number_is_not_used_again() {
    let mut arena = Arena::new();
    let first = arena.share(1u8);
    let probe = arena.retain(&first);
    assert_eq!(arena.release(first), None);
    let second = arena.share(2u8);
    assert_eq!(arena.release(probe), Some(1));
    let third = arena.share(3u8);
    assert_eq!(*arena.get(&second), 2);
    assert_eq!(*arena.get(&third), 3);
    assert_eq!(arena.holders(&second), 1);
    assert_eq!(arena.holders(&third), 1);
}

#[test]
fn try_unwrap_needs_the_last_key() {
    let mut arena = Arena::new();
    let key = arena.share(vec![1u8, 2]);
    let other = arena.retain(&key);
    let key = match arena.try_unwrap(key) {
        Ok(_) => panic!("the value was taken while another key had it"),
        Err(key) => key,
    };
    assert_eq!(arena.holders(&key), 2);
    assert_eq!(arena.get(&other), &vec![1u8, 2]);
    assert_eq!(arena.release(other), None);
    match arena.try_unwrap(key) {
        Ok(value) => assert_eq!(value, vec![1u8, 2]),
        Err(_) => panic!("the last key could not take the value"),
    }
}

#[test]
fn a_change_through_one_key_shows_through_the_other() {
    let mut arena = Arena::new();
    let key = arena.share(vec![1u8]);
    let other = arena.retain(&key);
    arena.get_mut(&key).push(2);
    assert_eq!(arena.get(&other), &vec![1u8, 2]);
    assert_eq!(arena.replace(&other, vec![9]), vec![1u8, 2]);
    assert_eq!(arena.get(&key), &vec![9u8]);
    assert_eq!(arena.holders(&key), 2);
}

#[test]
fn a_key_of_another_arena_is_not_contained() {
    let mut arena = Arena::new();
    let key = arena.share(1u8);
    let empty: Arena<u8> = Arena::new();
    assert!(!empty.contains(&key));
    assert!(arena.contains(&key));
}
