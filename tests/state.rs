use desim_benchmark::state::State;

#[test]
fn insert_then_get_returns_value() {
    let mut state: State<u64> = State::new();
    let a = state.insert(7);
    let b = state.insert(9);
    assert_eq!(state.get(a), Some(&7));
    assert_eq!(state.get(b), Some(&9));
    assert_eq!(state.len(), 2);
}

#[test]
fn replace_is_visible_to_get() {
    let mut state: State<u64> = State::new();
    let a = state.insert(1);
    let b = state.insert(2);
    assert_eq!(state.replace(a, 5), Some(1));
    assert_eq!(state.get(a), Some(&5));
    assert_eq!(state.get(b), Some(&2));
}

#[test]
fn remove_twice_gives_absent() {
    let mut state: State<u64> = State::new();
    let a = state.insert(3);
    assert_eq!(state.remove(a), Some(3));
    assert_eq!(state.remove(a), None);
    assert_eq!(state.remove(a), None);
    assert_eq!(state.get(a), None);
    assert_eq!(state.replace(a, 4), None);
    assert_eq!(state.get(a), None);
}

#[test]
fn never_inserted_handle_is_absent() {
    let mut other: State<u64> = State::new();
    other.insert(1);
    let far = other.insert(2);
    let mut state: State<u64> = State::new();
    state.insert(10);
    assert_eq!(state.get(far), None);
    assert_eq!(state.remove(far), None);
    assert_eq!(state.remove(far), None);
    assert_eq!(state.len(), 1);
}
