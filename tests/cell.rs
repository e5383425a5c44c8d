use desim_benchmark::cell::Exchange;

#[test]
fn take_then_put_round_trip() {
    let mut cell = Exchange::new(vec![1u8, 2]);
    assert!(!cell.is_taken());
    let mut v = cell.take().unwrap();
    assert!(cell.is_taken());
    v.push(3);
    cell.put(v);
    assert!(!cell.is_taken());
    assert_eq!(cell.peek(), &vec![1u8, 2, 3]);
}

#[test]
fn double_checkout_is_detected() {
    let mut cell = Exchange::new(5u32);
    assert_eq!(cell.take(), Some(5));
    assert_eq!(cell.take(), None);
    assert!(cell.is_taken());
}
