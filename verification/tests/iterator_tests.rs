use book_examples::iterators::map_add_one;

#[test]
fn example2() {
    let v = vec![1, 2, 3];
    let mut v_iter = v.iter();

    assert_eq!(v_iter.next(), Some(&1));
    assert_eq!(v_iter.next(), Some(&2));
    assert_eq!(v_iter.next(), Some(&3));
    assert_eq!(v_iter.next(), None);
}

#[test]
fn example3() {
    let v = vec![1, 2, 3];
    let mut v_iter = v.into_iter();

    assert_eq!(v_iter.next(), Some(1));
    assert_eq!(v_iter.next(), Some(2));
    assert_eq!(v_iter.next(), Some(3));
    assert_eq!(v_iter.next(), None);
}

#[test]
fn example4() {
    let v = vec![1, 2, 3];
    let v_iter = v.iter();
    let total: i32 = v_iter.sum();
    assert_eq!(total, 6);
}

#[test]
fn map_add_one_increments_each_element() {
    let v = vec![1, 2, 3];
    let v1 = map_add_one(&v);
    assert_eq!(v1, vec![2, 3, 4]);
}
