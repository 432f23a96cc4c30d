use linked_lists::stack::List;

#[test]
fn second_basics() {
    let mut list = List::new();

    // Check empty list behaves right
    assert_eq!(list.pop(), None);

    // Populate the list
    list.push(1);
    list.push(2);
    list.push(3);

    // Check pop on non-empty list (LIFO)
    assert_eq!(list.pop(), Some(3));
    assert_eq!(list.pop(), Some(2));

    // Push some more
    list.push(4);

    // Check exhaustion
    assert_eq!(list.pop(), Some(4));
    assert_eq!(list.pop(), Some(1));
    assert_eq!(list.pop(), None);
}

#[test]
fn second_peek() {
    let mut list = List::new();

    assert_eq!(list.peek(), None);
    assert_eq!(list.peek_mut(), None);

    list.push(1);
    list.push(2);
    list.push(3);

    assert_eq!(list.peek(), Some(&3));
    assert_eq!(list.peek_mut(), Some(&mut 3));
    if let Some(value) = list.peek_mut() {
        *value = 42
    };

    assert_eq!(list.peek(), Some(&42));
    assert_eq!(list.pop(), Some(42))
}

#[test]
fn second_into_iter() {
    let mut list = List::new();
    list.push(1);
    list.push(2);
    list.push(3);

    let mut iter = list.into_iter();
    assert_eq!(iter.next(), Some(3));
    assert_eq!(iter.next(), Some(2));
    assert_eq!(iter.next(), Some(1));
    assert_eq!(iter.next(), None);
}

#[test]
fn iter() {
    let mut list = List::new();
    list.push(1);
    list.push(2);
    list.push(3);

    let mut iter = list.iter();
    assert_eq!(iter.next(), Some(&3));
    assert_eq!(iter.next(), Some(&2));
    assert_eq!(iter.next(), Some(&1));
}

#[test]
fn iter_mut() {
    let mut list = List::new();
    list.push(1);
    list.push(2);
    list.push(3);

    let mut iter = list.iter_mut();
    assert_eq!(iter.next(), Some(&mut 3));
    assert_eq!(iter.next(), Some(&mut 2));
    assert_eq!(iter.next(), Some(&mut 1));
}

#[test]
fn iter_mut_rewrites_elements() {
    let mut list = List::new();
    list.push(1);
    list.push(2);
    list.push(3);

    let mut iter = list.iter_mut();
    while let Some(value) = iter.next() {
        *value += 10;
    }

    assert_eq!(list.pop(), Some(13));
    assert_eq!(list.pop(), Some(12));
    assert_eq!(list.pop(), Some(11));
    assert_eq!(list.pop(), None);
}

#[test]
fn second_iter_ends_absent() {
    let list: List<i32> = List::new();
    let mut iter = list.iter();
    assert_eq!(iter.next(), None);
    assert_eq!(iter.next(), None);
}

#[test]
fn second_large_drop_is_iterative() {
    // Teardown walks the chain in a loop; a recursive teardown would
    // overflow the call stack on a list this long.
    let mut list = List::new();
    for i in 0..100_000u64 {
        list.push(i);
    }
    drop(list);
}
