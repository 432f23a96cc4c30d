use linked_lists::int_stack::List;

#[test]
fn first_basics() {
    let mut list = List::new();

    // Check empty list behaves right
    assert_eq!(list.pop(), None);

    // Populate the list
    list.push(1);
    list.push(2);
    list.push(3);

    // Check pop on non-empty list (LIFO)
    assert_eq!(list.pop(), Some(3));
    assert_eq!(list.pop(), Some(2));

    // Push some more
    list.push(4);

    // Check exhaustion
    assert_eq!(list.pop(), Some(4));
    assert_eq!(list.pop(), Some(1));
    assert_eq!(list.pop(), None);
}

#[test]
fn first_pop_empty_repeatedly() {
    let mut list = List::new();
    assert_eq!(list.pop(), None);
    assert_eq!(list.pop(), None);
    assert_eq!(list.pop(), None);
    list.push(7);
    assert_eq!(list.pop(), Some(7));
    assert_eq!(list.pop(), None);
    assert_eq!(list.pop(), None);
}

#[test]
fn first_default_is_empty() {
    let mut list = List::default();
    assert_eq!(list.pop(), None);
}

#[test]
fn first_large_drop_is_iterative() {
    // Teardown walks the chain in a loop; a recursive teardown would
    // overflow the call stack on a list this long.
    let mut list = List::new();
    for i in 0..100_000 {
        list.push(i);
    }
    drop(list);
}
