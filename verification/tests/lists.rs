use double_entry::first;
use double_entry::list::List;

#[test]
fn test_list() {
    let mut list = List::new();

    // Check empty list behaves right
    assert_eq!(list.pop(), None);
    assert_eq!(list.peek(), None);

    // Populate list
    list.push(1);
    list.push(2);
    list.push(3);

    // Peek
    assert_eq!(list.peek(), Some(&3));
    list.peek_mut().map(|val| *val = 42);
    assert_eq!(list.peek(), Some(&42));
    assert_eq!(list.pop(), Some(42));
    list.push(3);

    // Check normal removal
    assert_eq!(list.pop(), Some(3));
    assert_eq!(list.pop(), Some(2));

    // Push some more just to make sure nothing's corrupted
    list.push(4);
    list.push(5);

    // Check normal removal
    assert_eq!(list.pop(), Some(5));
    assert_eq!(list.pop(), Some(4));

    // Check exhaustion
    assert_eq!(list.pop(), Some(1));
    assert_eq!(list.pop(), None);
}

#[test]
fn test_into_iter() {
    let mut list = List::new();
    list.push(1);
    list.push(2);
    list.push(3);

    let mut iter = list.into_iter();
    assert_eq!(iter.next(), Some(3));
    assert_eq!(iter.next(), Some(2));
    assert_eq!(iter.next(), Some(1));
    assert_eq!(iter.next(), None);
}

#[test]
fn iter_walks_from_the_top_and_leaves_the_list() {
    let mut list = List::new();
    list.push(String::from("a"));
    list.push(String::from("b"));

    let mut iter = list.iter();
    assert_eq!(iter.next(), Some(&String::from("b")));
    assert_eq!(iter.next(), Some(&String::from("a")));
    assert_eq!(iter.next(), None);
    assert_eq!(iter.next(), None);

    assert_eq!(list.peek(), Some(&String::from("b")));
    assert_eq!(list.pop(), Some(String::from("b")));
    assert_eq!(list.pop(), Some(String::from("a")));
    assert_eq!(list.pop(), None);
}

#[test]
fn peek_mut_on_empty_list_is_none() {
    let mut list: List<u8> = List::new();
    assert!(list.peek_mut().is_none());
    assert_eq!(list.iter().next(), None);
    assert_eq!(list.into_iter().next(), None);
}

#[test]
fn long_list_is_dropped_without_deep_recursion() {
    let mut list = List::new();
    let mut i: u32 = 0;
    while i < 200_000 {
        list.push(i);
        i += 1;
    }
    assert_eq!(list.peek(), Some(&199_999));
}

#[test]
fn first_list_pops_in_reverse_order() {
    let mut list = first::List::new();
    assert_eq!(list.pop(), None);
    list.push(1);
    list.push(2);
    list.push(3);
    assert_eq!(list.pop(), Some(3));
    assert_eq!(list.pop(), Some(2));
    list.push(-7);
    assert_eq!(list.pop(), Some(-7));
    assert_eq!(list.pop(), Some(1));
    assert_eq!(list.pop(), None);
    assert_eq!(list.pop(), None);
}
