use lessons::linked_list::List;

#[test]
fn a_list_of_three() {
    let mut list = List::new();
    list = list.prepend(3);
    list = list.prepend(4);
    list = list.prepend(5);
    assert_eq!(list.len(), 3);
    assert_eq!(list.stringify(), "5, 4, 3, Nil");
}

#[test]
fn an_empty_list() {
    let list = List::new();
    assert_eq!(list.len(), 0);
    assert_eq!(list.stringify(), "Nil");
}

#[test]
fn a_list_of_one() {
    let list = List::new().prepend(4294967295);
    assert_eq!(list.len(), 1);
    assert_eq!(list.stringify(), "4294967295, Nil");
    assert!(matches!(list, List::Cons(4294967295, _)));
}
