use lessons::iterators::{
    combine_vectors, combine_vectors_explicit_return_type, double_positives, fibonacci,
    fibonacci_terms,
};

#[test]
fn fibonacci_starts_with_zero_and_one() {
    let mut walk = fibonacci();
    assert_eq!(walk.next(), Some(0));
    assert_eq!(walk.next(), Some(1));
    assert_eq!(walk.next(), Some(1));
    assert_eq!(walk.next(), Some(2));
    assert_eq!(walk.next(), Some(3));
    assert_eq!(walk.next(), Some(5));
}

#[test]
fn the_first_four_terms_and_the_next_four() {
    assert_eq!(fibonacci_terms(0, 4), vec![0, 1, 1, 2]);
    assert_eq!(fibonacci_terms(4, 4), vec![3, 5, 8, 13]);
    assert_eq!(fibonacci_terms(10, 0), Vec::<u32>::new());
}

#[test]
fn the_walk_reaches_the_last_number_that_fits() {
    let terms = fibonacci_terms(0, 47);
    assert_eq!(terms.len(), 47);
    assert_eq!(terms[45], 1134903170);
    assert_eq!(terms[46], 1836311903);
    for i in 2..47 {
        assert_eq!(terms[i], terms[i - 1] + terms[i - 2]);
    }
}

#[test]
fn combined_vectors_come_round_again() {
    let v1 = vec![1, 2, 3];
    let v2 = vec![4, 5];
    let mut v3 = combine_vectors(v1, v2);
    assert_eq!(Some(1), v3.next());
    assert_eq!(Some(2), v3.next());
    assert_eq!(Some(3), v3.next());
    assert_eq!(Some(4), v3.next());
    assert_eq!(Some(5), v3.next());
    assert_eq!(Some(1), v3.next());
    assert_eq!(Some(2), v3.next());
}

#[test]
fn combined_vectors_with_the_type_written_out() {
    let mut cycle = combine_vectors_explicit_return_type(vec![], vec![7]);
    assert_eq!(cycle.next(), Some(7));
    assert_eq!(cycle.next(), Some(7));
    let mut other = combine_vectors_explicit_return_type(vec![8, 9], vec![]);
    assert_eq!(other.next(), Some(8));
    assert_eq!(other.next(), Some(9));
    assert_eq!(other.next(), Some(8));
}

#[test]
fn nothing_combined_gives_nothing() {
    let mut cycle = combine_vectors(vec![], vec![]);
    assert_eq!(cycle.next(), None);
    assert_eq!(cycle.next(), None);
}

#[test]
fn positives_are_doubled() {
    let singles = vec![-3, -2, 2, 3];
    assert_eq!(double_positives(&singles), vec![4, 6]);
    assert_eq!(double_positives(&vec![0, -1]), Vec::<i32>::new());
    assert_eq!(double_positives(&vec![]), Vec::<i32>::new());
    assert_eq!(double_positives(&vec![1073741823, i32::MIN]), vec![2147483646]);
}
