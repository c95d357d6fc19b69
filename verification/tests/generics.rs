use lessons::generics::{
    blue, difference, gen_spec_generic, gen_spec_i32, old_enough, red, reg_fn, BlueJay, Cardinal,
    Container, Contains, Days, DoubleDrop, GenVal, SGen, Years, A, S,
};

#[test]
fn five_years_are_1825_days() {
    let age = Years(5);
    let age_days = age.to_days();
    assert_eq!(age_days.0, 1825);
    assert_eq!(age_days.to_years().0, 5);
}

#[test]
fn partial_years_are_dropped_toward_zero() {
    assert_eq!(Days(729).to_years().0, 1);
    assert_eq!(Days(-729).to_years().0, -1);
    assert_eq!(Days(-364).to_years().0, 0);
}

#[test]
fn five_is_not_old_enough() {
    assert!(!old_enough(&Years(5)));
    assert!(old_enough(&Years(18)));
}

#[test]
fn wrappers_are_taken_and_dropped() {
    reg_fn(S(A));
    gen_spec_i32(SGen(12));
    gen_spec_generic::<char>(SGen('a'));
    gen_spec_generic(SGen('a'));
    A.double_drop(S(A));
}

#[test]
fn colours_and_containers() {
    assert_eq!(red(&Cardinal), "red");
    assert_eq!(blue(&BlueJay), "blue");
    let container = Container(3, 10);
    assert!(container.contains(&3, &10));
    assert!(!container.contains(&10, &3));
    assert_eq!(container.first(), 3);
    assert_eq!(container.last(), 10);
    assert_eq!(difference(&container), 7);
    assert_eq!(*GenVal { gen_val: 3i32 }.value(), 3);
}
