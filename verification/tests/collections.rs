use lessons::collections::{call, try_login, Account, AccountInfo, Accounts};
use lessons::conversion::Circle;
use lessons::elementwise::{add_assign, find_min, mul_assign, sub_assign};
use lessons::primitives::{analyze_slice, reverse};

#[test]
fn calls_are_answered() {
    assert_eq!(
        call("798-1364"),
        "We're sorry, the call cannot be completed as dialed.
            Please hang up and try again."
    );
    assert_eq!(
        call("645-7689"),
        "Hello, this is Mr. Awesome's Pizza. My name is Fred.
            What can I get for you today?"
    );
    assert_eq!(call("435-8291"), "Hi! Who is this again?");
    assert_eq!(call(""), "Hi! Who is this again?");
}

#[test]
fn login_needs_the_right_password() {
    let mut accounts: Accounts = Vec::new();
    accounts.push((
        Account { username: "j.everyman", password: "password123" },
        AccountInfo { name: "John Everyman", email: "j.everyman@email.com" },
    ));
    assert!(try_login(&accounts, "j.everyman", "psasword123").is_none());
    let info = try_login(&accounts, "j.everyman", "password123");
    assert!(info.is_some());
    let info = info.unwrap();
    assert_eq!(info.name, "John Everyman");
    assert_eq!(info.email, "j.everyman@email.com");
    assert!(try_login(&accounts, "password123", "j.everyman").is_none());
    assert!(try_login(&Vec::new(), "j.everyman", "password123").is_none());
}

#[test]
fn a_circle_in_words() {
    assert_eq!(Circle { radius: 5 }.describe(), "Circle of radius 5");
    assert_eq!(Circle { radius: -5 }.describe(), "Circle of radius -5");
}

#[test]
fn a_pair_reversed() {
    assert_eq!(reverse((1, 2)), (2, 1));
}

#[test]
fn a_slice_analysed() {
    let array = [1, 2, 3, 4, 5];
    assert_eq!(analyze_slice(&array), (1, 5));
    assert_eq!(analyze_slice(&array[1..4]), (2, 3));
}

#[test]
fn add_assign_adds_element_by_element() {
    for size in 0_usize..10 {
        let mut x: Vec<u32> = std::iter::repeat(1u32).take(size).collect();
        let y: Vec<u32> = std::iter::repeat(2u32).take(size).collect();
        let z: Vec<u32> = std::iter::repeat(3u32).take(size).collect();
        add_assign(&mut x, &y);
        assert_eq!(x, z);
    }
}

#[test]
fn mul_assign_multiplies_element_by_element() {
    for size in 0_usize..10 {
        let mut x: Vec<u32> = std::iter::repeat(2u32).take(size).collect();
        let y: Vec<u32> = std::iter::repeat(3u32).take(size).collect();
        let z: Vec<u32> = std::iter::repeat(6u32).take(size).collect();
        mul_assign(&mut x, &y);
        assert_eq!(x, z);
    }
}

#[test]
fn sub_assign_subtracts_element_by_element() {
    for size in 0_usize..10 {
        let mut x: Vec<u32> = std::iter::repeat(3u32).take(size).collect();
        let y: Vec<u32> = std::iter::repeat(2u32).take(size).collect();
        let z: Vec<u32> = std::iter::repeat(1u32).take(size).collect();
        sub_assign(&mut x, &y);
        assert_eq!(x, z);
    }
}

#[test]
fn elements_keep_their_places() {
    let mut x = vec![1, 2, 3];
    add_assign(&mut x, &vec![10, 20, 30]);
    assert_eq!(x, vec![11, 22, 33]);
    sub_assign(&mut x, &vec![1, 2, 3]);
    assert_eq!(x, vec![10, 20, 30]);
    mul_assign(&mut x, &vec![0, 1, 2]);
    assert_eq!(x, vec![0, 20, 60]);
}

#[test]
fn the_least_of_several() {
    assert_eq!(find_min(1, &vec![]), 1);
    assert_eq!(find_min(1 + 2, &vec![2]), 2);
    assert_eq!(find_min(5, &vec![2 * 3, 4]), 4);
    assert_eq!(find_min(-1, &vec![3, -1, 0]), -1);
}
