use lessons::traits::{
    it_student_greeting, AgeWidget, Animal, Form, Me, MyAnimal, MyCow, MySheep, Sheep,
    UsernameWidget,
};

#[test]
fn dolly_gets_a_haircut() {
    let mut dolly: Sheep = Animal::new("Dolly");
    assert_eq!(dolly.name(), "Dolly");
    assert!(!dolly.is_naked());
    assert_eq!(dolly.noise(), "baaaaah!");
    assert_eq!(dolly.talk(), "Dolly pauses briefly... baaaaah!");
    assert_eq!(dolly.sheer(), "Dolly gets a haircut!");
    assert!(dolly.is_naked());
    assert_eq!(dolly.noise(), "baaaaah?");
    assert_eq!(dolly.talk(), "Dolly pauses briefly... baaaaah?");
    assert_eq!(dolly.sheer(), "Dolly is already naked");
    assert!(dolly.is_naked());
    assert_eq!(dolly.name(), "Dolly");
}

struct Dog;

impl Animal for Dog {
    fn new(_name: &'static str) -> Dog {
        Dog
    }

    fn name(&self) -> &'static str {
        "Rex"
    }

    fn noise(&self) -> &'static str {
        "woof"
    }
}

#[test]
fn animals_talk_by_default() {
    let dog: Dog = Animal::new("ignored");
    assert_eq!(dog.talk(), "Rex says woof");
}

#[test]
fn animals_are_known_by_their_voice() {
    assert_eq!(MySheep {}.noise(), "baaaaah!");
    assert_eq!(MyCow {}.noise(), "moooooo!");
}

#[test]
fn a_student_introduces_themselves() {
    let me = Me { name: "manikya", lang: "rust", university: "dtu", username: "Manikya-Sharma" };
    assert_eq!(
        it_student_greeting(&me),
        "My name is manikya and I attend dtu. My favorite language is rust. My git username is Manikya-Sharma"
    );
}

#[test]
fn one_form_two_widgets() {
    let form = Form { username: "rustacean".to_owned(), age: 28 };
    let username = <Form as UsernameWidget>::get(&form);
    let age = <Form as AgeWidget>::get(&form);
    assert_eq!("rustacean".to_owned(), username);
    assert_eq!(28, age);
}
