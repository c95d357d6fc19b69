use lessons::options::{
    eat, eat2, Day, chop, cook, cookable_v1, cookable_v2, cookable_v3, drink, drink4, first_available_fruit,
    fruit_or_insert, give_adult, have_ingredients, have_recipe, next_birthday, peel, process,
    Chopped, Cooked, Food, Food2, Fruit, Job, Peeled, Person, PhoneNumber,
};

#[test]
fn water_is_refreshing() {
    assert_eq!(drink("water"), "Some refreshing water is all I need");
}

#[test]
fn adults_refuse_lemonade() {
    assert_eq!(give_adult(Some("water")), "water? How nice");
    assert_eq!(give_adult(Some("lemonade")), "Yuck! Too sugary");
    assert_eq!(give_adult(None), "No drink? Oh well.");
    assert_eq!(give_adult(Some("lemonades")), "lemonades? How nice");
    assert_eq!(give_adult(Some("")), "? How nice");
}

#[test]
fn coffee_is_loved() {
    assert_eq!(drink4(Some("coffee")), "I love coffees!");
}

#[test]
fn next_birthday_counts_one_up() {
    assert_eq!(next_birthday(Some(13)), Some("Next year I will be 14".to_string()));
    assert_eq!(next_birthday(Some(0)), Some("Next year I will be 1".to_string()));
    assert_eq!(next_birthday(Some(254)), Some("Next year I will be 255".to_string()));
    assert_eq!(next_birthday(None), None);
}

#[test]
fn work_area_code_is_found() {
    let p = Person {
        job: Some(Job {
            phone_number: Some(PhoneNumber { area_code: Some(16), number: 12344556 }),
        }),
    };
    assert_eq!(p.work_area_code(), Some(16));
}

#[test]
fn work_area_code_needs_every_link() {
    assert_eq!(Person { job: None }.work_area_code(), None);
    assert_eq!(Person { job: Some(Job { phone_number: None }) }.work_area_code(), None);
    let no_code = Person {
        job: Some(Job { phone_number: Some(PhoneNumber { area_code: None, number: 1 }) }),
    };
    assert_eq!(no_code.work_area_code(), None);
}

#[test]
fn apples_get_cooked_step_by_step() {
    assert_eq!(peel(Some(Food::Apple)), Some(Peeled(Food::Apple)));
    assert_eq!(chop(Some(Peeled(Food::Carrot))), Some(Chopped(Food::Carrot)));
    assert_eq!(cook(Some(Chopped(Food::Potato))), Some(Cooked(Food::Potato)));
    assert_eq!(cook(chop(peel(Some(Food::Apple)))), Some(Cooked(Food::Apple)));
    assert_eq!(cook(chop(peel(None))), None);
}

#[test]
fn process_does_all_steps() {
    assert_eq!(process(Some(Food::Carrot)), Some(Cooked(Food::Carrot)));
    assert_eq!(process(None), None);
}

#[test]
fn only_steak_is_cookable() {
    assert_eq!(have_ingredients(Food2::Sushi), None);
    assert_eq!(have_ingredients(Food2::Steak), Some(Food2::Steak));
    assert_eq!(have_recipe(Food2::CordonBleu), None);
    assert_eq!(have_recipe(Food2::Sushi), Some(Food2::Sushi));
    assert_eq!(cookable_v1(Food2::CordonBleu), None);
    assert_eq!(cookable_v1(Food2::Steak), Some(Food2::Steak));
    assert_eq!(cookable_v1(Food2::Sushi), None);
    assert_eq!(cookable_v2(Food2::CordonBleu), None);
    assert_eq!(cookable_v2(Food2::Steak), Some(Food2::Steak));
    assert_eq!(cookable_v2(Food2::Sushi), None);
    assert_eq!(cookable_v3(Food2::CordonBleu), None);
    assert_eq!(cookable_v3(Food2::Steak), Some(Food2::Steak));
    assert_eq!(cookable_v3(Food2::Sushi), None);
}

#[test]
fn the_first_fruit_on_offer_wins() {
    assert_eq!(
        first_available_fruit(None, Some(Fruit::Orange), Some(Fruit::Apple)),
        Some(Fruit::Orange)
    );
    assert_eq!(
        first_available_fruit(Some(Fruit::Kiwi), Some(Fruit::Orange), None),
        Some(Fruit::Kiwi)
    );
    assert_eq!(first_available_fruit(None, None, Some(Fruit::Lemon)), Some(Fruit::Lemon));
    assert_eq!(first_available_fruit(None, None, None), None);
}

#[test]
fn an_empty_basket_takes_the_fallback() {
    let mut my_fruit: Option<Fruit> = None;
    assert_eq!(fruit_or_insert(&mut my_fruit, Fruit::Apple), Fruit::Apple);
    assert_eq!(my_fruit, Some(Fruit::Apple));
    assert_eq!(fruit_or_insert(&mut my_fruit, Fruit::Banana), Fruit::Apple);
    assert_eq!(my_fruit, Some(Fruit::Apple));
}

#[test]
fn meals_are_remarked_on() {
    assert_eq!(eat(Some(Cooked(Food::Apple))), format!("Mmm, I love {:?}", Cooked(Food::Apple)));
    assert_eq!(eat(Some(Cooked(Food::Carrot))), "Mmm, I love Cooked(Carrot)");
    assert_eq!(eat(None), "It wasn't edible!");
    assert_eq!(eat2(Food2::CordonBleu, Day::Monday), "We cant eat on Monday");
    assert_eq!(eat2(Food2::Steak, Day::Tuesday), "We can eat Steak on Tuesday");
    assert_eq!(eat2(Food2::Sushi, Day::Wednesday), "We cant eat on Wednesday");
}

#[test]
fn names_are_the_variants() {
    for food in [Food::Apple, Food::Carrot, Food::Potato] {
        assert_eq!(food.name(), format!("{:?}", food));
    }
    for dish in [Food2::CordonBleu, Food2::Steak, Food2::Sushi] {
        assert_eq!(dish.name(), format!("{:?}", dish));
    }
    for day in [Day::Monday, Day::Tuesday, Day::Wednesday] {
        assert_eq!(day.name(), format!("{:?}", day));
    }
}
