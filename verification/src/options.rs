//! Values that may be absent: unwrapping, early return and combinators.

use vstd::prelude::*;
use vstd::string::*;
use crate::text::{decimal, decimal_string};

verus! {

/// What is said over a glass of `beverage`. Lemonade is never served.
pub fn drink(beverage: &str) -> (remark: String)
    requires
        beverage@ != "lemonade"@,
    ensures
        remark@ == "Some refreshing "@ + beverage@ + " is all I need"@,
{
    let mut remark = String::from_str("Some refreshing ");
    remark.append(beverage);
    remark.append(" is all I need");
    remark
}

/// The answer to an offered drink, or to none.
pub open spec fn adult_answer(drink: Option<Seq<char>>) -> Seq<char> {
    match drink {
        Some(inner) => if inner == "lemonade"@ {
            "Yuck! Too sugary"@
        } else {
            inner + "? How nice"@
        },
        None => "No drink? Oh well."@,
    }
}

/// `drink`, with the text it holds.
pub open spec fn drink_text(drink: Option<&str>) -> Option<Seq<char>> {
    match drink {
        Some(inner) => Some(inner@),
        None => None,
    }
}

/// Answers an offered drink: lemonade is refused, anything else is welcome,
/// and nothing at all is met with a shrug.
pub fn give_adult(drink: Option<&str>) -> (answer: String)
    ensures
        answer@ == adult_answer(drink_text(drink)),
{
    match drink {
        Some(inner) => {
            if *inner == *"lemonade" {
                String::from_str("Yuck! Too sugary")
            } else {
                let mut answer = String::from_str(inner);
                answer.append("? How nice");
                answer
            }
        },
        None => String::from_str("No drink? Oh well."),
    }
}

/// Praises the drink that was handed over. There must be one, and it must
/// not be lemonade.
pub fn drink4(drink: Option<&str>) -> (praise: String)
    requires
        drink is Some,
        drink->Some_0@ != "lemonade"@,
    ensures
        praise@ == "I love "@ + drink->Some_0@ + "s!"@,
{
    let inside = drink.unwrap();
    let mut praise = String::from_str("I love ");
    praise.append(inside);
    praise.append("s!");
    praise
}

/// Announces the age reached at the next birthday, if the current age is
/// known. An age of 255 has no successor in a `u8`.
pub fn next_birthday(current_age: Option<u8>) -> (announcement: Option<String>)
    requires
        current_age != Some(255u8),
    ensures
        current_age is None ==> announcement is None,
        current_age is Some ==> announcement is Some && announcement->Some_0@
            == "Next year I will be "@ + decimal((current_age->Some_0 + 1) as nat),
{
    let next_age: u8 = current_age? + 1;
    let mut announcement = String::from_str("Next year I will be ");
    let digits = decimal_string(next_age as u64);
    announcement.append(digits.as_str());
    Some(announcement)
}

/// A telephone number, with its area code where it is known.
#[derive(Clone, Copy, Debug, PartialEq, Eq, Structural)]
pub struct PhoneNumber {
    pub area_code: Option<u8>,
    pub number: u32,
}

/// A job, with its telephone number where it has one.
#[derive(Clone, Copy, Debug, PartialEq, Eq, Structural)]
pub struct Job {
    pub phone_number: Option<PhoneNumber>,
}

/// A person, with their job where they have one.
#[derive(Clone, Copy, Debug, PartialEq, Eq, Structural)]
pub struct Person {
    pub job: Option<Job>,
}

impl Person {
    /// The area code under which the person is reached at work.
    pub open spec fn spec_work_area_code(&self) -> Option<u8> {
        match self.job {
            Some(job) => match job.phone_number {
                Some(phone_number) => phone_number.area_code,
                None => None,
            },
            None => None,
        }
    }

    /// The area code of the person's work telephone: present only if the
    /// person has a job, the job a telephone number, and the number an area
    /// code.
    pub fn work_area_code(&self) -> (code: Option<u8>)
        ensures
            code == self.spec_work_area_code(),
    {
        self.job?.phone_number?.area_code
    }
}

/// Something to eat.
#[derive(Clone, Copy, Debug, PartialEq, Eq, Structural)]
pub enum Food {
    Apple,
    Carrot,
    Potato,
}

/// Food that has been peeled.
#[derive(Clone, Copy, Debug, PartialEq, Eq, Structural)]
pub struct Peeled(pub Food);

/// Food that has been peeled and chopped.
#[derive(Clone, Copy, Debug, PartialEq, Eq, Structural)]
pub struct Chopped(pub Food);

/// Food that has been peeled, chopped and cooked.
#[derive(Clone, Copy, Debug, PartialEq, Eq, Structural)]
pub struct Cooked(pub Food);

/// Peels the food, if there is any.
pub fn peel(food: Option<Food>) -> (peeled: Option<Peeled>)
    ensures
        peeled == (match food {
            Some(f) => Some(Peeled(f)),
            None => None,
        }),
{
    match food {
        Some(food) => Some(Peeled(food)),
        None => None,
    }
}

/// Chops the peeled food, if there is any.
pub fn chop(peeled: Option<Peeled>) -> (chopped: Option<Chopped>)
    ensures
        chopped == (match peeled {
            Some(Peeled(f)) => Some(Chopped(f)),
            None => None,
        }),
{
    match peeled {
        Some(Peeled(food)) => Some(Chopped(food)),
        None => None,
    }
}

/// Cooks the chopped food, if there is any.
pub fn cook(chopped: Option<Chopped>) -> (cooked: Option<Cooked>)
    ensures
        cooked == (match chopped {
            Some(Chopped(f)) => Some(Cooked(f)),
            None => None,
        }),
{
    let to_cooked = |c: Chopped| -> (r: Cooked)
        ensures
            r == Cooked(c.0)
    {
        Cooked(c.0)
    };
    chopped.map(to_cooked)
}

/// Peels, chops and cooks the food in one go, if there is any.
pub fn process(food: Option<Food>) -> (cooked: Option<Cooked>)
    ensures
        cooked == (match food {
            Some(f) => Some(Cooked(f)),
            None => None,
        }),
{
    let to_peeled = |f: Food| -> (r: Peeled)
        ensures
            r == Peeled(f)
    {
        Peeled(f)
    };
    let to_chopped = |p: Peeled| -> (r: Chopped)
        ensures
            r == Chopped(p.0)
    {
        Chopped(p.0)
    };
    let to_cooked = |c: Chopped| -> (r: Cooked)
        ensures
            r == Cooked(c.0)
    {
        Cooked(c.0)
    };
    food.map(to_peeled).map(to_chopped).map(to_cooked)
}

/// A dish.
#[derive(Clone, Copy, Debug, PartialEq, Eq, Structural)]
pub enum Food2 {
    CordonBleu,
    Steak,
    Sushi,
}

/// A day of the week.
#[derive(Clone, Copy, Debug, PartialEq, Eq, Structural)]
pub enum Day {
    Monday,
    Tuesday,
    Wednesday,
}

/// The dish, unless its ingredients are missing: there is never any fish
/// for sushi.
pub open spec fn spec_have_ingredients(food: Food2) -> Option<Food2> {
    if food == Food2::Sushi {
        None
    } else {
        Some(food)
    }
}

/// The dish, unless its recipe is missing: nobody knows how to make cordon
/// bleu.
pub open spec fn spec_have_recipe(food: Food2) -> Option<Food2> {
    if food == Food2::CordonBleu {
        None
    } else {
        Some(food)
    }
}

/// The dish, if both its recipe and its ingredients are at hand.
pub open spec fn spec_cookable(food: Food2) -> Option<Food2> {
    match spec_have_recipe(food) {
        None => None,
        Some(known) => spec_have_ingredients(known),
    }
}

/// Hands the dish back if its ingredients are at hand.
pub fn have_ingredients(food: Food2) -> (available: Option<Food2>)
    ensures
        available == spec_have_ingredients(food),
{
    match food {
        Food2::Sushi => None,
        _ => Some(food),
    }
}

/// Hands the dish back if its recipe is known.
pub fn have_recipe(food: Food2) -> (known: Option<Food2>)
    ensures
        known == spec_have_recipe(food),
{
    match food {
        Food2::CordonBleu => None,
        _ => Some(food),
    }
}

/// Hands the dish back if it can be cooked, deciding by a `match`.
pub fn cookable_v1(food: Food2) -> (dish: Option<Food2>)
    ensures
        dish == spec_cookable(food),
{
    match have_recipe(food) {
        None => None,
        Some(food) => have_ingredients(food),
    }
}

/// Hands the dish back if it can be cooked, deciding with `and_then`.
pub fn cookable_v3(food: Food2) -> (dish: Option<Food2>)
    ensures
        dish == spec_cookable(food),
{
    have_recipe(food).and_then(have_ingredients)
}

/// Hands the dish back if it can be cooked, deciding with `map` and
/// `flatten`.
pub fn cookable_v2(food: Food2) -> (dish: Option<Food2>)
    ensures
        dish == spec_cookable(food),
{
    have_recipe(food).map(have_ingredients).flatten()
}

/// The name of a food.
pub open spec fn food_name(food: Food) -> Seq<char> {
    match food {
        Food::Apple => "Apple"@,
        Food::Carrot => "Carrot"@,
        Food::Potato => "Potato"@,
    }
}

/// The name of a dish.
pub open spec fn dish_name(food: Food2) -> Seq<char> {
    match food {
        Food2::CordonBleu => "CordonBleu"@,
        Food2::Steak => "Steak"@,
        Food2::Sushi => "Sushi"@,
    }
}

/// The name of a day.
pub open spec fn day_name(day: Day) -> Seq<char> {
    match day {
        Day::Monday => "Monday"@,
        Day::Tuesday => "Tuesday"@,
        Day::Wednesday => "Wednesday"@,
    }
}

impl Food {
    /// The name of the food.
    pub fn name(&self) -> (name: &'static str)
        ensures
            name@ == food_name(*self),
    {
        match self {
            Food::Apple => "Apple",
            Food::Carrot => "Carrot",
            Food::Potato => "Potato",
        }
    }
}

impl Food2 {
    /// The name of the dish.
    pub fn name(&self) -> (name: &'static str)
        ensures
            name@ == dish_name(*self),
    {
        match self {
            Food2::CordonBleu => "CordonBleu",
            Food2::Steak => "Steak",
            Food2::Sushi => "Sushi",
        }
    }
}

impl Day {
    /// The name of the day.
    pub fn name(&self) -> (name: &'static str)
        ensures
            name@ == day_name(*self),
    {
        match self {
            Day::Monday => "Monday",
            Day::Tuesday => "Tuesday",
            Day::Wednesday => "Wednesday",
        }
    }
}

/// What is said of a meal, or of the lack of one.
pub fn eat(food: Option<Cooked>) -> (remark: String)
    ensures
        remark@ == (match food {
            Some(Cooked(f)) => "Mmm, I love Cooked("@ + food_name(f) + ")"@,
            None => "It wasn't edible!"@,
        }),
{
    match food {
        Some(food) => {
            let mut remark = String::from_str("Mmm, I love Cooked(");
            remark.append(food.0.name());
            remark.append(")");
            remark
        },
        None => String::from_str("It wasn't edible!"),
    }
}

/// Says whether the dish can be eaten on that day: it can if it can be
/// cooked.
pub fn eat2(food: Food2, day: Day) -> (remark: String)
    ensures
        remark@ == (match spec_cookable(food) {
            Some(dish) => "We can eat "@ + dish_name(dish) + " on "@ + day_name(day),
            None => "We cant eat on "@ + day_name(day),
        }),
{
    match cookable_v3(food) {
        Some(food) => {
            let mut remark = String::from_str("We can eat ");
            remark.append(food.name());
            remark.append(" on ");
            remark.append(day.name());
            remark
        },
        None => {
            let mut remark = String::from_str("We cant eat on ");
            remark.append(day.name());
            remark
        },
    }
}

/// A fruit.
#[derive(Clone, Copy, Debug, PartialEq, Eq, Structural)]
pub enum Fruit {
    Apple,
    Orange,
    Banana,
    Kiwi,
    Lemon,
}

/// The first of three offers that holds a fruit.
pub fn first_available_fruit(
    first: Option<Fruit>,
    second: Option<Fruit>,
    third: Option<Fruit>,
) -> (fruit: Option<Fruit>)
    ensures
        fruit == (if first is Some {
            first
        } else if second is Some {
            second
        } else {
            third
        }),
{
    first.or(second).or(third)
}

/// Puts `fallback` into the basket if it is empty, and returns the fruit
/// that the basket then holds.
pub fn fruit_or_insert(basket: &mut Option<Fruit>, fallback: Fruit) -> (fruit: Fruit)
    ensures
        fruit == (match *old(basket) {
            Some(present) => present,
            None => fallback,
        }),
        *final(basket) == Some(fruit),
{
    *basket.get_or_insert(fallback)
}

} // verus!
