//! Traits: shared behaviour, default methods, supertraits, and two traits
//! that give one type a method of the same name.

use vstd::prelude::*;
use vstd::string::*;

verus! {

/// An animal with a name and a voice.
pub trait Animal: Sized {
    /// An animal called `name`.
    fn new(name: &'static str) -> Self;

    /// What the animal is called.
    fn name(&self) -> &'static str;

    /// The sound the animal makes.
    fn noise(&self) -> &'static str;

    /// What the animal has to say: its name, the word `says` and its sound,
    /// unless the animal has a way of its own with words.
    fn talk(&self) -> (line: String)
        default_ensures
            exists|name: &'static str, noise: &'static str|
                {
                    &&& #[trigger] call_ensures(Self::name, (self,), name)
                    &&& #[trigger] call_ensures(Self::noise, (self,), noise)
                    &&& line@ == name@ + " says "@ + noise@
                },
    {
        let mut line = String::from_str(self.name());
        line.append(" says ");
        line.append(self.noise());
        line
    }
}

/// A sheep, woolly or shorn.
pub struct Sheep {
    naked: bool,
    name: &'static str,
}

impl Sheep {
    /// The sheep has been shorn.
    pub closed spec fn spec_is_naked(&self) -> bool {
        self.naked
    }

    /// What the sheep is called.
    pub closed spec fn spec_name(&self) -> Seq<char> {
        self.name@
    }

    /// The sound of the sheep: puzzled when shorn, content otherwise.
    pub open spec fn spec_noise(&self) -> Seq<char> {
        if self.spec_is_naked() {
            "baaaaah?"@
        } else {
            "baaaaah!"@
        }
    }

    /// Tells whether the sheep has been shorn.
    pub fn is_naked(&self) -> (naked: bool)
        ensures
            naked == self.spec_is_naked(),
    {
        self.naked
    }

    /// Shears the sheep, unless it is shorn already, and reports which it
    /// was. Afterwards the sheep is shorn either way.
    pub fn sheer(&mut self) -> (report: String)
        ensures
            final(self).spec_is_naked(),
            final(self).spec_name() == old(self).spec_name(),
            report@ == old(self).spec_name() + (if old(self).spec_is_naked() {
                " is already naked"@
            } else {
                " gets a haircut!"@
            }),
    {
        if self.is_naked() {
            let mut report = String::from_str(self.name());
            report.append(" is already naked");
            report
        } else {
            let mut report = String::from_str(self.name);
            report.append(" gets a haircut!");
            self.naked = true;
            report
        }
    }
}

impl Animal for Sheep {
    fn new(name: &'static str) -> (sheep: Sheep)
        ensures
            sheep.spec_name() == name@,
            !sheep.spec_is_naked(),
    {
        Sheep { name, naked: false }
    }

    fn name(&self) -> (name: &'static str)
        ensures
            name@ == self.spec_name(),
    {
        self.name
    }

    fn noise(&self) -> (noise: &'static str)
        ensures
            noise@ == self.spec_noise(),
    {
        if self.is_naked() {
            "baaaaah?"
        } else {
            "baaaaah!"
        }
    }

    fn talk(&self) -> (line: String)
        ensures
            line@ == self.spec_name() + " pauses briefly... "@ + self.spec_noise(),
    {
        let mut line = String::from_str(self.name);
        line.append(" pauses briefly... ");
        line.append(self.noise());
        line
    }
}

/// An animal known by its voice alone.
pub trait MyAnimal {
    /// The sound the animal makes.
    fn noise(&self) -> &'static str;
}

/// A sheep.
pub struct MySheep {}

/// A cow.
pub struct MyCow {}

impl MyAnimal for MySheep {
    fn noise(&self) -> (noise: &'static str)
        ensures
            noise@ == "baaaaah!"@,
    {
        "baaaaah!"
    }
}

impl MyAnimal for MyCow {
    fn noise(&self) -> (noise: &'static str)
        ensures
            noise@ == "moooooo!"@,
    {
        "moooooo!"
    }
}

/// Somebody with a name.
pub trait Person {
    /// The name that `name` returns.
    spec fn name_text(&self) -> Seq<char>;

    /// The person's name.
    fn name(&self) -> (name: String)
        ensures
            name@ == self.name_text(),
    ;
}

/// A person who attends a university.
pub trait Student: Person {
    /// The university that `university` returns.
    spec fn university_text(&self) -> Seq<char>;

    /// The university the student attends.
    fn university(&self) -> (university: String)
        ensures
            university@ == self.university_text(),
    ;
}

/// Somebody who writes programs.
pub trait Programmer {
    /// The language that `fav_language` returns.
    spec fn fav_language_text(&self) -> Seq<char>;

    /// The programmer's favourite language.
    fn fav_language(&self) -> (language: String)
        ensures
            language@ == self.fav_language_text(),
    ;
}

/// A student of computing: a programmer and a student at once.
pub trait ITStudent: Programmer + Student {
    /// The user name that `git_username` returns.
    spec fn git_username_text(&self) -> Seq<char>;

    /// The student's user name for version control.
    fn git_username(&self) -> (username: String)
        ensures
            username@ == self.git_username_text(),
    ;
}

/// How a student of computing introduces themselves.
pub open spec fn greeting_text(
    name: Seq<char>,
    university: Seq<char>,
    language: Seq<char>,
    username: Seq<char>,
) -> Seq<char> {
    "My name is "@ + name + " and I attend "@ + university + ". My favorite language is "@
        + language + ". My git username is "@ + username
}

/// The student's introduction.
pub fn it_student_greeting<T: ITStudent>(student: &T) -> (greeting: String)
    ensures
        greeting@ == greeting_text(
            student.name_text(),
            student.university_text(),
            student.fav_language_text(),
            student.git_username_text(),
        ),
{
    let mut greeting = String::from_str("My name is ");
    let name = student.name();
    greeting.append(name.as_str());
    greeting.append(" and I attend ");
    let university = student.university();
    greeting.append(university.as_str());
    greeting.append(". My favorite language is ");
    let language = student.fav_language();
    greeting.append(language.as_str());
    greeting.append(". My git username is ");
    let username = student.git_username();
    greeting.append(username.as_str());
    greeting
}

/// One particular student of computing.
pub struct Me {
    pub name: &'static str,
    pub university: &'static str,
    pub lang: &'static str,
    pub username: &'static str,
}

impl ITStudent for Me {
    open spec fn git_username_text(&self) -> Seq<char> {
        self.username@
    }

    fn git_username(&self) -> String {
        String::from_str(self.username)
    }
}

impl Student for Me {
    open spec fn university_text(&self) -> Seq<char> {
        self.university@
    }

    fn university(&self) -> String {
        String::from_str(self.university)
    }
}

impl Programmer for Me {
    open spec fn fav_language_text(&self) -> Seq<char> {
        self.lang@
    }

    fn fav_language(&self) -> String {
        String::from_str(self.lang)
    }
}

impl Person for Me {
    open spec fn name_text(&self) -> Seq<char> {
        self.name@
    }

    fn name(&self) -> String {
        String::from_str(self.name)
    }
}

/// A form with two fields.
pub struct Form {
    pub username: String,
    pub age: u8,
}

/// Reads the user name of a form.
pub trait UsernameWidget {
    /// The user name that `get` reads.
    spec fn username_text(&self) -> Seq<char>;

    /// The user name.
    fn get(&self) -> (username: String)
        ensures
            username@ == self.username_text(),
    ;
}

/// Reads the age of a form.
pub trait AgeWidget {
    /// The age that `get` reads.
    spec fn age_value(&self) -> u8;

    /// The age.
    fn get(&self) -> (age: u8)
        ensures
            age == self.age_value(),
    ;
}

impl UsernameWidget for Form {
    open spec fn username_text(&self) -> Seq<char> {
        self.username@
    }

    fn get(&self) -> String {
        self.username.clone()
    }
}

impl AgeWidget for Form {
    open spec fn age_value(&self) -> u8 {
        self.age
    }

    fn get(&self) -> u8 {
        self.age
    }
}

} // verus!
