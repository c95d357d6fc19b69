//! A telephone exchange and a register of accounts.

use vstd::prelude::*;

verus! {

/// What is heard when `number` is dialed.
pub open spec fn call_answer(number: Seq<char>) -> Seq<char> {
    if number == "798-1364"@ {
        "We're sorry, the call cannot be completed as dialed.\n            Please hang up and try again."@
    } else if number == "645-7689"@ {
        "Hello, this is Mr. Awesome's Pizza. My name is Fred.\n            What can I get for you today?"@
    } else {
        "Hi! Who is this again?"@
    }
}

/// Dials `number` and returns what is heard.
pub fn call(number: &str) -> (answer: &'static str)
    ensures
        answer@ == call_answer(number@),
{
    if *number == *"798-1364" {
        "We're sorry, the call cannot be completed as dialed.\n            Please hang up and try again."
    } else if *number == *"645-7689" {
        "Hello, this is Mr. Awesome's Pizza. My name is Fred.\n            What can I get for you today?"
    } else {
        "Hi! Who is this again?"
    }
}

/// The credentials of an account.
#[derive(Clone, Copy)]
pub struct Account<'a> {
    pub username: &'a str,
    pub password: &'a str,
}

/// What is known about the holder of an account.
#[derive(Clone, Copy)]
pub struct AccountInfo<'a> {
    pub name: &'a str,
    pub email: &'a str,
}

/// The registered accounts, each with what is known about its holder.
pub type Accounts<'a> = Vec<(Account<'a>, AccountInfo<'a>)>;

/// The entry at `i` was registered with exactly these credentials.
pub open spec fn matches_login(
    accounts: Seq<(Account, AccountInfo)>,
    i: int,
    username: Seq<char>,
    password: Seq<char>,
) -> bool {
    0 <= i < accounts.len() && accounts[i].0.username@ == username && accounts[i].0.password@
        == password
}

/// Looks the credentials up among the accounts. A login succeeds when an
/// account was registered with the same user name and the same password, and
/// then gives what is known about the holder of the first such account.
pub fn try_login<'a>(accounts: &Accounts<'a>, username: &'a str, password: &'a str) -> (info:
    Option<AccountInfo<'a>>)
    ensures
        info is None <==> forall|i: int| !matches_login(accounts@, i, username@, password@),
        info is Some ==> exists|i: int|
            {
                &&& #[trigger] matches_login(accounts@, i, username@, password@)
                &&& info->Some_0 == accounts@[i].1
                &&& forall|k: int| 0 <= k < i ==> !matches_login(accounts@, k, username@, password@)
            },
{
    let mut i: usize = 0;
    while i < accounts.len()
        invariant
            i <= accounts.len(),
            forall|k: int| 0 <= k < i ==> !matches_login(accounts@, k, username@, password@),
        decreases accounts.len() - i,
    {
        let entry = &accounts[i];
        if *entry.0.username == *username && *entry.0.password == *password {
            assert(matches_login(accounts@, i as int, username@, password@));
            return Some(entry.1);
        }
        i += 1;
    }
    None
}

} // verus!
