//! Test-data generation: the shapes a public random-user service answers
//! with, and the check that a generated name is usable as an account
//! name. Fetching the data is network I/O and happens outside.

use vstd::prelude::*;
use vstd::string::StringExecFns;

use crate::email_address::EmailAddress;
use crate::text::str_eq;

verus! {

/// How many random users to create.
#[derive(Clone, Copy, Debug)]
pub struct RandomUsersCommand {
    pub count: usize,
}

/// A character allowed in a generated account name: an ASCII letter or a
/// hyphen.
pub open spec fn is_english_name_char(c: char) -> bool {
    ('a' <= c && c <= 'z') || ('A' <= c && c <= 'Z') || c == '-'
}

/// Every character of `s` is allowed in a generated account name.
pub open spec fn english_name(s: Seq<char>) -> bool {
    forall|i: int| 0 <= i < s.len() ==> is_english_name_char(#[trigger] s[i])
}

fn english_name_check(s: &str) -> (r: bool)
    ensures
        r == english_name(s@),
{
    let len = s.unicode_len();
    let mut i: usize = 0;
    while i < len
        invariant
            len == s@.len(),
            i <= len,
            forall|j: int| 0 <= j < i ==> is_english_name_char(#[trigger] s@[j]),
        decreases len - i,
    {
        let c = s.get_char(i);
        if !((c >= 'a' && c <= 'z') || (c >= 'A' && c <= 'Z') || c == '-') {
            return false;
        }
        i += 1;
    }
    true
}

/// A generated person's name.
#[derive(Clone, Debug)]
pub struct RandomUserName {
    pub first: String,
    pub last: String,
    pub title: String,
}

impl RandomUserName {
    /// Whether both name parts hold only ASCII letters and hyphens, so
    /// the name can become an account name.
    pub fn is_name_english_alphabet(&self) -> (r: bool)
        ensures
            r == (english_name(self.first@) && english_name(self.last@)),
    {
        english_name_check(self.first.as_str()) && english_name_check(self.last.as_str())
    }

    /// First and last name joined with a space, as the account's display
    /// name.
    pub fn full_name(&self) -> (r: String)
        ensures
            r@ == self.first@ + " "@ + self.last@,
    {
        let mut name = self.first.clone();
        name.append(" ");
        name.append(self.last.as_str());
        name
    }
}

impl PartialEq for RandomUserName {
    fn eq(&self, other: &RandomUserName) -> (r: bool) {
        str_eq(self.first.as_str(), other.first.as_str()) && str_eq(
            self.last.as_str(),
            other.last.as_str(),
        ) && str_eq(self.title.as_str(), other.title.as_str())
    }
}

impl vstd::std_specs::cmp::PartialEqSpecImpl for RandomUserName {
    open spec fn obeys_eq_spec() -> bool {
        true
    }

    open spec fn eq_spec(&self, other: &RandomUserName) -> bool {
        self.first@ == other.first@ && self.last@ == other.last@ && self.title@ == other.title@
    }
}

/// A generated login.
#[derive(Clone, Debug)]
pub struct RandomUserLogin {
    pub username: String,
    pub password: String,
}

/// One generated user.
#[derive(Clone, Debug)]
pub struct RandomUser {
    pub name: RandomUserName,
    pub email: EmailAddress,
    pub login: RandomUserLogin,
}

/// The service's answer: the users beside its paging information.
#[derive(Clone, Debug)]
pub struct RandomUserAPIResponse {
    pub results: Vec<RandomUser>,
    pub info: RandomUserAPIInfo,
}

/// The service's paging information.
#[derive(Clone, Debug)]
pub struct RandomUserAPIInfo {
    pub seed: String,
    pub results: usize,
    pub page: usize,
    pub version: String,
}

} // verus!
