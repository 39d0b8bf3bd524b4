//! A collector of expectation failures.
//!
//! A scenario checks many things about the clients it drives. Instead of
//! stopping at the first mismatch it records each one here, so that one run
//! reports all of them.

use crate::models::status::StatusUserInfo;
use crate::text::same_text;
use crate::users::UserInfo;
use vstd::prelude::*;
use vstd::std_specs::cmp::PartialEqSpec;

verus! {

/// The failures recorded so far, oldest first.
#[derive(Default)]
pub struct Errors {
    pub strings: Vec<String>,
}

impl View for Errors {
    type V = Seq<Seq<char>>;

    open spec fn view(&self) -> Seq<Seq<char>> {
        self.strings.deep_view()
    }
}

/// The message recorded when two texts that should be equal differ.
pub open spec fn mismatch_message(left: Seq<char>, right: Seq<char>) -> Seq<char> {
    left + "!="@ + right
}

/// The message recorded when a field holds a value but should hold none.
pub open spec fn unexpected_some_message(field_name: Seq<char>) -> Seq<char> {
    field_name + " expected to be None, was Some"@
}

/// The message recorded when a field holds nothing but should hold a value.
pub open spec fn unexpected_none_message(field_name: Seq<char>) -> Seq<char> {
    field_name + " expected to be Some, was None"@
}

/// The records after comparing the names of a reported user with those of
/// the expected one: first names first, then last names.
pub open spec fn after_verify_user(
    before: Seq<Seq<char>>,
    user_object: StatusUserInfo,
    user_info: UserInfo,
) -> Seq<Seq<char>> {
    let first = if user_info.first_name@ == user_object.first_name@ {
        before
    } else {
        before.push(mismatch_message(user_info.first_name@, user_object.first_name@))
    };
    if user_info.last_name@ == user_object.last_name@ {
        first
    } else {
        first.push(mismatch_message(user_info.last_name@, user_object.last_name@))
    }
}

impl Errors {
    /// A collector that holds no failure.
    pub fn new() -> (errors: Errors)
        ensures
            errors@ == Seq::<Seq<char>>::empty(),
    {
        let errors = Errors { strings: Vec::new() };
        assert(errors@ =~= Seq::<Seq<char>>::empty());
        errors
    }

    /// Records `err` after all earlier failures.
    pub fn add_error(&mut self, err: String)
        ensures
            final(self)@ == old(self)@.push(err@),
    {
        self.strings.push(err);
        assert(self@ =~= old(self)@.push(err@));
    }

    /// Records `str1!=str2` when the two texts differ; records nothing when
    /// they are equal.
    pub fn string_eq_assert(&mut self, str1: String, str2: String)
        ensures
            str1@ == str2@ ==> final(self)@ == old(self)@,
            str1@ != str2@ ==> final(self)@ == old(self)@.push(mismatch_message(str1@, str2@)),
    {
        self.string_slice_eq_assert(str1.as_str(), str2.as_str());
    }

    /// Records `str1!=str2` when the two texts differ; records nothing when
    /// they are equal.
    pub fn string_slice_eq_assert(&mut self, str1: &str, str2: &str)
        ensures
            str1@ == str2@ ==> final(self)@ == old(self)@,
            str1@ != str2@ ==> final(self)@ == old(self)@.push(mismatch_message(str1@, str2@)),
    {
        if !same_text(str1, str2) {
            let mut res = String::new();
            res.append(str1);
            res.append("!=");
            res.append(str2);
            assert(res@ =~= mismatch_message(str1@, str2@));
            self.add_error(res);
        }
    }

    /// Records `reason` when `check` is false; records nothing when it holds.
    pub fn bool_assert(&mut self, check: bool, reason: String)
        ensures
            check ==> final(self)@ == old(self)@,
            !check ==> final(self)@ == old(self)@.push(reason@),
    {
        if !check {
            self.add_error(reason);
        }
    }

    /// Whether no failure has been recorded.
    pub fn is_clean(&self) -> (clean: bool)
        ensures
            clean == (self@.len() == 0),
    {
        self.strings.len() == 0
    }

    /// The end of a scenario: passes when nothing was recorded. With a
    /// recorded failure this call is a contract violation, and at run time
    /// it stops the program.
    pub fn assert_pop(&mut self)
        requires
            old(self)@.len() == 0,
        ensures
            final(self)@ == old(self)@,
    {
        if !self.is_clean() {
            vstd::pervasive::unreached::<()>();
        }
    }

    /// Records `comment` when `num1 != num2`; records nothing otherwise.
    /// For a type whose `==` has no stated meaning, either of the two may
    /// happen.
    pub fn num_eq_assert<T: PartialEq>(&mut self, num1: T, num2: T, comment: &str)
        ensures
            final(self)@ == old(self)@ || final(self)@ == old(self)@.push(comment@),
            T::obeys_eq_spec() && num1.eq_spec(&num2) ==> final(self)@ == old(self)@,
            T::obeys_eq_spec() && !num1.eq_spec(&num2) ==> final(self)@ == old(self)@.push(
                comment@,
            ),
    {
        if num1 != num2 {
            self.add_error(comment.to_owned());
        }
    }

    /// Records that `field_name` should have been empty when `opt` holds a
    /// value; records nothing otherwise.
    pub fn expect_none<T>(&mut self, opt: &Option<T>, field_name: &str)
        ensures
            opt is None ==> final(self)@ == old(self)@,
            opt is Some ==> final(self)@ == old(self)@.push(unexpected_some_message(field_name@)),
    {
        if opt.is_some() {
            let mut message = field_name.to_owned();
            message.append(" expected to be None, was Some");
            self.add_error(message)
        }
    }

    /// Records that `field_name` should have held a value when `opt` is
    /// empty; records nothing otherwise.
    pub fn expect_some<T>(&mut self, opt: &Option<T>, field_name: &str)
        ensures
            opt is Some ==> final(self)@ == old(self)@,
            opt is None ==> final(self)@ == old(self)@.push(unexpected_none_message(field_name@)),
    {
        if opt.is_none() {
            let mut message = field_name.to_owned();
            message.append(" expected to be Some, was None");
            self.add_error(message)
        }
    }

    /// Compares the first and the last name of a reported user with those of
    /// the expected user and records each mismatch, expected name first.
    pub fn verify_user(&mut self, user_object: &StatusUserInfo, user_info: &UserInfo)
        ensures
            final(self)@ == after_verify_user(old(self)@, *user_object, *user_info),
    {
        self.string_slice_eq_assert(user_info.first_name.as_str(), user_object.first_name.as_str());
        self.string_slice_eq_assert(user_info.last_name.as_str(), user_object.last_name.as_str());
    }
}

} // verus!
