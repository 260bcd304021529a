//! The submitted form.

use vstd::prelude::*;

verus! {

/// What a subscription form holds, as the handler sees it: two texts, taken
/// as they came. Neither is checked for shape or length.
#[derive(Debug)]
pub struct FormData {
    email: String,
    name: String,
}

/// The mathematical content of a [`FormData`].
pub struct FormView {
    pub email: Seq<char>,
    pub name: Seq<char>,
}

impl View for FormData {
    type V = FormView;

    closed spec fn view(&self) -> FormView {
        FormView { email: self.email@, name: self.name@ }
    }
}

impl FormData {
    /// A form with the given fields. Every pair of texts is accepted, empty
    /// ones too.
    pub fn new(email: String, name: String) -> (form: FormData)
        ensures
            form@.email == email@,
            form@.name == name@,
    {
        FormData { email, name }
    }

    /// The address that was submitted.
    pub fn email(&self) -> (text: &str)
        ensures
            text@ == self@.email,
    {
        self.email.as_str()
    }

    /// The name that was submitted.
    pub fn name(&self) -> (text: &str)
        ensures
            text@ == self@.name,
    {
        self.name.as_str()
    }
}

} // verus!
