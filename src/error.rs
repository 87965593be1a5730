use vstd::prelude::*;

verus! {

/// An error about what the user entered, with the text that explains it.
pub struct InputError {
    message: String,
}

impl View for InputError {
    type V = Seq<char>;

    closed spec fn view(&self) -> Seq<char> {
        self.message@
    }
}

impl InputError {
    pub fn new(message: String) -> (r: InputError)
        ensures
            r@ == message@,
    {
        InputError { message }
    }

    /// The text that explains the error.
    pub fn message(&self) -> (r: &str)
        ensures
            r@ == self@,
    {
        self.message.as_str()
    }
}

} // verus!
