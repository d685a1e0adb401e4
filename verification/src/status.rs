//! The one-line device status shown by the front end.

use vstd::prelude::*;

verus! {

/// Status line of the front end.
#[derive(Clone, Debug, PartialEq, Eq)]
pub struct Status {
    pub status_message: String,
}

impl Status {
    /// The text of the status line, as a sequence of characters.
    pub open spec fn view(&self) -> Seq<char> {
        self.status_message@
    }

    /// A fresh status reads "Disconnected".
    pub fn new() -> (s: Self)
        ensures
            s@ == "Disconnected"@,
    {
        Status { status_message: "Disconnected".to_owned() }
    }

    /// Replaces the status line by `message`.
    pub fn update(&mut self, message: &str)
        ensures
            final(self)@ == message@,
    {
        self.status_message = message.to_owned();
    }
}

impl Default for Status {
    fn default() -> (s: Self)
        ensures
            s@ == "Disconnected"@,
    {
        Status::new()
    }
}

} // verus!
