//! Errors any SDR backend may surface.

use vstd::prelude::*;
use vstd::string::StringExecFns;

verus! {

/// What went wrong in an SDR backend, with the text that says more.
#[derive(Debug)]
pub enum SdrError {
    /// The hardware is disconnected or cannot be reached.
    NotFound(String),
    /// The configuration is invalid: a sample rate out of range, no channels.
    BadConfig(String),
    /// Input or output failed during capture.
    Io(String),
    /// A library under the backend failed.
    Backend(String),
}

impl SdrError {
    /// What the message says before the colon.
    pub open spec fn label(self) -> Seq<char> {
        match self {
            SdrError::NotFound(_) => "hardware not found: "@,
            SdrError::BadConfig(_) => "configuration rejected: "@,
            SdrError::Io(_) => "I/O error during capture: "@,
            SdrError::Backend(_) => "backend error: "@,
        }
    }

    /// The text that the error carries.
    pub open spec fn detail(self) -> Seq<char> {
        match self {
            SdrError::NotFound(text) => text@,
            SdrError::BadConfig(text) => text@,
            SdrError::Io(text) => text@,
            SdrError::Backend(text) => text@,
        }
    }

    /// The error as a message for the user.
    pub fn to_string(&self) -> (message: String)
        ensures
            message@ == self.label() + self.detail(),
    {
        match self {
            SdrError::NotFound(text) => labelled("hardware not found: ", text),
            SdrError::BadConfig(text) => labelled("configuration rejected: ", text),
            SdrError::Io(text) => labelled("I/O error during capture: ", text),
            SdrError::Backend(text) => labelled("backend error: ", text),
        }
    }
}

fn labelled(label: &str, text: &String) -> (r: String)
    ensures
        r@ == label@ + text@,
{
    label.to_owned().concat(text.as_str())
}

/// A message names the kind of the error and then gives its text, whole.
pub proof fn message_names_kind_and_text(error: SdrError, message: String)
    requires
        call_ensures(SdrError::to_string, (&error,), message),
    ensures
        match error {
            SdrError::NotFound(text) => message@ == "hardware not found: "@ + text@,
            SdrError::BadConfig(text) => message@ == "configuration rejected: "@ + text@,
            SdrError::Io(text) => message@ == "I/O error during capture: "@ + text@,
            SdrError::Backend(text) => message@ == "backend error: "@ + text@,
        },
{
}

} // verus!
