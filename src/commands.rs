//! The commands that the user interface invokes by name.

use vstd::prelude::*;

verus! {

/// The reply of the greeting command: `name` set verbatim into a fixed template.
pub open spec fn greeting(name: Seq<char>) -> Seq<char> {
    "Hello, "@ + name + "! You've been greeted from Rust!"@
}

/// Formats the greeting for `name`. Every name is accepted as it is, the empty one
/// included.
pub fn greet(name: &str) -> (r: String)
    ensures
        r@ == greeting(name@),
{
    let mut reply = String::from_str("Hello, ");
    reply.append(name);
    reply.append("! You've been greeted from Rust!");
    reply
}

/// Why the operating system could not open a path.
pub enum OpenError {
    /// The opener failed; the text is the description that the system gave.
    OpenFailed(String),
}

impl OpenError {
    /// The human-readable description carried by the error.
    pub open spec fn spec_message(&self) -> Seq<char> {
        match self {
            OpenError::OpenFailed(text) => text@,
        }
    }

    /// Returns the error's description, as the command surfaces it to its caller.
    pub fn message(&self) -> (r: String)
        ensures
            r@ == self.spec_message(),
    {
        match self {
            OpenError::OpenFailed(text) => text.clone(),
        }
    }
}

/// The reply of the open-path command for the outcome of one attempt to open a path:
/// success with no value, or the failure's description as a string.
pub fn open_path_reply(outcome: Result<(), OpenError>) -> (r: Result<(), String>)
    ensures
        r is Ok <==> outcome is Ok,
        outcome matches Err(e) ==> r matches Err(text) && text@ == e.spec_message(),
{
    match outcome {
        Ok(()) => Ok(()),
        Err(e) => Err(e.message()),
    }
}

} // verus!
