//! The one failure value that completion and execution report.
use vstd::prelude::*;

verus! {

/// A failed request: the extension reported an error, or the sandbox could not run the call.
/// The message is the extension's own, or the sandbox's description of the fault.
#[derive(Clone, Debug)]
pub struct CommandError {
    pub message: String,
}

impl CommandError {
    /// The failure that carries `message` unchanged.
    pub fn new(message: String) -> (r: CommandError)
        ensures
            r.message@ == message@,
    {
        CommandError { message }
    }

    /// The message of this failure.
    pub fn message(&self) -> (r: String)
        ensures
            r@ == self.message@,
    {
        self.message.clone()
    }
}

} // verus!
