//! Argument completion: reshaping the suggestions that an extension returns.
use vstd::prelude::*;

verus! {

/// One suggestion as the extension reports it.
#[derive(Clone, Debug)]
pub struct SlashCommandArgumentCompletion {
    /// The text shown in the list of suggestions.
    pub label: String,
    /// The text that replaces the argument being typed.
    pub new_text: String,
    /// Whether choosing the suggestion also runs the command.
    pub run_command: bool,
}

/// What the host does once a suggestion has been chosen.
#[derive(Clone, Copy, Debug, PartialEq, Eq, Structural)]
pub enum AfterCompletion {
    /// Run the command at once.
    Run,
    /// Leave the command in place for further typing.
    Continue,
}

/// A suggestion in the shape the host shows.
#[derive(Clone, Debug)]
pub struct ArgumentCompletion {
    pub label: String,
    pub new_text: String,
    pub replace_previous_arguments: bool,
    pub after_completion: AfterCompletion,
}

/// The behaviour after completion that a run flag stands for.
pub open spec fn after_completion_for(run_command: bool) -> AfterCompletion {
    if run_command {
        AfterCompletion::Run
    } else {
        AfterCompletion::Continue
    }
}

/// `c` is the host's form of the extension's suggestion `raw`: same texts, only the argument
/// being typed is replaced, and the run flag decides what follows.
pub open spec fn completion_of(raw: SlashCommandArgumentCompletion, c: ArgumentCompletion) -> bool {
    &&& c.label@ == raw.label@
    &&& c.new_text@ == raw.new_text@
    &&& !c.replace_previous_arguments
    &&& c.after_completion == after_completion_for(raw.run_command)
}

/// `out` holds the host's form of each suggestion of `raw`, in the same order.
pub open spec fn completions_of(
    raw: Seq<SlashCommandArgumentCompletion>,
    out: Seq<ArgumentCompletion>,
) -> bool {
    &&& out.len() == raw.len()
    &&& forall|i: int| 0 <= i < raw.len() ==> completion_of(#[trigger] raw[i], out[i])
}

impl AfterCompletion {
    /// The behaviour after completion for the extension's run flag.
    pub fn from_run_command(run_command: bool) -> (r: AfterCompletion)
        ensures
            r == after_completion_for(run_command),
    {
        if run_command {
            AfterCompletion::Run
        } else {
            AfterCompletion::Continue
        }
    }
}

} // verus!
