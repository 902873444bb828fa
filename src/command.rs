//! A slash command that an extension provides, as the host sees it.
use vstd::prelude::*;
use crate::completion::{
    completion_of,
    completions_of, AfterCompletion, ArgumentCompletion, SlashCommandArgumentCompletion,
};
use crate::error::CommandError;
use crate::execution::{RunPhase, RunRequest};

verus! {

/// What an extension declares about one of its commands.
#[derive(Clone, Debug)]
pub struct SlashCommand {
    pub name: String,
    pub description: String,
    pub tooltip_text: String,
    pub requires_argument: bool,
}

/// A command of a loaded extension, offered to the host.
#[derive(Clone, Debug)]
pub struct ExtensionSlashCommand {
    pub command: SlashCommand,
}

impl ExtensionSlashCommand {
    pub fn new(command: SlashCommand) -> (r: ExtensionSlashCommand)
        ensures
            r.command == command,
    {
        ExtensionSlashCommand { command }
    }

    pub fn name(&self) -> (r: String)
        ensures
            r@ == self.command.name@,
    {
        self.command.name.clone()
    }

    pub fn description(&self) -> (r: String)
        ensures
            r@ == self.command.description@,
    {
        self.command.description.clone()
    }

    /// The short text shown in the command menu.
    pub fn menu_text(&self) -> (r: String)
        ensures
            r@ == self.command.tooltip_text@,
    {
        self.command.tooltip_text.clone()
    }

    pub fn requires_argument(&self) -> (r: bool)
        ensures
            r == self.command.requires_argument,
    {
        self.command.requires_argument
    }

    /// Turns the extension's reply to a completion request into the host's suggestions, one
    /// for each, in order. An error reported by the extension, or a fault of the sandbox,
    /// becomes a single failure carrying its message, and no suggestion.
    pub fn complete_argument(
        &self,
        reply: Result<Vec<SlashCommandArgumentCompletion>, String>,
    ) -> (r: Result<Vec<ArgumentCompletion>, CommandError>)
        ensures
            match reply {
                Ok(raw) => r matches Ok(out) && completions_of(raw@, out@),
                Err(message) => r matches Err(e) && e.message@ == message@,
            },
    {
        match reply {
            Err(message) => Err(CommandError::new(message)),
            Ok(raw) => {
                let mut out: Vec<ArgumentCompletion> = Vec::new();
                let mut i: usize = 0;
                while i < raw.len()
                    invariant
                        i <= raw.len(),
                        out.len() == i,
                        forall|j: int|
                            0 <= j < i ==> completion_of(
                                #[trigger] raw@[j],
                                out@[j],
                            ),
                    decreases raw.len() - i,
                {
                    let item = &raw[i];
                    out.push(
                        ArgumentCompletion {
                            label: item.label.clone(),
                            new_text: item.new_text.clone(),
                            replace_previous_arguments: false,
                            after_completion: AfterCompletion::from_run_command(item.run_command),
                        },
                    );
                    i = i + 1;
                }
                Ok(out)
            },
        }
    }

    /// Starts an execution request with the caller's `arguments`, and with or without a
    /// capability object to hand to the extension for the call.
    pub fn run(&self, arguments: Vec<String>, has_capability: bool) -> (r: RunRequest)
        ensures
            r.arguments@ == arguments@,
            r.has_capability == has_capability,
            r.phase == RunPhase::Pending,
    {
        RunRequest { arguments, has_capability, phase: RunPhase::Pending }
    }
}

} // verus!
