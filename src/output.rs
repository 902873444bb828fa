//! The result of running a command, and its expansion into presentation events.
use vstd::prelude::*;
use crate::text::{slice_or_empty, text_in_range};

verus! {

/// A half-open range of byte offsets into the output text.
#[derive(Clone, Copy, Debug, PartialEq, Eq, Structural)]
pub struct TextRange {
    pub start: u32,
    pub end: u32,
}

/// A labelled part of the output text.
#[derive(Clone, Debug)]
pub struct SlashCommandOutputSection {
    pub range: TextRange,
    pub label: String,
}

/// What a command returns: one text, and sections that point into it. Sections may overlap,
/// leave gaps, or reach outside the text.
#[derive(Clone, Debug)]
pub struct SlashCommandOutput {
    pub text: String,
    pub sections: Vec<SlashCommandOutputSection>,
}

/// The icon shown beside a section.
#[derive(Clone, Copy, Debug, PartialEq, Eq, Structural)]
pub enum IconName {
    Code,
}

/// One unit of the stream that the host displays.
#[derive(Clone, Debug)]
pub enum SlashCommandEvent {
    StartSection { icon: IconName, label: String },
    Content { text: String, run_commands_in_text: bool },
    EndSection,
}

/// The text of section `s` of output text `text`.
pub open spec fn section_text(text: Seq<char>, s: SlashCommandOutputSection) -> Seq<char> {
    slice_or_empty(text, s.range.start as int, s.range.end as int)
}

/// `e` opens a section labelled `label`.
pub open spec fn opens_section(e: SlashCommandEvent, label: Seq<char>) -> bool {
    e matches SlashCommandEvent::StartSection { icon, label: l } && icon == IconName::Code && l@
        == label
}

/// `e` shows `text`, with commands in it left alone.
pub open spec fn shows_text(e: SlashCommandEvent, text: Seq<char>) -> bool {
    e matches SlashCommandEvent::Content { text: t, run_commands_in_text } && t@ == text
        && !run_commands_in_text
}

/// `events` holds, for each section of `output` in order, an opening event, the section's
/// text, and a closing event, and nothing else.
pub open spec fn expands_to(output: SlashCommandOutput, events: Seq<SlashCommandEvent>) -> bool {
    let sections = output.sections@;
    &&& events.len() == 3 * sections.len()
    &&& forall|i: int|
        #![trigger sections[i]]
        0 <= i < sections.len() ==> {
            &&& opens_section(events[3 * i], sections[i].label@)
            &&& shows_text(events[3 * i + 1], section_text(output.text@, sections[i]))
            &&& events[3 * i + 2] is EndSection
        }
}

/// Expands a command's output into the events the host displays: for each section, in the
/// order given, a start, the sliced text, and an end. A section whose range does not fit the
/// text shows empty text.
pub fn expand_output(output: &SlashCommandOutput) -> (events: Vec<SlashCommandEvent>)
    ensures
        expands_to(*output, events@),
{
    let mut events: Vec<SlashCommandEvent> = Vec::new();
    let n = output.sections.len();
    let mut i: usize = 0;
    while i < n
        invariant
            n == output.sections@.len(),
            i <= n,
            events@.len() == 3 * i,
            forall|j: int|
                #![trigger output.sections@[j]]
                0 <= j < i ==> {
                    &&& opens_section(events@[3 * j], output.sections@[j].label@)
                    &&& shows_text(
                        events@[3 * j + 1],
                        section_text(output.text@, output.sections@[j]),
                    )
                    &&& events@[3 * j + 2] is EndSection
                },
        decreases n - i,
    {
        let section = &output.sections[i];
        let text = text_in_range(
            output.text.as_str(),
            section.range.start as usize,
            section.range.end as usize,
        );
        events.push(
            SlashCommandEvent::StartSection { icon: IconName::Code, label: section.label.clone() },
        );
        events.push(SlashCommandEvent::Content { text, run_commands_in_text: false });
        events.push(SlashCommandEvent::EndSection);
        i = i + 1;
    }
    events
}

} // verus!
