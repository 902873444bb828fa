use extension::command::{ExtensionSlashCommand, SlashCommand};
use extension::completion::{AfterCompletion, SlashCommandArgumentCompletion};
use extension::error::CommandError;
use extension::execution::{RunAction, RunEvent, RunPhase};
use extension::output::{
    expand_output, IconName, SlashCommandEvent, SlashCommandOutput, SlashCommandOutputSection,
    TextRange,
};
use extension::text::text_in_range;

fn section(label: &str, start: u32, end: u32) -> SlashCommandOutputSection {
    SlashCommandOutputSection { range: TextRange { start, end }, label: label.to_string() }
}

fn command() -> ExtensionSlashCommand {
    ExtensionSlashCommand::new(SlashCommand {
        name: "docs".to_string(),
        description: "insert documentation".to_string(),
        tooltip_text: "Insert docs".to_string(),
        requires_argument: true,
    })
}

fn assert_start(e: &SlashCommandEvent, want: &str) {
    match e {
        SlashCommandEvent::StartSection { icon, label } => {
            assert_eq!(*icon, IconName::Code);
            assert_eq!(label, want);
        }
        other => panic!("expected a section start, got {:?}", other),
    }
}

fn assert_content(e: &SlashCommandEvent, want: &str) {
    match e {
        SlashCommandEvent::Content { text, run_commands_in_text } => {
            assert_eq!(text, want);
            assert!(!run_commands_in_text);
        }
        other => panic!("expected content, got {:?}", other),
    }
}

fn assert_end(e: &SlashCommandEvent) {
    assert!(matches!(e, SlashCommandEvent::EndSection), "expected a section end, got {:?}", e);
}

fn raw(label: &str, new_text: &str, run_command: bool) -> SlashCommandArgumentCompletion {
    SlashCommandArgumentCompletion {
        label: label.to_string(),
        new_text: new_text.to_string(),
        run_command,
    }
}

#[test]
fn slice_within_bounds_is_exact() {
    assert_eq!(text_in_range("Hello, world!", 0, 5), "Hello");
    assert_eq!(text_in_range("Hello, world!", 7, 12), "world");
    assert_eq!(text_in_range("Hello, world!", 0, 13), "Hello, world!");
    assert_eq!(text_in_range("Hello", 2, 2), "");
    assert_eq!(text_in_range("", 0, 0), "");
}

#[test]
fn slice_out_of_bounds_is_empty() {
    assert_eq!(text_in_range("abc", 1, 10), "");
    assert_eq!(text_in_range("abc", 4, 4), "");
    assert_eq!(text_in_range("abc", 2, 1), "");
}

#[test]
fn slice_respects_character_boundaries() {
    // "é" takes two bytes.
    assert_eq!(text_in_range("aéb", 1, 3), "é");
    assert_eq!(text_in_range("aéb", 0, 4), "aéb");
    assert_eq!(text_in_range("aéb", 1, 2), "");
    assert_eq!(text_in_range("aéb", 2, 4), "");
}

#[test]
fn greeting_output_expands_to_two_sections() {
    let output = SlashCommandOutput {
        text: "Hello, world!".to_string(),
        sections: vec![section("Greeting", 0, 5), section("Target", 7, 12)],
    };
    let events = expand_output(&output);
    assert_eq!(events.len(), 6);
    assert_start(&events[0], "Greeting");
    assert_content(&events[1], "Hello");
    assert_end(&events[2]);
    assert_start(&events[3], "Target");
    assert_content(&events[4], "world");
    assert_end(&events[5]);
}

#[test]
fn range_past_the_text_expands_to_empty_content() {
    let output = SlashCommandOutput { text: "abc".to_string(), sections: vec![section("X", 1, 10)] };
    let events = expand_output(&output);
    assert_eq!(events.len(), 3);
    assert_start(&events[0], "X");
    assert_content(&events[1], "");
    assert_end(&events[2]);
}

#[test]
fn sections_keep_their_order_and_may_overlap() {
    let output = SlashCommandOutput {
        text: "abcdef".to_string(),
        sections: vec![section("late", 3, 6), section("early", 0, 4), section("same", 0, 4)],
    };
    let events = expand_output(&output);
    assert_eq!(events.len(), 9);
    assert_start(&events[0], "late");
    assert_content(&events[1], "def");
    assert_end(&events[2]);
    assert_start(&events[3], "early");
    assert_content(&events[4], "abcd");
    assert_end(&events[5]);
    assert_start(&events[6], "same");
    assert_content(&events[7], "abcd");
    assert_end(&events[8]);
}

#[test]
fn output_without_sections_expands_to_nothing() {
    let output = SlashCommandOutput { text: "ignored".to_string(), sections: vec![] };
    assert!(expand_output(&output).is_empty());
}

#[test]
fn descriptor_is_reported_as_declared() {
    let c = command();
    assert_eq!(c.name(), "docs");
    assert_eq!(c.description(), "insert documentation");
    assert_eq!(c.menu_text(), "Insert docs");
    assert!(c.requires_argument());
}

#[test]
fn each_suggestion_becomes_one_completion() {
    let reply = Ok(vec![raw("std", "std", true), raw("tokio", "tokio ", false), raw("", "", true)]);
    let out = command().complete_argument(reply).unwrap();
    assert_eq!(out.len(), 3);
    assert_eq!(out[0].label, "std");
    assert_eq!(out[0].new_text, "std");
    assert_eq!(out[0].after_completion, AfterCompletion::Run);
    assert_eq!(out[1].label, "tokio");
    assert_eq!(out[1].new_text, "tokio ");
    assert_eq!(out[1].after_completion, AfterCompletion::Continue);
    assert_eq!(out[2].after_completion, AfterCompletion::Run);
    assert!(out.iter().all(|c| !c.replace_previous_arguments));
}

#[test]
fn empty_reply_gives_no_completions() {
    assert!(command().complete_argument(Ok(vec![])).unwrap().is_empty());
}

#[test]
fn completion_domain_error_is_one_failure() {
    let err = command().complete_argument(Err("unknown package".to_string())).unwrap_err();
    assert_eq!(err.message(), "unknown package");
}

#[test]
fn run_with_capability_registers_it_before_the_call() {
    let mut req = command().run(vec!["serde".to_string()], true);
    assert_eq!(req.phase, RunPhase::Pending);
    assert!(matches!(req.step(RunEvent::Start), RunAction::RegisterCapability));
    assert_eq!(req.phase, RunPhase::Registering);
    assert!(matches!(
        req.step(RunEvent::Registered { handle: 7 }),
        RunAction::CallSandbox { handle: Some(7) }
    ));
    assert_eq!(req.phase, RunPhase::CallingSandbox { handle: Some(7) });
    assert_eq!(req.arguments, vec!["serde".to_string()]);
    let output = SlashCommandOutput {
        text: "Hello, world!".to_string(),
        sections: vec![section("Greeting", 0, 5)],
    };
    match req.step(RunEvent::Replied { reply: Ok(output) }) {
        RunAction::Emit { events } => {
            assert_eq!(events.len(), 3);
            assert_start(&events[0], "Greeting");
            assert_content(&events[1], "Hello");
            assert_end(&events[2]);
        }
        other => panic!("expected events, got {:?}", other),
    }
    assert_eq!(req.phase, RunPhase::Done);
    assert!(matches!(req.step(RunEvent::Start), RunAction::Wait));
}

#[test]
fn run_without_capability_calls_at_once() {
    let mut req = command().run(vec![], false);
    assert!(matches!(req.step(RunEvent::Start), RunAction::CallSandbox { handle: None }));
    assert_eq!(req.phase, RunPhase::CallingSandbox { handle: None });
    let output = SlashCommandOutput { text: String::new(), sections: vec![] };
    match req.step(RunEvent::Replied { reply: Ok(output) }) {
        RunAction::Emit { events } => assert!(events.is_empty()),
        other => panic!("expected events, got {:?}", other),
    }
}

#[test]
fn run_domain_error_fails_without_events() {
    let mut req = command().run(vec![], false);
    req.step(RunEvent::Start);
    match req.step(RunEvent::Replied { reply: Err("missing context".to_string()) }) {
        RunAction::Fail { error } => assert_eq!(error.message(), "missing context"),
        other => panic!("expected a failure, got {:?}", other),
    }
    assert_eq!(req.phase, RunPhase::Failed);
    let late = SlashCommandOutput { text: "x".to_string(), sections: vec![section("X", 0, 1)] };
    assert!(matches!(req.step(RunEvent::Replied { reply: Ok(late) }), RunAction::Wait));
    assert_eq!(req.phase, RunPhase::Failed);
}

#[test]
fn registration_fault_fails_the_request() {
    let mut req = command().run(vec![], true);
    req.step(RunEvent::Start);
    match req.step(RunEvent::Faulted { message: "table full".to_string() }) {
        RunAction::Fail { error } => assert_eq!(error.message(), "table full"),
        other => panic!("expected a failure, got {:?}", other),
    }
    assert!(matches!(req.step(RunEvent::Registered { handle: 1 }), RunAction::Wait));
}

#[test]
fn sandbox_fault_during_call_fails_the_request() {
    let mut req = command().run(vec![], false);
    req.step(RunEvent::Start);
    match req.step(RunEvent::Faulted { message: "trap".to_string() }) {
        RunAction::Fail { error } => assert_eq!(error.message, "trap"),
        other => panic!("expected a failure, got {:?}", other),
    }
}

#[test]
fn events_out_of_turn_are_ignored() {
    let mut req = command().run(vec![], true);
    assert!(matches!(req.step(RunEvent::Registered { handle: 3 }), RunAction::Wait));
    assert_eq!(req.phase, RunPhase::Pending);
    req.step(RunEvent::Start);
    assert!(matches!(req.step(RunEvent::Start), RunAction::Wait));
    assert_eq!(req.phase, RunPhase::Registering);
}

#[test]
fn error_keeps_its_message() {
    assert_eq!(CommandError::new("boom".to_string()).message(), "boom");
}
