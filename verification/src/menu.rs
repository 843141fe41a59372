//! The interactive command surface: the five menu actions and the exact
//! mapping from a caller's input line to an action.

use vstd::prelude::*;
use crate::text::str_eq;

verus! {

/// The five actions the control panel offers.
#[derive(Clone, Copy, PartialEq, Eq, Structural, Debug)]
pub enum MenuAction {
    StartAll,
    RestartAll,
    StopAll,
    Exit,
    StartAndLaunchClient,
}

/// The action a trimmed input line selects, if any.
pub open spec fn spec_choice(s: Seq<char>) -> Option<MenuAction> {
    if s == "1"@ {
        Some(MenuAction::StartAll)
    } else if s == "2"@ {
        Some(MenuAction::RestartAll)
    } else if s == "3"@ {
        Some(MenuAction::StopAll)
    } else if s == "4"@ {
        Some(MenuAction::Exit)
    } else if s == "5"@ {
        Some(MenuAction::StartAndLaunchClient)
    } else {
        None
    }
}

/// Matches a trimmed input line against the menu: exactly the five literal
/// choices select an action; anything else selects nothing, so the caller
/// re-prompts without a state change.
pub fn parse_choice(input: &str) -> (r: Option<MenuAction>)
    ensures
        r == spec_choice(input@),
{
    if str_eq(input, "1") {
        Some(MenuAction::StartAll)
    } else if str_eq(input, "2") {
        Some(MenuAction::RestartAll)
    } else if str_eq(input, "3") {
        Some(MenuAction::StopAll)
    } else if str_eq(input, "4") {
        Some(MenuAction::Exit)
    } else if str_eq(input, "5") {
        Some(MenuAction::StartAndLaunchClient)
    } else {
        None
    }
}

/// Whether an answer to the shutdown confirmation counts as assent: the
/// letter y, in either case.
pub fn is_yes(answer: &str) -> (r: bool)
    ensures
        r == (answer@ == "y"@ || answer@ == "Y"@),
{
    str_eq(answer, "y") || str_eq(answer, "Y")
}

} // verus!
