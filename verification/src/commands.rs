//! What the command-line tools are asked to do.
use vstd::prelude::*;
use crate::text::equal;

verus! {

/// What the main tool does when its helpers are not installed.
#[derive(Clone, Copy, Debug, PartialEq, Eq, Structural)]
pub enum Fallback {
    Version,
    Help,
    Unavailable,
}

pub open spec fn fallback_spec(command: Option<Seq<char>>) -> Fallback {
    match command {
        None => Fallback::Help,
        Some(c) => if c == "--version"@ || c == "-V"@ {
            Fallback::Version
        } else if c == "--help"@ || c == "-h"@ || c == "help"@ {
            Fallback::Help
        } else {
            Fallback::Unavailable
        },
    }
}

pub fn fallback_without_tools(command: Option<&str>) -> (fallback: Fallback)
    ensures
        fallback == fallback_spec(
            match command {
                Some(c) => Some(c@),
                None => None,
            },
        ),
{
    match command {
        None => Fallback::Help,
        Some(c) => if equal(c, "--version") || equal(c, "-V") {
            Fallback::Version
        } else if equal(c, "--help") || equal(c, "-h") || equal(c, "help") {
            Fallback::Help
        } else {
            Fallback::Unavailable
        },
    }
}

/// Whether the main tool is asked to recover controllers.
pub fn is_recovery(command: Option<&str>) -> (is: bool)
    ensures
        is == (command matches Some(c) && c@ == "elan-recover"@),
{
    match command {
        Some(c) => equal(c, "elan-recover"),
        None => false,
    }
}

/// What the profile tool is asked to do.
#[derive(Clone, Copy, Debug, PartialEq, Eq, Structural)]
pub enum ProfileCommand {
    ListProfiles,
    /// The second argument names the node.
    Identify,
    Auto,
    Help,
    Invalid,
}

/// `count` arguments were given; `command` is the first, if it is text.
pub open spec fn profile_command_spec(command: Option<Seq<char>>, count: int) -> ProfileCommand {
    match command {
        None => ProfileCommand::Help,
        Some(c) => if c == "--list-profiles"@ && count == 1 {
            ProfileCommand::ListProfiles
        } else if c == "--identify"@ && count == 2 {
            ProfileCommand::Identify
        } else if c == "--auto"@ && count == 1 {
            ProfileCommand::Auto
        } else if c == "--help"@ || c == "-h"@ {
            ProfileCommand::Help
        } else {
            ProfileCommand::Invalid
        },
    }
}

pub fn profile_command(command: Option<&str>, count: usize) -> (request: ProfileCommand)
    ensures
        request == profile_command_spec(
            match command {
                Some(c) => Some(c@),
                None => None,
            },
            count as int,
        ),
{
    match command {
        None => ProfileCommand::Help,
        Some(c) => if equal(c, "--list-profiles") && count == 1 {
            ProfileCommand::ListProfiles
        } else if equal(c, "--identify") && count == 2 {
            ProfileCommand::Identify
        } else if equal(c, "--auto") && count == 1 {
            ProfileCommand::Auto
        } else if equal(c, "--help") || equal(c, "-h") {
            ProfileCommand::Help
        } else {
            ProfileCommand::Invalid
        },
    }
}

} // verus!
