//! The command-line options and what they ask the program to do.

use vstd::prelude::*;

verus! {

/// The options given on the command line.
#[derive(Debug)]
pub struct Opts {
    /// The path to a JSON file with the item, the scrolls and the goal.
    pub json: Option<String>,
    /// Whether to stop after the first recommendation.
    pub noninteractive: bool,
}

/// What a run does.
#[derive(Clone, Copy, Debug, PartialEq, Eq, Structural)]
pub enum Mode {
    /// Read the problem from the file and print the first recommendation.
    Report,
    /// Read the problem from the file, then follow the user's scrolling.
    FileThenReplay,
    /// Ask the user for the problem, then follow the user's scrolling.
    AskThenReplay,
}

/// Non-interactive mode was asked for without a file to read the problem
/// from.
#[derive(Clone, Copy, Debug, PartialEq, Eq, Structural)]
pub struct MissingJson;

impl Opts {
    /// What these options ask for.
    pub open spec fn mode_of(self) -> Result<Mode, MissingJson> {
        if self.json is Some {
            if self.noninteractive {
                Ok(Mode::Report)
            } else {
                Ok(Mode::FileThenReplay)
            }
        } else if self.noninteractive {
            Err(MissingJson)
        } else {
            Ok(Mode::AskThenReplay)
        }
    }

    /// Decides what the run does. Non-interactive mode needs a file: without
    /// one there is nowhere to take the problem from.
    pub fn mode(&self) -> (r: Result<Mode, MissingJson>)
        ensures
            r == self.mode_of(),
    {
        match &self.json {
            Some(_) => if self.noninteractive {
                Ok(Mode::Report)
            } else {
                Ok(Mode::FileThenReplay)
            },
            None => if self.noninteractive {
                Err(MissingJson)
            } else {
                Ok(Mode::AskThenReplay)
            },
        }
    }
}

} // verus!
