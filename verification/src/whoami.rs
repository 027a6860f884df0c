//! The lookup of the address under which this machine reaches the Internet:
//! where to ask, and what to tell the user of the answer.

use vstd::prelude::*;
use vstd::string::*;

use crate::{ExitCode, EXIT_CODE_SUCCESS};

verus! {

/// How a lookup ended, for the process to report.
#[derive(Clone, Copy, Debug, PartialEq, Eq, Structural)]
pub enum LookupExit {
    /// The address was received.
    Success,
    /// The page could not be reached.
    Unreachable,
    /// The page answered with something that is no text.
    InvalidResponse,
}

impl LookupExit {
    /// The process exit code that stands for this ending.
    pub open spec fn code_of(self) -> int {
        match self {
            LookupExit::Success => 0,
            LookupExit::Unreachable => -1,
            LookupExit::InvalidResponse => -2,
        }
    }

    /// The process exit code that stands for this ending.
    pub fn code(self) -> (c: ExitCode)
        ensures
            c == self.code_of(),
    {
        match self {
            LookupExit::Success => EXIT_CODE_SUCCESS,
            LookupExit::Unreachable => -1,
            LookupExit::InvalidResponse => -2,
        }
    }

    /// No two endings share an exit code, and only success has code zero.
    pub proof fn codes_are_distinct(a: LookupExit, b: LookupExit)
        ensures
            a.code_of() == b.code_of() ==> a == b,
            a.code_of() == 0 <==> a == LookupExit::Success,
    {
    }
}

/// What came of the one request that a lookup makes.
#[derive(Debug)]
pub enum LookupOutcome {
    /// The page answered, and its body is this text.
    Body(String),
    /// No connection to the page came about.
    Unreachable,
    /// The page answered, and its body could not be read as text.
    InvalidBody,
}

/// What a lookup tells the user, and how it ends.
#[derive(Debug)]
pub struct LookupReport {
    /// The text to print, with nothing added to it.
    pub text: String,
    /// The ending of the process.
    pub exit: LookupExit,
}

/// The page that answers with the address of whoever asks.
pub open spec fn endpoint_text() -> Seq<char> {
    "https://icanhazip.com/"@
}

/// The page that answers with the address of whoever asks.
pub fn endpoint() -> (url: String)
    ensures
        url@ == endpoint_text(),
{
    String::from_str("https://icanhazip.com/")
}

/// The text that goes with an outcome: the body as it came, or a fixed message.
pub open spec fn report_text(outcome: LookupOutcome) -> Seq<char> {
    match outcome {
        LookupOutcome::Body(text) => text@,
        LookupOutcome::Unreachable => "Couldn't reach the page"@,
        LookupOutcome::InvalidBody => "Invalid HTTP response"@,
    }
}

/// The ending that goes with an outcome.
pub open spec fn report_exit(outcome: LookupOutcome) -> LookupExit {
    match outcome {
        LookupOutcome::Body(_) => LookupExit::Success,
        LookupOutcome::Unreachable => LookupExit::Unreachable,
        LookupOutcome::InvalidBody => LookupExit::InvalidResponse,
    }
}

/// Turns the outcome of the request into what the user is told.
pub fn report(outcome: LookupOutcome) -> (r: LookupReport)
    ensures
        r.text@ == report_text(outcome),
        r.exit == report_exit(outcome),
{
    match outcome {
        LookupOutcome::Body(text) => LookupReport { text, exit: LookupExit::Success },
        LookupOutcome::Unreachable => LookupReport {
            text: String::from_str("Couldn't reach the page"),
            exit: LookupExit::Unreachable,
        },
        LookupOutcome::InvalidBody => LookupReport {
            text: String::from_str("Invalid HTTP response"),
            exit: LookupExit::InvalidResponse,
        },
    }
}

/// A page that could not be reached is told as such and as nothing else: the
/// whole report is the fixed text, whatever a body might have held, and the
/// ending is the one for a page out of reach, with a code that is neither the
/// one of success nor the one of an answer that could not be read.
pub proof fn unreachable_page_is_told()
    ensures
        report_text(LookupOutcome::Unreachable) == "Couldn't reach the page"@,
        report_exit(LookupOutcome::Unreachable) == LookupExit::Unreachable,
        report_exit(LookupOutcome::Unreachable).code_of() == -1,
        report_exit(LookupOutcome::Unreachable).code_of() != LookupExit::Success.code_of(),
        report_exit(LookupOutcome::Unreachable).code_of()
            != LookupExit::InvalidResponse.code_of(),
{
}

/// Each outcome has an ending of its own: a body alone ends in success.
pub proof fn only_a_body_succeeds(outcome: LookupOutcome)
    ensures
        report_exit(outcome).code_of() == 0 <==> outcome is Body,
        outcome is Body ==> report_text(outcome) == outcome->0@,
        outcome is InvalidBody ==> report_text(outcome) == "Invalid HTTP response"@
            && report_exit(outcome).code_of() == -2,
{
}

} // verus!
