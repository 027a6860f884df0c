//! The frame of a conversion run: how it can end, what it tells the user
//! before and after the files are handed to the conversion tool.

use vstd::prelude::*;
use vstd::string::*;

use crate::paths::each_view;
use crate::text::{numeral, push_numeral};
use crate::{ExitCode, EXIT_CODE_SUCCESS};

verus! {

/// How a conversion run ended, for the process to report.
#[derive(Clone, Copy, Debug, PartialEq, Eq, Structural)]
pub enum ConvertExit {
    /// Every discovered file was handed to the conversion tool.
    Success,
    /// The conversion tool could not be started.
    ToolNotFound,
    /// Entries were discovered, and none of them could be read.
    AllInaccessible,
    /// Nothing was discovered at all.
    NothingDiscovered,
}

impl ConvertExit {
    /// The process exit code that stands for this ending.
    pub open spec fn code_of(self) -> int {
        match self {
            ConvertExit::Success => 0,
            ConvertExit::ToolNotFound => -1,
            ConvertExit::AllInaccessible => -2,
            ConvertExit::NothingDiscovered => -3,
        }
    }

    /// The process exit code that stands for this ending.
    pub fn code(self) -> (c: ExitCode)
        ensures
            c == self.code_of(),
    {
        match self {
            ConvertExit::Success => EXIT_CODE_SUCCESS,
            ConvertExit::ToolNotFound => -1,
            ConvertExit::AllInaccessible => -2,
            ConvertExit::NothingDiscovered => -3,
        }
    }

    /// No two endings share an exit code, and only success has code zero.
    pub proof fn codes_are_distinct(a: ConvertExit, b: ConvertExit)
        ensures
            a.code_of() == b.code_of() ==> a == b,
            a.code_of() == 0 <==> a == ConvertExit::Success,
    {
    }
}

/// A message for the user, and whether the run stops with it.
#[derive(Debug)]
pub struct Notice {
    /// The line to print.
    pub message: String,
    /// The ending to stop with, or `None` where the run goes on.
    pub stop: Option<ConvertExit>,
}

/// The name under which the conversion tool is looked up.
pub open spec fn tool_text() -> Seq<char> {
    "ffmpeg"@
}

/// The name under which the conversion tool is looked up.
pub fn tool_name() -> (name: String)
    ensures
        name@ == tool_text(),
{
    String::from_str("ffmpeg")
}

/// The arguments with which the tool is started to see whether it is
/// there: the single argument `-version`, in bytes.
pub open spec fn probe_bytes() -> Seq<Seq<u8>> {
    seq![seq![0x2du8, 0x76u8, 0x65u8, 0x72u8, 0x73u8, 0x69u8, 0x6fu8, 0x6eu8]]
}

/// The arguments with which the tool is started to see whether it is there.
pub fn probe_arguments() -> (arguments: Vec<Vec<u8>>)
    ensures
        each_view(arguments@) == probe_bytes(),
{
    let mut version: Vec<u8> = Vec::new();
    version.push(0x2d);
    version.push(0x76);
    version.push(0x65);
    version.push(0x72);
    version.push(0x73);
    version.push(0x69);
    version.push(0x6f);
    version.push(0x6e);
    let mut arguments: Vec<Vec<u8>> = Vec::new();
    arguments.push(version);
    assert(arguments@[0]@ =~= probe_bytes()[0]);
    assert(each_view(arguments@) =~= probe_bytes());
    arguments
}

/// What the user is told where the tool did not start.
pub open spec fn tool_missing_text() -> Seq<char> {
    "FFmpeg not detected, check your PATH"@
}

/// What the user is told where the input path is no directory.
pub open spec fn bad_input_text() -> Seq<char> {
    "The search path did not exist or wasn't a directory"@
}

/// What the probe of the tool leads to: nothing if it started, else a notice
/// that stops the run before any file is touched.
pub fn tool_notice(tool_started: bool) -> (notice: Option<Notice>)
    ensures
        match notice {
            None => tool_started,
            Some(n) => !tool_started && n.message@ == tool_missing_text() && n.stop == Some(
                ConvertExit::ToolNotFound,
            ),
        },
{
    if tool_started {
        None
    } else {
        Some(
            Notice {
                message: String::from_str("FFmpeg not detected, check your PATH"),
                stop: Some(ConvertExit::ToolNotFound),
            },
        )
    }
}

/// What the look at the input path leads to: nothing if it is a directory that
/// exists, else a warning after which the run still goes on.
pub fn input_notice(present: bool, is_directory: bool) -> (notice: Option<Notice>)
    ensures
        match notice {
            None => present && is_directory,
            Some(n) => !(present && is_directory) && n.message@ == bad_input_text()
                && n.stop is None,
        },
{
    if !present || !is_directory {
        Some(
            Notice {
                message: String::from_str("The search path did not exist or wasn't a directory"),
                stop: None,
            },
        )
    } else {
        None
    }
}

/// The closing line of a run that took `seconds` whole seconds, or
/// `milliseconds` whole milliseconds: minutes, the seconds beyond them, and the
/// milliseconds beyond the last whole second.
pub open spec fn elapsed_text(seconds: nat, milliseconds: nat) -> Seq<char> {
    "Finished in "@ + numeral(seconds / 60, 10) + " minutes, "@ + numeral(seconds % 60, 10)
        + " seconds, and "@ + numeral(milliseconds % 1000, 10) + " milliseconds"@
}

/// Builds the closing line of a run from the time it took, given once in whole
/// seconds and once in whole milliseconds.
pub fn elapsed_summary(seconds: u64, milliseconds: u128) -> (line: String)
    ensures
        line@ == elapsed_text(seconds as nat, milliseconds as nat),
{
    let mut line = String::from_str("Finished in ");
    push_numeral(&mut line, (seconds / 60) as u128, 10);
    line.append(" minutes, ");
    push_numeral(&mut line, (seconds % 60) as u128, 10);
    line.append(" seconds, and ");
    push_numeral(&mut line, milliseconds % 1000, 10);
    line.append(" milliseconds");
    line
}

} // verus!
