//! Conversion jobs: one per discovered file, the arguments that the tool gets
//! for it, and the line that tells how it went.

use fastrand::Rng;
use vstd::prelude::*;
use vstd::slice::slice_to_vec;
use vstd::string::*;

use crate::discovery::{
    failures_of, files_of, regular_files, summary_stop, walk_counts, DiscoveredFile, WalkEntry,
};
use crate::paths::{
    build_output_path, each_view, is_scrambled_path, output_path_bytes,
    scrambled_path_avoids_candidate,
};

verus! {

/// One call of the conversion tool: the file it reads and the file it writes.
#[derive(Debug)]
pub struct ConversionJob {
    /// The path of the file to convert, in the bytes the system knows it by.
    pub input: Vec<u8>,
    /// The path at which the result goes.
    pub output: Vec<u8>,
}

/// How one call of the conversion tool went.
#[derive(Debug)]
pub enum ConversionOutcome {
    /// The tool exited with status zero.
    Success,
    /// The tool exited with another status, or was ended from outside.
    Failure {
        /// The status as the system words it.
        status: String,
    },
}

/// Whether `job` converts `file` into the output directory: it reads the file,
/// and writes at the plain output path, or at one with a collision token where
/// the file asks for it.
pub open spec fn is_job_for(
    job: ConversionJob,
    file: DiscoveredFile,
    directory: Seq<u8>,
    extension: Seq<u8>,
) -> bool {
    &&& job.input@ == file.path@
    &&& file.scramble ==> is_scrambled_path(job.output@, directory, file.file_name@, extension)
    &&& !file.scramble ==> job.output@ == output_path_bytes(
        directory,
        file.file_name@,
        None,
        extension,
    )
}

/// Whether `jobs` holds one job for each of `files`, in the same order.
pub open spec fn is_plan_for(
    jobs: Seq<ConversionJob>,
    files: Seq<DiscoveredFile>,
    directory: Seq<u8>,
    extension: Seq<u8>,
) -> bool {
    &&& jobs.len() == files.len()
    &&& forall|i: int|
        0 <= i < jobs.len() ==> is_job_for(#[trigger] jobs[i], files[i], directory, extension)
}

/// Makes the job that converts one discovered file.
pub fn job_for(rng: &mut Rng, file: &DiscoveredFile, directory: &[u8], extension: &[u8]) -> (job:
    ConversionJob)
    ensures
        is_job_for(job, *file, directory@, extension@),
        !file.scramble ==> *final(rng) == *old(rng),
{
    let output = build_output_path(
        rng,
        directory,
        file.file_name.as_slice(),
        file.scramble,
        extension,
    );
    ConversionJob { input: slice_to_vec(file.path.as_slice()), output }
}

/// Whether none of the files needs a collision token.
pub open spec fn none_scrambled(files: Seq<DiscoveredFile>) -> bool {
    forall|i: int| 0 <= i < files.len() ==> !(#[trigger] files[i]).scramble
}

/// Plans the run: one job for each discovered file, in the order of discovery.
/// Where no file needs a collision token, the generator is left untouched.
pub fn plan_conversions(
    rng: &mut Rng,
    files: &Vec<DiscoveredFile>,
    directory: &[u8],
    extension: &[u8],
) -> (jobs: Vec<ConversionJob>)
    ensures
        is_plan_for(jobs@, files@, directory@, extension@),
        none_scrambled(files@) ==> *final(rng) == *old(rng),
{
    let mut jobs: Vec<ConversionJob> = Vec::new();
    let mut next: usize = 0;
    while next < files.len()
        invariant
            next <= files.len(),
            is_plan_for(jobs@, files@.take(next as int), directory@, extension@),
            none_scrambled(files@) ==> *rng == *old(rng),
        decreases files.len() - next,
    {
        let job = job_for(rng, &files[next], directory, extension);
        jobs.push(job);
        next = next + 1;
    }
    assert(files@.take(files.len() as int) == files@);
    jobs
}

/// A plan leaves no file out: where a walk came across at least one regular
/// file, the run goes on after discovery, and a plan for what the walk found
/// holds exactly one job for each regular file.
pub proof fn plan_covers_every_file(
    entries: Seq<WalkEntry>,
    jobs: Seq<ConversionJob>,
    directory: Seq<u8>,
    extension: Seq<u8>,
)
    requires
        regular_files(entries) >= 1,
        is_plan_for(jobs, files_of(entries), directory, extension),
    ensures
        summary_stop(files_of(entries).len(), failures_of(entries) as nat) is None,
        jobs.len() == regular_files(entries),
{
    walk_counts(entries);
}

/// Where the output of a file was found to exist, the plan writes elsewhere:
/// the job of that file reads the file, and writes in the output directory
/// under the name of the file with a collision token and the extension, which
/// is not the path that was found taken. A file whose output was free gets
/// exactly that path.
pub proof fn plan_avoids_taken_outputs(
    jobs: Seq<ConversionJob>,
    files: Seq<DiscoveredFile>,
    directory: Seq<u8>,
    extension: Seq<u8>,
    i: int,
)
    requires
        is_plan_for(jobs, files, directory, extension),
        0 <= i < files.len(),
    ensures
        jobs[i].input@ == files[i].path@,
        files[i].scramble ==> is_scrambled_path(
            jobs[i].output@,
            directory,
            files[i].file_name@,
            extension,
        ) && jobs[i].output@ != output_path_bytes(directory, files[i].file_name@, None, extension),
        !files[i].scramble ==> jobs[i].output@ == output_path_bytes(
            directory,
            files[i].file_name@,
            None,
            extension,
        ),
{
    assert(is_job_for(jobs[i], files[i], directory, extension));
    if files[i].scramble {
        scrambled_path_avoids_candidate(jobs[i].output@, directory, files[i].file_name@, extension);
    }
}

/// The arguments of a job: `-i`, the input path, the output path.
pub open spec fn argument_bytes(job: ConversionJob) -> Seq<Seq<u8>> {
    seq![seq![0x2du8, 0x69u8], job.input@, job.output@]
}

impl ConversionJob {
    /// The arguments with which the conversion tool is started for this job.
    pub fn arguments(&self) -> (arguments: Vec<Vec<u8>>)
        ensures
            each_view(arguments@) == argument_bytes(*self),
    {
        let mut flag: Vec<u8> = Vec::new();
        flag.push(0x2d);
        flag.push(0x69);
        let mut arguments: Vec<Vec<u8>> = Vec::new();
        arguments.push(flag);
        arguments.push(slice_to_vec(self.input.as_slice()));
        arguments.push(slice_to_vec(self.output.as_slice()));
        assert(flag@ =~= seq![0x2du8, 0x69u8]);
        assert(each_view(arguments@) =~= argument_bytes(*self));
        arguments
    }
}

/// The outcome that an exit of the tool stands for: success for exit code
/// zero, failure with the given wording of the status for anything else.
pub open spec fn outcome_of(exit_code: Option<i32>, status: String) -> ConversionOutcome {
    if exit_code == Some(0i32) {
        ConversionOutcome::Success
    } else {
        ConversionOutcome::Failure { status }
    }
}

/// Judges one call of the tool by the code it exited with, `None` where it was
/// ended without one; `status` is the wording that a failure carries.
pub fn conversion_outcome(exit_code: Option<i32>, status: String) -> (outcome: ConversionOutcome)
    ensures
        outcome == outcome_of(exit_code, status),
{
    match exit_code {
        Some(0) => ConversionOutcome::Success,
        _ => ConversionOutcome::Failure { status },
    }
}

/// The text that `String::from_utf8_lossy` reads from bytes: the text they
/// encode, with a replacement character for what encodes none.
pub uninterp spec fn lossy_text(bytes: Seq<u8>) -> Seq<char>;

/// Reads bytes as text with `String::from_utf8_lossy`. The result is known
/// only by its name, [`lossy_text`].
#[verifier::external_body]
fn read_lossy(bytes: &[u8]) -> (text: String)
    ensures
        text@ == lossy_text(bytes@),
{
    String::from_utf8_lossy(bytes).into_owned()
}

/// What `std` writes for a path under `{:?}`: the path between double quotes,
/// with escapes where it holds a quote, a backslash or what does not print.
pub uninterp spec fn quoted_path(path: Seq<char>) -> Seq<char>;

/// Formats a path with the `Debug` impl of `std::path::Path`. The result is
/// known only by its name, [`quoted_path`].
#[verifier::external_body]
fn quote_path(path: &str) -> (quoted: String)
    ensures
        quoted@ == quoted_path(path@),
{
    format!("{:?}", std::path::Path::new(path))
}

/// How a path is shown to the user: read as text, then quoted.
pub open spec fn shown_path(path: Seq<u8>) -> Seq<char> {
    quoted_path(lossy_text(path))
}

/// Shows a path as the user is to see it.
pub fn show_path(path: &[u8]) -> (shown: String)
    ensures
        shown@ == shown_path(path@),
{
    let text = read_lossy(path);
    quote_path(text.as_str())
}

/// The line that tells how a job went, the two paths being quoted already.
pub open spec fn outcome_text(
    quoted_input: Seq<char>,
    quoted_output: Seq<char>,
    outcome: ConversionOutcome,
) -> Seq<char> {
    match outcome {
        ConversionOutcome::Success => "Successfully converted "@ + quoted_input + " to "@
            + quoted_output,
        ConversionOutcome::Failure { status } => "Failed to convert "@ + quoted_input + " to "@
            + quoted_output + ": "@ + status@,
    }
}

/// Builds the line that tells how a job went from the two quoted paths.
pub fn outcome_line(quoted_input: &str, quoted_output: &str, outcome: &ConversionOutcome) -> (line:
    String)
    ensures
        line@ == outcome_text(quoted_input@, quoted_output@, *outcome),
{
    match outcome {
        ConversionOutcome::Success => {
            let mut line = String::from_str("Successfully converted ");
            line.append(quoted_input);
            line.append(" to ");
            line.append(quoted_output);
            line
        },
        ConversionOutcome::Failure { status } => {
            let mut line = String::from_str("Failed to convert ");
            line.append(quoted_input);
            line.append(" to ");
            line.append(quoted_output);
            line.append(": ");
            line.append(status.as_str());
            line
        },
    }
}

/// Builds the line that tells how the conversion of `input_path` into
/// `output_path` went, each path shown as [`shown_path`] describes.
pub fn display_conversion_outcome(
    input_path: &[u8],
    output_path: &[u8],
    outcome: &ConversionOutcome,
) -> (line: String)
    ensures
        line@ == outcome_text(shown_path(input_path@), shown_path(output_path@), *outcome),
{
    let quoted_input = show_path(input_path);
    let quoted_output = show_path(output_path);
    outcome_line(quoted_input.as_str(), quoted_output.as_str(), outcome)
}

} // verus!
