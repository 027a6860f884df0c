//! Discovery: what the walk over the input directory found, and what follows
//! from it.

use vstd::prelude::*;
use vstd::string::*;

use crate::convert::{ConvertExit, Notice};
use crate::text::{numeral, push_numeral};

verus! {

/// One entry that the walk over the input directory came across.
#[derive(Debug)]
pub enum WalkEntry {
    /// A regular file.
    File {
        /// The path of the file, in the bytes the system knows it by.
        path: Vec<u8>,
        /// The last component of that path.
        file_name: Vec<u8>,
        /// Whether something already exists where its output would go.
        output_exists: bool,
    },
    /// Anything else that could be read: a directory, a link, a device.
    Other,
    /// An entry that could not be read.
    Inaccessible,
}

/// A file that waits to be converted.
#[derive(Debug)]
pub struct DiscoveredFile {
    /// The path of the file, in the bytes the system knows it by.
    pub path: Vec<u8>,
    /// The last component of that path.
    pub file_name: Vec<u8>,
    /// Whether the output needs a collision token in its name.
    pub scramble: bool,
}

/// What the walk has found so far.
#[derive(Debug)]
pub struct Discovery {
    /// The regular files, in the order in which they were found.
    pub files: Vec<DiscoveredFile>,
    /// How many entries could not be read.
    pub failures: u64,
}

/// What an entry adds to the list of files: a regular file adds itself, with
/// the need for a token taken from whether its output exists; nothing else adds
/// anything.
pub open spec fn files_after(files: Seq<DiscoveredFile>, entry: WalkEntry) -> Seq<DiscoveredFile> {
    match entry {
        WalkEntry::File { path, file_name, output_exists } => files.push(
            DiscoveredFile { path, file_name, scramble: output_exists },
        ),
        _ => files,
    }
}

/// What an entry adds to the count of failures: one, if it could not be read.
pub open spec fn failures_after(failures: int, entry: WalkEntry) -> int {
    match entry {
        WalkEntry::Inaccessible => failures + 1,
        _ => failures,
    }
}

/// The files that a walk over `entries` leaves in the list, in their order.
pub open spec fn files_of(entries: Seq<WalkEntry>) -> Seq<DiscoveredFile>
    decreases entries.len(),
{
    if entries.len() == 0 {
        Seq::<DiscoveredFile>::empty()
    } else {
        files_after(files_of(entries.drop_last()), entries.last())
    }
}

/// The number of failures that a walk over `entries` counts.
pub open spec fn failures_of(entries: Seq<WalkEntry>) -> int
    decreases entries.len(),
{
    if entries.len() == 0 {
        0
    } else {
        failures_after(failures_of(entries.drop_last()), entries.last())
    }
}

/// How many of the entries are regular files.
pub open spec fn regular_files(entries: Seq<WalkEntry>) -> nat {
    entries.filter(|e: WalkEntry| e is File).len()
}

/// How many of the entries could not be read.
pub open spec fn unreadable(entries: Seq<WalkEntry>) -> nat {
    entries.filter(|e: WalkEntry| e is Inaccessible).len()
}

/// A walk keeps every regular file and nothing else, and counts every entry
/// that could not be read and nothing else.
pub proof fn walk_counts(entries: Seq<WalkEntry>)
    ensures
        files_of(entries).len() == regular_files(entries),
        failures_of(entries) == unreadable(entries),
        failures_of(entries) <= entries.len(),
    decreases entries.len(),
{
    reveal(Seq::filter);
    if entries.len() > 0 {
        walk_counts(entries.drop_last());
    }
}

/// A regular file that the walk came across is kept, in the order of the
/// walk: it stands in the list behind as many files as regular files came
/// before it, with its path and its name, and it needs a collision token
/// exactly if its output was found to exist.
pub proof fn file_entry_is_kept(entries: Seq<WalkEntry>, j: int)
    requires
        0 <= j < entries.len(),
        entries[j] is File,
    ensures
        regular_files(entries.take(j)) < files_of(entries).len(),
        files_of(entries)[regular_files(entries.take(j)) as int] == (DiscoveredFile {
            path: entries[j]->path,
            file_name: entries[j]->file_name,
            scramble: entries[j]->output_exists,
        }),
    decreases entries.len(),
{
    let shorter = entries.drop_last();
    if j == entries.len() - 1 {
        assert(entries.take(j) == shorter);
        walk_counts(shorter);
    } else {
        assert(shorter.take(j) == entries.take(j));
        file_entry_is_kept(shorter, j);
    }
}

/// The line that sums up a discovery of `successes` files and `failures`
/// unreadable entries.
pub open spec fn summary_text(successes: nat, failures: nat) -> Seq<char> {
    if successes > 0 && failures == 0 {
        "Processing "@ + numeral(successes, 10) + " files"@
    } else if successes == 0 && failures > 0 {
        "All "@ + numeral(failures, 10) + " discovered files were inaccessible"@
    } else if successes > 0 && failures > 0 {
        "Found "@ + numeral(successes, 10) + " usable files and "@ + numeral(failures, 10)
            + " inaccessible files"@
    } else {
        "Didn't discover any files in the input directory"@
    }
}

/// Whether the run stops after discovery: it does where no file is usable, with
/// an ending that tells an empty discovery from an unreadable one.
pub open spec fn summary_stop(successes: nat, failures: nat) -> Option<ConvertExit> {
    if successes > 0 {
        None
    } else if failures > 0 {
        Some(ConvertExit::AllInaccessible)
    } else {
        Some(ConvertExit::NothingDiscovered)
    }
}

/// Sums up a discovery from its two counts.
pub fn summarize(successes: u64, failures: u64) -> (notice: Notice)
    ensures
        notice.message@ == summary_text(successes as nat, failures as nat),
        notice.stop == summary_stop(successes as nat, failures as nat),
{
    if successes > 0 && failures == 0 {
        let mut message = String::from_str("Processing ");
        push_numeral(&mut message, successes as u128, 10);
        message.append(" files");
        Notice { message, stop: None }
    } else if successes == 0 && failures > 0 {
        let mut message = String::from_str("All ");
        push_numeral(&mut message, failures as u128, 10);
        message.append(" discovered files were inaccessible");
        Notice { message, stop: Some(ConvertExit::AllInaccessible) }
    } else if successes > 0 && failures > 0 {
        let mut message = String::from_str("Found ");
        push_numeral(&mut message, successes as u128, 10);
        message.append(" usable files and ");
        push_numeral(&mut message, failures as u128, 10);
        message.append(" inaccessible files");
        Notice { message, stop: None }
    } else {
        Notice {
            message: String::from_str("Didn't discover any files in the input directory"),
            stop: Some(ConvertExit::NothingDiscovered),
        }
    }
}

impl Discovery {
    /// A discovery that has seen nothing yet.
    pub fn new() -> (d: Discovery)
        ensures
            d.files@.len() == 0,
            d.failures == 0,
    {
        Discovery { files: Vec::new(), failures: 0 }
    }

    /// Takes note of one entry of the walk.
    pub fn record(&mut self, entry: WalkEntry)
        requires
            entry is Inaccessible ==> old(self).failures < u64::MAX,
        ensures
            final(self).files@ == files_after(old(self).files@, entry),
            final(self).failures == failures_after(old(self).failures as int, entry),
    {
        match entry {
            WalkEntry::File { path, file_name, output_exists } => {
                self.files.push(DiscoveredFile { path, file_name, scramble: output_exists });
            },
            WalkEntry::Other => {},
            WalkEntry::Inaccessible => {
                self.failures = self.failures + 1;
            },
        }
    }

    /// Takes note of every entry of a walk, in order.
    pub fn from_entries(entries: Vec<WalkEntry>) -> (d: Discovery)
        ensures
            d.files@ == files_of(entries@),
            d.failures == failures_of(entries@),
    {
        let ghost all = entries@;
        let total = entries.len();
        let mut d = Discovery::new();
        let mut seen: usize = 0;
        for entry in it: entries
            invariant
                seen == it.index(),
                it.seq() == all,
                all.len() == total,
                d.files@ == files_of(all.take(seen as int)),
                d.failures == failures_of(all.take(seen as int)),
        {
            proof {
                walk_counts(all.take(seen as int));
                assert(all.take(seen + 1).drop_last() == all.take(seen as int));
            }
            d.record(entry);
            seen = seen + 1;
        }
        assert(all.take(all.len() as int) == all);
        d
    }

    /// Sums up the discovery: how many files it holds and how many entries
    /// could not be read, and whether the run stops there.
    pub fn summary(&self) -> (notice: Notice)
        ensures
            notice.message@ == summary_text(self.files@.len(), self.failures as nat),
            notice.stop == summary_stop(self.files@.len(), self.failures as nat),
    {
        summarize(self.files.len() as u64, self.failures)
    }
}

} // verus!
