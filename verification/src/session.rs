//! A conversion run, step by step. The session says what is to be done next;
//! the caller does it and reports what came of it; the session answers with
//! the line to print, if any, and the next thing to do.

use fastrand::Rng;
use vstd::prelude::*;
use vstd::string::*;

use crate::convert::{
    bad_input_text, elapsed_summary, elapsed_text, input_notice, probe_arguments, probe_bytes,
    tool_missing_text, tool_name, tool_notice, tool_text, ConvertExit,
};
use crate::discovery::{
    failures_of, files_of, regular_files, summary_stop, summary_text, unreadable, walk_counts,
    DiscoveredFile, Discovery, WalkEntry,
};
use crate::jobs::{
    argument_bytes, conversion_outcome, display_conversion_outcome, is_plan_for, outcome_of,
    outcome_text, plan_conversions, shown_path, ConversionJob,
};
use crate::paths::{each_view, output_path, output_path_bytes};

verus! {

/// What a session waits for.
#[derive(Clone, Copy, Debug, PartialEq, Eq, Structural)]
pub enum Phase {
    /// Whether the conversion tool starts.
    Probing,
    /// What the input path is.
    Inspecting,
    /// The entries of the walk over the input directory.
    Walking,
    /// The start of the clock.
    Starting,
    /// The end of the conversion that is under way.
    Converting,
    /// The reading of the clock.
    Timing,
    /// Nothing: the run is over.
    Finished,
}

/// What the caller reports to the session.
#[derive(Debug)]
pub enum Event {
    /// The tool was started with the probe arguments.
    ToolProbed {
        /// Whether it could be started.
        started: bool,
    },
    /// The input path was looked at.
    InputInspected {
        /// Whether anything is there.
        present: bool,
        /// Whether it is a directory.
        is_directory: bool,
    },
    /// The input directory was walked.
    Walked {
        /// Everything the walk came across, in its order.
        entries: Vec<WalkEntry>,
    },
    /// The clock was started.
    ClockStarted,
    /// The tool has run for the job that was handed out.
    Converted {
        /// The code it exited with, if it exited by itself.
        exit_code: Option<i32>,
        /// The exit status as the system words it.
        status: String,
    },
    /// The clock was read.
    ClockRead {
        /// The whole seconds since its start.
        seconds: u64,
        /// The whole milliseconds since its start.
        milliseconds: u128,
    },
}

/// What the session asks the caller to do.
#[derive(Debug)]
pub enum Action {
    /// Start the tool to see whether it is there.
    Probe {
        /// The name under which the tool is looked up.
        program: String,
        /// The arguments to start it with, in the bytes the system takes.
        arguments: Vec<Vec<u8>>,
    },
    /// Look at the input path.
    Inspect,
    /// Walk the input directory.
    Walk,
    /// Start the clock.
    StartClock,
    /// Run the tool for one job and wait for it to end.
    Convert {
        /// The name under which the tool is looked up.
        program: String,
        /// The arguments to start it with, in the bytes the system takes.
        arguments: Vec<Vec<u8>>,
    },
    /// Read the clock.
    ReadClock,
    /// End the process.
    Exit {
        /// How the run ended.
        kind: ConvertExit,
    },
}

/// The answer of the session to one event.
#[derive(Debug)]
pub struct Reaction {
    /// The line to print, if there is one.
    pub line: Option<String>,
    /// What to do next.
    pub action: Action,
}

/// A conversion run and how far it has come.
#[derive(Debug)]
pub struct Session {
    /// The directory that takes the converted files, in the bytes the system
    /// knows it by.
    pub output_directory: Vec<u8>,
    /// The extension of the converted files.
    pub extension: Vec<u8>,
    /// What the session waits for.
    pub phase: Phase,
    /// Whether the input path was found to be a directory that exists. Until
    /// the input path is looked at, it is not.
    pub searchable: bool,
    /// The files that the walk found.
    pub files: Vec<DiscoveredFile>,
    /// The jobs of the run, one for each file, once they are planned.
    pub jobs: Vec<ConversionJob>,
    /// How many jobs are done.
    pub next: usize,
}

/// The line of a reaction as text.
pub open spec fn said(r: Reaction) -> Option<Seq<char>> {
    match r.line {
        Some(line) => Some(line@),
        None => None,
    }
}

/// Whether `action` starts the tool with the probe arguments.
pub open spec fn is_probe(action: Action) -> bool {
    action matches Action::Probe { program, arguments } && program@ == tool_text()
        && each_view(arguments@) == probe_bytes()
}

/// Whether `action` starts the tool for `job`.
pub open spec fn is_conversion_of(action: Action, job: ConversionJob) -> bool {
    action matches Action::Convert { program, arguments } && program@ == tool_text()
        && each_view(arguments@) == argument_bytes(job)
}

/// Whether the event is the one that the session waits for.
pub open spec fn fits(pre: Session, event: Event) -> bool {
    match event {
        Event::ToolProbed { .. } => pre.phase == Phase::Probing,
        Event::InputInspected { .. } => pre.phase == Phase::Inspecting,
        Event::Walked { .. } => pre.phase == Phase::Walking,
        Event::ClockStarted => pre.phase == Phase::Starting,
        Event::Converted { .. } => pre.phase == Phase::Converting && pre.next < pre.jobs@.len(),
        Event::ClockRead { .. } => pre.phase == Phase::Timing,
    }
}

/// Whether `action` is what a session with its jobs planned does next: the
/// conversion of the first job that is not done, or, when none is left, the
/// reading of the clock.
pub open spec fn hands_out(s: Session, action: Action) -> bool {
    if s.next < s.jobs@.len() {
        s.phase == Phase::Converting && is_conversion_of(action, s.jobs@[s.next as int])
    } else {
        s.phase == Phase::Timing && action is ReadClock
    }
}

/// After the probe: a tool that started leads on to the input path, without a
/// word; one that did not ends the run.
pub open spec fn after_probe(pre: Session, started: bool, post: Session, r: Reaction) -> bool {
    &&& post.files == pre.files && post.jobs == pre.jobs && post.next == pre.next
    &&& post.searchable == pre.searchable
    &&& started ==> r.line is None && r.action is Inspect && post.phase == Phase::Inspecting
    &&& !started ==> said(r) == Some(tool_missing_text()) && r.action == (Action::Exit {
        kind: ConvertExit::ToolNotFound,
    }) && post.phase == Phase::Finished
}

/// After the look at the input path: the walk is next in any case, with a
/// warning where the path is no directory. The session keeps what was found.
pub open spec fn after_inspection(
    pre: Session,
    present: bool,
    is_directory: bool,
    post: Session,
    r: Reaction,
) -> bool {
    &&& post.files == pre.files && post.jobs == pre.jobs && post.next == pre.next
    &&& post.searchable == (present && is_directory)
    &&& said(r) == if present && is_directory {
        None
    } else {
        Some(bad_input_text())
    }
    &&& r.action is Walk
    &&& post.phase == Phase::Walking
}

/// What of a walk counts: every entry where the input path was found to be a
/// directory, and nothing where it was not, whatever the walk came back with.
pub open spec fn counted(searchable: bool, entries: Seq<WalkEntry>) -> Seq<WalkEntry> {
    if searchable {
        entries
    } else {
        Seq::<WalkEntry>::empty()
    }
}

/// After the walk: the discovery is summed up in a line; the run ends where
/// no file is usable, and else goes on to start the clock. A walk from an
/// input path that is no directory discovers nothing.
pub open spec fn after_walk(pre: Session, entries: Seq<WalkEntry>, post: Session, r: Reaction) -> bool {
    let found = counted(pre.searchable, entries);
    let successes = files_of(found).len();
    let failures = failures_of(found) as nat;
    &&& post.files@ == files_of(found)
    &&& post.jobs == pre.jobs && post.next == pre.next
    &&& post.searchable == pre.searchable
    &&& said(r) == Some(summary_text(successes, failures))
    &&& match summary_stop(successes, failures) {
        Some(kind) => r.action == (Action::Exit { kind }) && post.phase == Phase::Finished,
        None => r.action is StartClock && post.phase == Phase::Starting,
    }
}

/// After the start of the clock: the jobs are planned, one for each file, and
/// the first is handed out, without a word.
pub open spec fn after_clock_start(pre: Session, post: Session, r: Reaction) -> bool {
    &&& post.files == pre.files
    &&& post.searchable == pre.searchable
    &&& is_plan_for(post.jobs@, pre.files@, pre.output_directory@, pre.extension@)
    &&& post.next == 0
    &&& r.line is None
    &&& hands_out(post, r.action)
}

/// After a conversion: the line tells how the job went, the job is done, and
/// the next one is handed out.
pub open spec fn after_conversion(
    pre: Session,
    exit_code: Option<i32>,
    status: String,
    post: Session,
    r: Reaction,
) -> bool {
    let job = pre.jobs@[pre.next as int];
    &&& post.files == pre.files && post.jobs == pre.jobs && post.next == pre.next + 1
    &&& post.searchable == pre.searchable
    &&& said(r) == Some(
        outcome_text(
            shown_path(job.input@),
            shown_path(job.output@),
            outcome_of(exit_code, status),
        ),
    )
    &&& hands_out(post, r.action)
}

/// After the reading of the clock: the closing line, and the run ends well.
pub open spec fn after_clock_read(
    pre: Session,
    seconds: u64,
    milliseconds: u128,
    post: Session,
    r: Reaction,
) -> bool {
    &&& post.files == pre.files && post.jobs == pre.jobs && post.next == pre.next
    &&& post.searchable == pre.searchable
    &&& said(r) == Some(elapsed_text(seconds as nat, milliseconds as nat))
    &&& r.action == (Action::Exit { kind: ConvertExit::Success })
    &&& post.phase == Phase::Finished
}

/// Whether `post` and `r` are what the session `pre` makes of an event that
/// it waits for.
pub open spec fn reacts(pre: Session, event: Event, post: Session, r: Reaction) -> bool {
    &&& post.output_directory == pre.output_directory
    &&& post.extension == pre.extension
    &&& match event {
        Event::ToolProbed { started } => after_probe(pre, started, post, r),
        Event::InputInspected { present, is_directory } => after_inspection(
            pre,
            present,
            is_directory,
            post,
            r,
        ),
        Event::Walked { entries } => after_walk(pre, entries@, post, r),
        Event::ClockStarted => after_clock_start(pre, post, r),
        Event::Converted { exit_code, status } => after_conversion(
            pre,
            exit_code,
            status,
            post,
            r,
        ),
        Event::ClockRead { seconds, milliseconds } => after_clock_read(
            pre,
            seconds,
            milliseconds,
            post,
            r,
        ),
    }
}

impl Session {
    /// Whether the session is one that has just been opened.
    pub open spec fn is_fresh(self) -> bool {
        &&& self.phase == Phase::Probing
        &&& !self.searchable
        &&& self.files@.len() == 0
        &&& self.jobs@.len() == 0
        &&& self.next == 0
    }

    /// Opens a run into the given directory and extension. The first thing to
    /// do is to probe the tool.
    pub fn new(output_directory: Vec<u8>, extension: Vec<u8>) -> (start: (Session, Action))
        ensures
            start.0.output_directory == output_directory,
            start.0.extension == extension,
            start.0.is_fresh(),
            is_probe(start.1),
    {
        let session = Session {
            output_directory,
            extension,
            phase: Phase::Probing,
            searchable: false,
            files: Vec::new(),
            jobs: Vec::new(),
            next: 0,
        };
        (session, Action::Probe { program: tool_name(), arguments: probe_arguments() })
    }

    /// The path at which the output of a file of the given name goes if
    /// nothing is in its way.
    pub fn candidate_path(&self, file_name: &[u8]) -> (path: Vec<u8>)
        ensures
            path@ == output_path_bytes(self.output_directory@, file_name@, None, self.extension@),
    {
        output_path(self.output_directory.as_slice(), file_name, None, self.extension.as_slice())
    }

    /// Hands out the first job that is not done, or asks for the clock.
    fn hand_out(&mut self) -> (action: Action)
        ensures
            hands_out(*final(self), action),
            final(self).output_directory == old(self).output_directory,
            final(self).extension == old(self).extension,
            final(self).searchable == old(self).searchable,
            final(self).files == old(self).files,
            final(self).jobs == old(self).jobs,
            final(self).next == old(self).next,
    {
        if self.next < self.jobs.len() {
            self.phase = Phase::Converting;
            Action::Convert { program: tool_name(), arguments: self.jobs[self.next].arguments() }
        } else {
            self.phase = Phase::Timing;
            Action::ReadClock
        }
    }

    /// Takes the report of what was done and answers with the line to print
    /// and the next thing to do. An event that the session does not wait for
    /// gets no answer and changes nothing. The generator is drawn from only
    /// when the jobs are planned.
    pub fn advance(&mut self, rng: &mut Rng, event: Event) -> (reaction: Option<Reaction>)
        ensures
            match reaction {
                Some(r) => fits(*old(self), event) && reacts(*old(self), event, *final(self), r),
                None => !fits(*old(self), event) && *final(self) == *old(self),
            },
            !(event is ClockStarted) ==> *final(rng) == *old(rng),
    {
        match event {
            Event::ToolProbed { started } => {
                match self.phase {
                    Phase::Probing => {},
                    _ => {
                        return None;
                    },
                }
                match tool_notice(started) {
                    None => {
                        self.phase = Phase::Inspecting;
                        Some(Reaction { line: None, action: Action::Inspect })
                    },
                    Some(notice) => {
                        self.phase = Phase::Finished;
                        Some(
                            Reaction {
                                line: Some(notice.message),
                                action: Action::Exit { kind: ConvertExit::ToolNotFound },
                            },
                        )
                    },
                }
            },
            Event::InputInspected { present, is_directory } => {
                match self.phase {
                    Phase::Inspecting => {},
                    _ => {
                        return None;
                    },
                }
                self.phase = Phase::Walking;
                self.searchable = present && is_directory;
                match input_notice(present, is_directory) {
                    None => Some(Reaction { line: None, action: Action::Walk }),
                    Some(notice) => Some(
                        Reaction { line: Some(notice.message), action: Action::Walk },
                    ),
                }
            },
            Event::Walked { entries } => {
                match self.phase {
                    Phase::Walking => {},
                    _ => {
                        return None;
                    },
                }
                let discovery = if self.searchable {
                    Discovery::from_entries(entries)
                } else {
                    Discovery::new()
                };
                assert(discovery.files@ =~= files_of(counted(self.searchable, entries@)));
                let notice = discovery.summary();
                self.files = discovery.files;
                match notice.stop {
                    Some(kind) => {
                        self.phase = Phase::Finished;
                        Some(Reaction { line: Some(notice.message), action: Action::Exit { kind } })
                    },
                    None => {
                        self.phase = Phase::Starting;
                        Some(Reaction { line: Some(notice.message), action: Action::StartClock })
                    },
                }
            },
            Event::ClockStarted => {
                match self.phase {
                    Phase::Starting => {},
                    _ => {
                        return None;
                    },
                }
                self.jobs = plan_conversions(
                    rng,
                    &self.files,
                    self.output_directory.as_slice(),
                    self.extension.as_slice(),
                );
                self.next = 0;
                let action = self.hand_out();
                Some(Reaction { line: None, action })
            },
            Event::Converted { exit_code, status } => {
                match self.phase {
                    Phase::Converting => {},
                    _ => {
                        return None;
                    },
                }
                if self.next >= self.jobs.len() {
                    return None;
                }
                let outcome = conversion_outcome(exit_code, status);
                let line = display_conversion_outcome(
                    self.jobs[self.next].input.as_slice(),
                    self.jobs[self.next].output.as_slice(),
                    &outcome,
                );
                self.next = self.next + 1;
                let action = self.hand_out();
                Some(Reaction { line: Some(line), action })
            },
            Event::ClockRead { seconds, milliseconds } => {
                match self.phase {
                    Phase::Timing => {},
                    _ => {
                        return None;
                    },
                }
                self.phase = Phase::Finished;
                Some(
                    Reaction {
                        line: Some(elapsed_summary(seconds, milliseconds)),
                        action: Action::Exit { kind: ConvertExit::Success },
                    },
                )
            },
        }
    }
}

/// Whether the three sequences are a run: each event is the one that the
/// session before it waits for, and the session after it and the reaction are
/// what [`Session::advance`] makes of it.
pub open spec fn is_run(sessions: Seq<Session>, events: Seq<Event>, reactions: Seq<Reaction>) -> bool {
    &&& sessions.len() == events.len() + 1
    &&& reactions.len() == events.len()
    &&& forall|i: int|
        0 <= i < events.len() ==> fits(sessions[i], #[trigger] events[i]) && reacts(
            sessions[i],
            events[i],
            sessions[i + 1],
            reactions[i],
        )
}

/// How often the reactions ask for a conversion.
pub open spec fn conversions_asked(reactions: Seq<Reaction>) -> nat
    decreases reactions.len(),
{
    if reactions.len() == 0 {
        0
    } else {
        conversions_asked(reactions.drop_last()) + if reactions.last().action is Convert {
            1nat
        } else {
            0nat
        }
    }
}

/// How many of the events report a conversion. Each of them is answered with
/// one line that tells how the job went.
pub open spec fn conversions_reported(events: Seq<Event>) -> nat
    decreases events.len(),
{
    if events.len() == 0 {
        0
    } else {
        conversions_reported(events.drop_last()) + if events.last() is Converted {
            1nat
        } else {
            0nat
        }
    }
}

/// What holds of a session after the first `asked` conversions were asked for
/// and the first `reported` ones reported: before the jobs are planned there is
/// none of either; while one is under way, it is asked for and not reported;
/// afterwards every job is both.
spec fn in_step(s: Session, asked: nat, reported: nat) -> bool {
    match s.phase {
        Phase::Converting => s.next < s.jobs@.len() && asked == s.next + 1 && reported == s.next,
        Phase::Timing | Phase::Finished => s.next == s.jobs@.len() && asked == s.next && reported
            == s.next,
        _ => s.jobs@.len() == 0 && s.next == 0 && asked == 0 && reported == 0,
    }
}

/// What holds of a session once the walk has been reported: it keeps the files
/// of the walk, and once the jobs are planned there is one for each file.
spec fn past_walk(s: Session, entries: Seq<WalkEntry>) -> bool {
    &&& s.files@ == files_of(entries)
    &&& match s.phase {
        Phase::Starting => true,
        Phase::Converting | Phase::Timing | Phase::Finished => s.jobs@.len() == s.files@.len(),
        _ => false,
    }
}

proof fn lemma_run_prefix(
    sessions: Seq<Session>,
    events: Seq<Event>,
    reactions: Seq<Reaction>,
    walk: int,
    k: int,
)
    requires
        is_run(sessions, events, reactions),
        sessions[0].is_fresh(),
        0 <= walk < events.len(),
        events[walk] is Walked,
        summary_stop(
            files_of(events[walk]->entries@).len(),
            failures_of(events[walk]->entries@) as nat,
        ) is None,
        sessions[walk].searchable,
        0 <= k <= events.len(),
    ensures
        in_step(
            sessions[k],
            conversions_asked(reactions.take(k)),
            conversions_reported(events.take(k)),
        ),
        k > walk ==> past_walk(sessions[k], events[walk]->entries@),
    decreases k,
{
    if k > 0 {
        let j = k - 1;
        lemma_run_prefix(sessions, events, reactions, walk, j);
        assert(reactions.take(k).drop_last() == reactions.take(j));
        assert(events.take(k).drop_last() == events.take(j));
        assert(reacts(sessions[j], events[j], sessions[j + 1], reactions[j]));
    }
}

/// A run over an input path that was found to be a directory, and that holds
/// at least one regular file, converts each regular file once, whatever else
/// is there: by the time the run is over, as many conversions were asked for
/// as the walk came across regular files, as many were reported and answered
/// with a line, and the run has ended well.
pub proof fn run_converts_every_file(
    sessions: Seq<Session>,
    events: Seq<Event>,
    reactions: Seq<Reaction>,
    walk: int,
)
    requires
        is_run(sessions, events, reactions),
        sessions[0].is_fresh(),
        sessions.last().phase == Phase::Finished,
        0 <= walk < events.len(),
        events[walk] is Walked,
        sessions[walk].searchable,
        regular_files(events[walk]->entries@) >= 1,
    ensures
        conversions_asked(reactions) == regular_files(events[walk]->entries@),
        conversions_reported(events) == regular_files(events[walk]->entries@),
        reactions.last().action == (Action::Exit { kind: ConvertExit::Success }),
{
    let entries = events[walk]->entries@;
    let last = events.len() - 1;
    walk_counts(entries);
    lemma_run_prefix(sessions, events, reactions, walk, events.len() as int);
    lemma_run_prefix(sessions, events, reactions, walk, last);
    assert(reactions.take(events.len() as int) == reactions);
    assert(events.take(events.len() as int) == events);
    assert(reacts(sessions[last], events[last], sessions[last + 1], reactions[last]));
}

/// What the `i`-th turn of a run is, counted from zero, where the walk was
/// reported as event `walk`: the reaction that asks for the conversion of the
/// `i`-th job, with `-i`, its input and its output as arguments; then the event
/// that reports how that conversion ended; then the line that tells so, with
/// the two paths of that job.
pub open spec fn takes_turn(
    sessions: Seq<Session>,
    events: Seq<Event>,
    reactions: Seq<Reaction>,
    walk: int,
    i: int,
) -> bool {
    let job = sessions.last().jobs@[i];
    let asked = walk + 1 + i;
    let done = walk + 2 + i;
    &&& done < events.len()
    &&& is_conversion_of(reactions[asked].action, job)
    &&& events[done] is Converted
    &&& said(reactions[done]) == Some(
        outcome_text(
            shown_path(job.input@),
            shown_path(job.output@),
            outcome_of(events[done]->exit_code, events[done]->status),
        ),
    )
}

/// What holds of a run once `i` conversions are done: the session after them
/// has the jobs as they were planned, counts `i` of them as done, and the last
/// reaction has handed out what is next.
spec fn after_turns(
    sessions: Seq<Session>,
    events: Seq<Event>,
    reactions: Seq<Reaction>,
    walk: int,
    i: int,
) -> bool {
    let planned = sessions[walk + 2];
    let c = walk + 2 + i;
    &&& c <= events.len()
    &&& sessions[c].jobs == planned.jobs
    &&& sessions[c].next == i
    &&& sessions[c].output_directory == planned.output_directory
    &&& sessions[c].extension == planned.extension
    &&& hands_out(sessions[c], reactions[c - 1].action)
    &&& is_plan_for(
        planned.jobs@,
        files_of(events[walk]->entries@),
        planned.output_directory@,
        planned.extension@,
    )
    &&& i > 0 ==> events[c - 1] is Converted && said(reactions[c - 1]) == Some(
        outcome_text(
            shown_path(planned.jobs@[i - 1].input@),
            shown_path(planned.jobs@[i - 1].output@),
            outcome_of(events[c - 1]->exit_code, events[c - 1]->status),
        ),
    )
}

proof fn lemma_turns(
    sessions: Seq<Session>,
    events: Seq<Event>,
    reactions: Seq<Reaction>,
    walk: int,
    i: int,
)
    requires
        is_run(sessions, events, reactions),
        sessions.last().phase == Phase::Finished,
        0 <= walk < events.len(),
        sessions[walk].phase == Phase::Walking,
        events[walk] is Walked,
        sessions[walk].searchable,
        regular_files(events[walk]->entries@) >= 1,
        0 <= i <= regular_files(events[walk]->entries@),
    ensures
        after_turns(sessions, events, reactions, walk, i),
    decreases i,
{
    let entries = events[walk]->entries@;
    let end = events.len() as int;
    walk_counts(entries);
    if i == 0 {
        assert(reacts(sessions[walk], events[walk], sessions[walk + 1], reactions[walk]));
        assert(sessions[walk + 1].phase == Phase::Starting);
        assert(walk + 1 < end);
        assert(fits(sessions[walk + 1], events[walk + 1]));
        assert(reacts(
            sessions[walk + 1],
            events[walk + 1],
            sessions[walk + 2],
            reactions[walk + 1],
        ));
    } else {
        lemma_turns(sessions, events, reactions, walk, i - 1);
        let c = walk + 1 + i;
        assert(sessions[c].phase == Phase::Converting);
        assert(c < end);
        assert(fits(sessions[c], events[c]));
        assert(reacts(sessions[c], events[c], sessions[c + 1], reactions[c]));
    }
}

/// A run over an input path that was found to be a directory, and that holds
/// `n >= 1` regular files, takes the files in turn. After the line that sums
/// up the discovery and the start of the clock come `n` turns and no more: in
/// turn `i` the tool is asked for once, for the job of the `i`-th file, and the
/// next conversion is asked for only in the reaction to the end of this one,
/// however it ended. The jobs are a plan for the files of the walk into the
/// output directory. The run closes with the reading of the clock.
pub proof fn run_takes_the_files_in_turn(
    sessions: Seq<Session>,
    events: Seq<Event>,
    reactions: Seq<Reaction>,
    walk: int,
)
    requires
        is_run(sessions, events, reactions),
        sessions.last().phase == Phase::Finished,
        0 <= walk < events.len(),
        sessions[walk].phase == Phase::Walking,
        events[walk] is Walked,
        sessions[walk].searchable,
        regular_files(events[walk]->entries@) >= 1,
    ensures
        events.len() == walk + regular_files(events[walk]->entries@) + 3,
        said(reactions[walk]) == Some(
            summary_text(
                regular_files(events[walk]->entries@),
                unreadable(events[walk]->entries@),
            ),
        ),
        reactions[walk].action is StartClock,
        events[walk + 1] is ClockStarted,
        is_plan_for(
            sessions.last().jobs@,
            files_of(events[walk]->entries@),
            sessions[walk].output_directory@,
            sessions[walk].extension@,
        ),
        forall|i: int|
            0 <= i < regular_files(events[walk]->entries@) ==> #[trigger] takes_turn(
                sessions,
                events,
                reactions,
                walk,
                i,
            ),
        events.last() is ClockRead,
        reactions.last().action == (Action::Exit { kind: ConvertExit::Success }),
{
    let entries = events[walk]->entries@;
    let n = regular_files(entries) as int;
    let end = events.len() as int;
    let planned = sessions[walk + 2];
    walk_counts(entries);
    lemma_turns(sessions, events, reactions, walk, 0);
    lemma_turns(sessions, events, reactions, walk, n);
    assert(reacts(sessions[walk], events[walk], sessions[walk + 1], reactions[walk]));
    assert(fits(sessions[walk + 1], events[walk + 1]));
    assert(reacts(sessions[walk + 1], events[walk + 1], sessions[walk + 2], reactions[walk + 1]));
    // After the last turn the clock is read, and nothing follows.
    let c = walk + 2 + n;
    assert(sessions[c].phase == Phase::Timing);
    assert(c < end);
    assert(fits(sessions[c], events[c]));
    assert(reacts(sessions[c], events[c], sessions[c + 1], reactions[c]));
    if c + 1 < end {
        assert(fits(sessions[c + 1], events[c + 1]));
    }
    assert(sessions.last() == sessions[c + 1]);
    assert forall|i: int| 0 <= i < n implies #[trigger] takes_turn(
        sessions,
        events,
        reactions,
        walk,
        i,
    ) by {
        lemma_turns(sessions, events, reactions, walk, i);
        lemma_turns(sessions, events, reactions, walk, i + 1);
    }
}

/// A run from an input path that was not found to be a directory discovers
/// nothing, whatever its walk comes back with: after the warning and the walk
/// it says that there are no files, and ends without a single conversion.
pub proof fn unsearchable_input_discovers_nothing(
    sessions: Seq<Session>,
    events: Seq<Event>,
    reactions: Seq<Reaction>,
    walk: int,
)
    requires
        is_run(sessions, events, reactions),
        0 <= walk < events.len(),
        sessions[walk].phase == Phase::Walking,
        events[walk] is Walked,
        !sessions[walk].searchable,
    ensures
        events.len() == walk + 1,
        said(reactions[walk]) == Some(summary_text(0, 0)),
        reactions[walk].action == (Action::Exit { kind: ConvertExit::NothingDiscovered }),
        sessions[walk + 1].phase == Phase::Finished,
        sessions[walk + 1].files@.len() == 0,
{
    assert(reacts(sessions[walk], events[walk], sessions[walk + 1], reactions[walk]));
    if events.len() > walk + 1 {
        assert(fits(sessions[walk + 1], events[walk + 1]));
    }
}

/// The session keeps what the inspection found: where the event before the
/// walk reports the look at the input path, the session is searchable for the
/// walk exactly if a directory was found there.
pub proof fn inspection_is_kept(
    sessions: Seq<Session>,
    events: Seq<Event>,
    reactions: Seq<Reaction>,
    walk: int,
)
    requires
        is_run(sessions, events, reactions),
        1 <= walk < events.len(),
        events[walk - 1] is InputInspected,
    ensures
        sessions[walk].phase == Phase::Walking,
        sessions[walk].searchable == (events[walk - 1]->present && events[walk - 1]->is_directory),
        said(reactions[walk - 1]) == if sessions[walk].searchable {
            None
        } else {
            Some(bad_input_text())
        },
        events[walk] is Walked,
{
    assert(fits(sessions[walk - 1], events[walk - 1]));
    assert(reacts(sessions[walk - 1], events[walk - 1], sessions[walk], reactions[walk - 1]));
    assert(fits(sessions[walk], events[walk]));
}

/// Where the tool does not start, the run is over at once: the probe is the
/// only event of the run, and the reaction to it ends the process before the
/// input directory is looked at.
pub proof fn missing_tool_ends_the_run(
    sessions: Seq<Session>,
    events: Seq<Event>,
    reactions: Seq<Reaction>,
)
    requires
        is_run(sessions, events, reactions),
        sessions[0].is_fresh(),
        events.len() >= 1,
        events[0] == (Event::ToolProbed { started: false }),
    ensures
        events.len() == 1,
        reactions[0].action == (Action::Exit { kind: ConvertExit::ToolNotFound }),
        said(reactions[0]) == Some(tool_missing_text()),
{
    assert(reacts(sessions[0], events[0], sessions[1], reactions[0]));
    if events.len() > 1 {
        assert(fits(sessions[1], events[1]));
    }
}

} // verus!
