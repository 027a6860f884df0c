use cmdkit::convert::{
    elapsed_summary, input_notice, probe_arguments, tool_name, tool_notice, ConvertExit,
};
use cmdkit::discovery::{summarize, Discovery, WalkEntry};
use cmdkit::jobs::{
    conversion_outcome, display_conversion_outcome, job_for, outcome_line, plan_conversions,
    show_path, ConversionJob, ConversionOutcome,
};
use cmdkit::paths::{
    append_bytes, build_output_path, collision_token, join, output_file_name, output_path,
    SEPARATOR, TOKEN_LENGTH,
};
use fastrand::Rng;
use std::path::PathBuf;

fn file(path: &str, name: &str, output_exists: bool) -> WalkEntry {
    WalkEntry::File {
        path: path.as_bytes().to_vec(),
        file_name: name.as_bytes().to_vec(),
        output_exists,
    }
}

fn text(bytes: &[u8]) -> &str {
    std::str::from_utf8(bytes).unwrap()
}

fn token_of(file_name: &str, name: &str, extension: &str) -> String {
    let head = format!("{} (", name);
    let tail = format!(").{}", extension);
    assert!(file_name.starts_with(&head), "{:?}", file_name);
    assert!(file_name.ends_with(&tail), "{:?}", file_name);
    String::from(&file_name[head.len()..file_name.len() - tail.len()])
}

#[test]
fn three_files_give_three_conversions() {
    let entries = vec![
        WalkEntry::Other,
        file("in/a.mp3", "a.mp3", false),
        file("in/b.wav", "b.wav", false),
        WalkEntry::Other,
        file("in/sub/c.flac", "c.flac", false),
    ];
    let discovery = Discovery::from_entries(entries);
    assert_eq!(discovery.files.len(), 3);
    assert_eq!(discovery.failures, 0);
    let notice = discovery.summary();
    assert_eq!(notice.message, "Processing 3 files");
    assert_eq!(notice.stop, None);

    let mut rng = Rng::with_seed(1);
    let jobs = plan_conversions(&mut rng, &discovery.files, b"out", b"mp4");
    assert_eq!(jobs.len(), 3);
    assert_eq!(rng.get_seed(), 1);
    let inputs: Vec<&str> = jobs.iter().map(|j| text(&j.input)).collect();
    let outputs: Vec<&str> = jobs.iter().map(|j| text(&j.output)).collect();
    assert_eq!(inputs, vec!["in/a.mp3", "in/b.wav", "in/sub/c.flac"]);
    assert_eq!(outputs, vec!["out/a.mp3.mp4", "out/b.wav.mp4", "out/c.flac.mp4"]);

    let mut lines = Vec::new();
    for job in jobs.iter() {
        assert_eq!(job.arguments(), vec![b"-i".to_vec(), job.input.clone(), job.output.clone()]);
        let outcome = conversion_outcome(Some(0), String::from("exit status: 0"));
        lines.push(display_conversion_outcome(&job.input, &job.output, &outcome));
    }
    assert_eq!(
        lines,
        vec![
            "Successfully converted \"in/a.mp3\" to \"out/a.mp3.mp4\"",
            "Successfully converted \"in/b.wav\" to \"out/b.wav.mp4\"",
            "Successfully converted \"in/sub/c.flac\" to \"out/c.flac.mp4\"",
        ]
    );
    let closing = elapsed_summary(0, 12);
    assert_eq!(closing, "Finished in 0 minutes, 0 seconds, and 12 milliseconds");
    assert_eq!(ConvertExit::Success.code(), 0);
}

#[test]
fn empty_discovery_has_nothing_to_do() {
    let discovery = Discovery::from_entries(Vec::new());
    assert_eq!(discovery.files.len(), 0);
    assert_eq!(discovery.failures, 0);
    let notice = discovery.summary();
    assert_eq!(notice.message, "Didn't discover any files in the input directory");
    assert_eq!(notice.stop, Some(ConvertExit::NothingDiscovered));
    assert_eq!(ConvertExit::NothingDiscovered.code(), -3);
}

#[test]
fn directories_alone_are_nothing_to_do() {
    let discovery = Discovery::from_entries(vec![WalkEntry::Other, WalkEntry::Other]);
    let notice = discovery.summary();
    assert_eq!(notice.message, "Didn't discover any files in the input directory");
    assert_eq!(notice.stop, Some(ConvertExit::NothingDiscovered));
}

#[test]
fn unreadable_entries_alone_stop_the_run() {
    let discovery = Discovery::from_entries(vec![
        WalkEntry::Inaccessible,
        WalkEntry::Other,
        WalkEntry::Inaccessible,
    ]);
    assert_eq!(discovery.files.len(), 0);
    assert_eq!(discovery.failures, 2);
    let notice = discovery.summary();
    assert_eq!(notice.message, "All 2 discovered files were inaccessible");
    assert_eq!(notice.stop, Some(ConvertExit::AllInaccessible));
    assert_eq!(ConvertExit::AllInaccessible.code(), -2);
}

#[test]
fn mixed_discovery_goes_on() {
    let discovery = Discovery::from_entries(vec![
        file("in/a", "a", true),
        WalkEntry::Inaccessible,
        file("in/b", "b", false),
        WalkEntry::Inaccessible,
        WalkEntry::Inaccessible,
    ]);
    assert_eq!(discovery.files.len(), 2);
    assert_eq!(discovery.failures, 3);
    assert!(discovery.files[0].scramble);
    assert!(!discovery.files[1].scramble);
    assert_eq!(discovery.files[0].path, b"in/a");
    assert_eq!(discovery.files[1].file_name, b"b");
    let notice = discovery.summary();
    assert_eq!(notice.message, "Found 2 usable files and 3 inaccessible files");
    assert_eq!(notice.stop, None);
}

#[test]
fn entries_are_recorded_one_by_one() {
    let mut discovery = Discovery::new();
    assert_eq!(discovery.files.len(), 0);
    assert_eq!(discovery.failures, 0);
    discovery.record(WalkEntry::Other);
    assert_eq!((discovery.files.len(), discovery.failures), (0, 0));
    discovery.record(WalkEntry::Inaccessible);
    assert_eq!((discovery.files.len(), discovery.failures), (0, 1));
    discovery.record(file("x/y.ogg", "y.ogg", true));
    assert_eq!((discovery.files.len(), discovery.failures), (1, 1));
    assert_eq!(discovery.files[0].path, b"x/y.ogg");
    assert_eq!(discovery.files[0].file_name, b"y.ogg");
    assert!(discovery.files[0].scramble);
}

#[test]
fn summaries_by_count() {
    assert_eq!(summarize(1, 0).message, "Processing 1 files");
    assert_eq!(summarize(1, 0).stop, None);
    assert_eq!(summarize(u64::MAX, 0).message, "Processing 18446744073709551615 files");
    assert_eq!(summarize(0, 1).message, "All 1 discovered files were inaccessible");
    assert_eq!(summarize(0, 1).stop, Some(ConvertExit::AllInaccessible));
    assert_eq!(summarize(10, 200).message, "Found 10 usable files and 200 inaccessible files");
    assert_eq!(summarize(10, 200).stop, None);
    assert_eq!(summarize(0, 0).message, "Didn't discover any files in the input directory");
    assert_eq!(summarize(0, 0).stop, Some(ConvertExit::NothingDiscovered));
}

#[test]
fn missing_tool_stops_before_anything_else() {
    assert!(tool_notice(true).is_none());
    let notice = tool_notice(false).unwrap();
    assert_eq!(notice.message, "FFmpeg not detected, check your PATH");
    assert_eq!(notice.stop, Some(ConvertExit::ToolNotFound));
    assert_eq!(ConvertExit::ToolNotFound.code(), -1);
    assert_eq!(tool_name(), "ffmpeg");
    assert_eq!(probe_arguments(), vec![b"-version".to_vec()]);
}

#[test]
fn bad_input_path_only_warns() {
    assert!(input_notice(true, true).is_none());
    for (present, is_directory) in [(false, false), (true, false), (false, true)] {
        let notice = input_notice(present, is_directory).unwrap();
        assert_eq!(notice.message, "The search path did not exist or wasn't a directory");
        assert_eq!(notice.stop, None);
    }
}

#[test]
fn conversion_codes_differ() {
    let codes = vec![
        ConvertExit::Success.code(),
        ConvertExit::ToolNotFound.code(),
        ConvertExit::AllInaccessible.code(),
        ConvertExit::NothingDiscovered.code(),
    ];
    assert_eq!(codes, vec![0, -1, -2, -3]);
}

#[test]
fn elapsed_time_is_split() {
    assert_eq!(
        elapsed_summary(0, 0),
        "Finished in 0 minutes, 0 seconds, and 0 milliseconds"
    );
    assert_eq!(
        elapsed_summary(125, 125_250),
        "Finished in 2 minutes, 5 seconds, and 250 milliseconds"
    );
    assert_eq!(
        elapsed_summary(59, 59_999),
        "Finished in 0 minutes, 59 seconds, and 999 milliseconds"
    );
    assert_eq!(
        elapsed_summary(3600, 3_600_001),
        "Finished in 60 minutes, 0 seconds, and 1 milliseconds"
    );
    assert_eq!(
        elapsed_summary(u64::MAX, u128::MAX),
        "Finished in 307445734561825860 minutes, 15 seconds, and 455 milliseconds"
    );
}

#[test]
fn output_file_names() {
    assert_eq!(output_file_name(b"song.mp3", None, b"mp4"), b"song.mp3.mp4");
    assert_eq!(
        output_file_name(b"song.mp3", Some(b"abcDEF0123456789"), b"mp4"),
        b"song.mp3 (abcDEF0123456789).mp4"
    );
    assert_eq!(output_file_name(b"", None, b""), b".");
    assert_eq!(output_file_name(b"", Some(b""), b""), b" ().");
    assert_eq!(output_file_name("naïve".as_bytes(), None, b"ogg"), "naïve.ogg".as_bytes());
}

#[test]
fn names_that_are_no_text_pass_through() {
    let name = b"caf\xe9 \xff.mp3";
    assert_eq!(output_file_name(name, None, b"ogg"), b"caf\xe9 \xff.mp3.ogg");
    assert_eq!(join(b"out\xfe", name), b"out\xfe/caf\xe9 \xff.mp3");
    let discovery = Discovery::from_entries(vec![WalkEntry::File {
        path: b"in/caf\xe9 \xff.mp3".to_vec(),
        file_name: name.to_vec(),
        output_exists: false,
    }]);
    let mut rng = Rng::with_seed(1);
    let jobs = plan_conversions(&mut rng, &discovery.files, b"out", b"ogg");
    assert_eq!(jobs[0].input, b"in/caf\xe9 \xff.mp3");
    assert_eq!(jobs[0].output, b"out/caf\xe9 \xff.mp3.ogg");
    assert_eq!(
        jobs[0].arguments(),
        vec![
            b"-i".to_vec(),
            b"in/caf\xe9 \xff.mp3".to_vec(),
            b"out/caf\xe9 \xff.mp3.ogg".to_vec()
        ]
    );
}

#[test]
fn bytes_are_appended() {
    let mut out = b"ab".to_vec();
    append_bytes(&mut out, b"");
    assert_eq!(out, b"ab");
    append_bytes(&mut out, b"cd\x00\xff");
    assert_eq!(out, b"abcd\x00\xff");
}

#[test]
fn join_puts_one_separator_between() {
    assert_eq!(join(b"out", b"a.mp4"), b"out/a.mp4");
    assert_eq!(join(b"out/", b"a.mp4"), b"out/a.mp4");
    assert_eq!(join(b"", b"a.mp4"), b"a.mp4");
    assert_eq!(join(b"/", b"a.mp4"), b"/a.mp4");
    assert_eq!(join(b"./deep/er", b"a b.mp4"), b"./deep/er/a b.mp4");
    assert_eq!(join("数据".as_bytes(), "é.mp4".as_bytes()), "数据/é.mp4".as_bytes());
    assert_eq!(SEPARATOR, b'/');
}

#[test]
fn join_agrees_with_path_buf() {
    for directory in ["out", "out/", "", "/", "a/b", "a/b/", "../x", "."] {
        for name in ["a.mp4", "a (0123456789abcdef).mp4", "x y.ogg"] {
            let mut expected = PathBuf::new();
            expected.push(directory);
            expected.push(name);
            let path = join(directory.as_bytes(), name.as_bytes());
            assert_eq!(PathBuf::from(text(&path)), expected);
            assert_eq!(text(&path), expected.to_str().unwrap());
        }
    }
}

#[test]
fn output_paths_with_a_given_token() {
    assert_eq!(output_path(b"out", b"a.mp3", None, b"mp4"), b"out/a.mp3.mp4");
    assert_eq!(
        output_path(b"out/", b"a.mp3", Some(b"0000000000000000"), b"mp4"),
        b"out/a.mp3 (0000000000000000).mp4"
    );
}

#[test]
fn collision_tokens_are_sixteen_letters_and_digits() {
    assert_eq!(TOKEN_LENGTH, 16);
    let mut rng = Rng::with_seed(77);
    let mut seen = std::collections::HashSet::new();
    for _ in 0..500 {
        let token = collision_token(&mut rng);
        assert_eq!(token.len(), 16);
        assert!(token.iter().all(|b| b.is_ascii_alphanumeric()));
        seen.insert(token);
    }
    assert!(seen.len() > 490);
}

#[test]
fn taken_output_gets_a_token_in_its_name() {
    let mut rng = Rng::with_seed(5);
    for _ in 0..200 {
        let candidate = build_output_path(&mut rng, b"out", b"clip.mov", false, b"mp4");
        assert_eq!(candidate, b"out/clip.mov.mp4");
        let path = build_output_path(&mut rng, b"out", b"clip.mov", true, b"mp4");
        assert_ne!(path, candidate);
        let path = text(&path);
        assert!(path.starts_with("out/"));
        let token = token_of(&path["out/".len()..], "clip.mov", "mp4");
        assert_eq!(token.len(), 16);
        assert!(token.chars().all(|c| c.is_ascii_alphanumeric()));
    }
}

#[test]
fn free_output_leaves_the_generator_alone() {
    let mut rng = Rng::with_seed(900);
    let path = build_output_path(&mut rng, b"o", b"f", false, b"e");
    assert_eq!(path, b"o/f.e");
    assert_eq!(rng.get_seed(), 900);
    let _ = build_output_path(&mut rng, b"o", b"f", true, b"e");
    assert_ne!(rng.get_seed(), 900);
}

#[test]
fn plan_follows_the_scramble_flags() {
    let discovery = Discovery::from_entries(vec![
        file("in/a.mp3", "a.mp3", true),
        file("in/b.mp3", "b.mp3", false),
        file("in/c.mp3", "c.mp3", true),
    ]);
    let mut rng = Rng::with_seed(12);
    let jobs = plan_conversions(&mut rng, &discovery.files, b"out", b"wav");
    assert_eq!(jobs.len(), 3);
    assert_eq!(jobs[0].input, b"in/a.mp3");
    assert_eq!(jobs[1].input, b"in/b.mp3");
    assert_eq!(jobs[2].input, b"in/c.mp3");
    assert_eq!(jobs[1].output, b"out/b.mp3.wav");
    let first = token_of(&text(&jobs[0].output)["out/".len()..], "a.mp3", "wav");
    let third = token_of(&text(&jobs[2].output)["out/".len()..], "c.mp3", "wav");
    for token in [&first, &third] {
        assert_eq!(token.len(), 16);
        assert!(token.chars().all(|c| c.is_ascii_alphanumeric()));
    }
    assert_ne!(jobs[0].output, b"out/a.mp3.wav");
    assert_ne!(jobs[2].output, b"out/c.mp3.wav");
}

#[test]
fn plan_of_nothing_is_empty() {
    let mut rng = Rng::with_seed(12);
    let jobs = plan_conversions(&mut rng, &Vec::new(), b"out", b"wav");
    assert!(jobs.is_empty());
}

#[test]
fn one_job_for_one_file() {
    let discovery = Discovery::from_entries(vec![file("in/z.aiff", "z.aiff", false)]);
    let mut rng = Rng::with_seed(2);
    let job = job_for(&mut rng, &discovery.files[0], b"", b"mp3");
    assert_eq!(job.input, b"in/z.aiff");
    assert_eq!(job.output, b"z.aiff.mp3");
    assert_eq!(
        job.arguments(),
        vec![b"-i".to_vec(), b"in/z.aiff".to_vec(), b"z.aiff.mp3".to_vec()]
    );
}

#[test]
fn exit_code_zero_alone_is_success() {
    assert!(matches!(
        conversion_outcome(Some(0), String::from("exit status: 0")),
        ConversionOutcome::Success
    ));
    for code in [Some(1), Some(-1), Some(255), Some(i32::MIN), None] {
        match conversion_outcome(code, String::from("the status")) {
            ConversionOutcome::Failure { status } => assert_eq!(status, "the status"),
            ConversionOutcome::Success => panic!("{:?} is no success", code),
        }
    }
}

#[test]
fn outcome_lines_from_quoted_paths() {
    assert_eq!(
        outcome_line("<in>", "<out>", &ConversionOutcome::Success),
        "Successfully converted <in> to <out>"
    );
    let failure = ConversionOutcome::Failure { status: String::from("exit status: 1") };
    assert_eq!(
        outcome_line("<in>", "<out>", &failure),
        "Failed to convert <in> to <out>: exit status: 1"
    );
}

#[test]
fn displayed_paths_are_quoted() {
    let failure = ConversionOutcome::Failure { status: String::from("exit status: 183") };
    assert_eq!(
        display_conversion_outcome(b"in/a.mp3", b"out/a.mp3.mp4", &failure),
        "Failed to convert \"in/a.mp3\" to \"out/a.mp3.mp4\": exit status: 183"
    );
    assert_eq!(
        display_conversion_outcome(b"a\"b", b"c\\d", &ConversionOutcome::Success),
        "Successfully converted \"a\\\"b\" to \"c\\\\d\""
    );
    let job = ConversionJob { input: b"it's\n".to_vec(), output: "ü".as_bytes().to_vec() };
    let expected = format!(
        "Successfully converted {:?} to {:?}",
        PathBuf::from("it's\n"),
        PathBuf::from("ü")
    );
    assert_eq!(
        display_conversion_outcome(&job.input, &job.output, &ConversionOutcome::Success),
        expected
    );
}

#[test]
fn paths_are_shown_in_quotes() {
    assert_eq!(show_path(b"in/a.mp3"), "\"in/a.mp3\"");
    assert_eq!(show_path(b""), "\"\"");
    assert_eq!(show_path("tab\there".as_bytes()), "\"tab\\there\"");
    let shown = show_path(b"caf\xe9.mp3");
    assert_eq!(shown, format!("{:?}", PathBuf::from("caf\u{fffd}.mp3")));
}
