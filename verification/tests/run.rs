use std::collections::BTreeMap;

use zero::engine::Zero;
use zero::error::{exit_code, Error};
use zero::protocol::{Entry, Kind, Reply, Request};
use zero::settings::{InputPath, Settings};

/// What stands behind a path in the world of a test.
enum Node {
    File(Vec<u8>),
    /// A directory, with the paths of its entries in the order of enumeration.
    Dir(Vec<String>),
    /// A directory that cannot be enumerated.
    Locked,
    /// A file whose length cannot be read.
    Unreadable,
    /// A file that cannot be written.
    ReadOnly(Vec<u8>),
}

/// The world of a test: files and directories by path, the lines that the
/// user will type, and a record of what happened.
struct World {
    nodes: BTreeMap<String, Node>,
    input: Vec<String>,
    broken_input: bool,
    stdout: String,
    stderr: String,
    requests: Vec<String>,
}

impl World {
    fn new() -> World {
        World {
            nodes: BTreeMap::new(),
            input: Vec::new(),
            broken_input: false,
            stdout: String::new(),
            stderr: String::new(),
            requests: Vec::new(),
        }
    }

    fn file(mut self, path: &str, content: &[u8]) -> World {
        self.nodes.insert(path.to_string(), Node::File(content.to_vec()));
        self
    }

    fn dir(mut self, path: &str, entries: &[&str]) -> World {
        let entries = entries.iter().map(|entry| entry.to_string()).collect();
        self.nodes.insert(path.to_string(), Node::Dir(entries));
        self
    }

    fn node(mut self, path: &str, node: Node) -> World {
        self.nodes.insert(path.to_string(), node);
        self
    }

    fn typing(mut self, lines: &[&str]) -> World {
        self.input = lines.iter().map(|line| line.to_string()).collect();
        self
    }

    fn content(&self, path: &str) -> Vec<u8> {
        match self.nodes.get(path) {
            Some(Node::File(content)) => content.clone(),
            Some(Node::ReadOnly(content)) => content.clone(),
            _ => panic!("no file at {}", path),
        }
    }

    fn kind(&self, path: &str) -> Kind {
        match self.nodes.get(path) {
            Some(Node::File(_)) | Some(Node::Unreadable) | Some(Node::ReadOnly(_)) => Kind::File,
            Some(Node::Dir(_)) | Some(Node::Locked) => Kind::Directory,
            None => Kind::Missing,
        }
    }

    fn answer(&mut self, zero: &mut Zero, request: &Request) -> Reply {
        match request {
            Request::Help => {
                self.stderr.push_str("<help>");
                Reply::Done
            }
            Request::Version => {
                self.stderr.push_str("<version>");
                Reply::Done
            }
            Request::Read => {
                if self.broken_input {
                    return Reply::Failed("broken pipe".to_string());
                }
                if self.input.is_empty() {
                    zero.stdin(Vec::new());
                } else {
                    zero.stdin(vec![self.input.remove(0)]);
                }
                Reply::Done
            }
            Request::Probe { path } => Reply::Resolved(self.kind(path)),
            Request::List { path } => match self.nodes.get(path) {
                Some(Node::Dir(entries)) => Reply::Entries(
                    entries
                        .iter()
                        .map(|entry| Entry { path: entry.clone(), kind: self.kind(entry) })
                        .collect(),
                ),
                Some(Node::Locked) => Reply::Failed("permission denied".to_string()),
                _ => Reply::Failed("not a directory".to_string()),
            },
            Request::Measure { path } => match self.nodes.get(path) {
                Some(Node::File(content)) => Reply::Length(content.len() as u64),
                Some(Node::ReadOnly(content)) => Reply::Length(content.len() as u64),
                _ => Reply::Failed("no metadata".to_string()),
            },
            Request::Fill { path, len } => match self.nodes.get_mut(path) {
                Some(Node::File(content)) => {
                    let len = *len as usize;
                    if content.len() < len {
                        content.resize(len, 0);
                    }
                    for byte in content.iter_mut().take(len) {
                        *byte = 0;
                    }
                    Reply::Done
                }
                _ => Reply::Failed("read-only file".to_string()),
            },
            Request::Finish { .. } => unreachable!(),
        }
    }
}

/// Drives the program to its end in the world given, and returns the outcome.
fn drive(zero: &mut Zero, world: &mut World) -> Result<(), Error> {
    let mut reply = Reply::Done;
    for _ in 0..10_000 {
        let request = zero.run(reply);
        world.stderr.push_str(&zero.take_stderr());
        world.stdout.push_str(&zero.take_stdout());
        world.requests.push(format!("{:?}", request));
        if let Request::Finish { outcome } = request {
            return outcome;
        }
        reply = world.answer(zero, &request);
    }
    panic!("the run does not end");
}

fn settings(paths: &[&str]) -> Settings {
    Settings {
        dry_run: false,
        interactive: false,
        recursive: false,
        suppress: false,
        verbose: false,
        help: false,
        version: false,
        paths: paths
            .iter()
            .map(|path| InputPath { text: path.to_string(), rooted: path.starts_with('/') })
            .collect(),
    }
}

fn tree() -> World {
    World::new()
        .dir("D", &["D/a", "D/E", "D/b"])
        .file("D/a", b"aaaa")
        .file("D/b", b"bb")
        .dir("D/E", &["D/E/c"])
        .file("D/E/c", b"cccccc")
}

#[test]
fn overwrites_a_file_with_zero_bytes() {
    let mut world = World::new().file("secret.txt", b"0123456789");
    let mut zero = Zero::new(settings(&["secret.txt"]));
    let outcome = drive(&mut zero, &mut world);
    assert_eq!(outcome, Ok(()));
    assert_eq!(exit_code(&outcome), 0);
    assert_eq!(world.content("secret.txt"), vec![0u8; 10]);
    assert_eq!(world.stdout, "");
    assert_eq!(world.stderr, "");
    assert_eq!(
        world.requests,
        vec![
            "Probe { path: \"secret.txt\" }",
            "Measure { path: \"secret.txt\" }",
            "Fill { path: \"secret.txt\", len: 10 }",
            "Finish { outcome: Ok(()) }",
        ]
    );
}

#[test]
fn verbose_run_reports_the_bytes_overwritten() {
    let mut world = World::new().file("secret.txt", b"0123456789");
    let mut zero = Zero::new(Settings { verbose: true, ..settings(&["secret.txt"]) });
    let outcome = drive(&mut zero, &mut world);
    assert_eq!(exit_code(&outcome), 0);
    assert_eq!(world.content("secret.txt"), vec![0u8; 10]);
    assert_eq!(world.stdout, "\"secret.txt\": 10 byte(s) overwritten.\n");
    assert_eq!(world.stderr, "");
}

#[test]
fn dry_run_reports_and_writes_nothing() {
    let mut world = World::new().file("secret.txt", b"0123456789");
    let mut zero = Zero::new(Settings { dry_run: true, ..settings(&["secret.txt"]) });
    let outcome = drive(&mut zero, &mut world);
    assert_eq!(exit_code(&outcome), 0);
    assert_eq!(world.content("secret.txt"), b"0123456789".to_vec());
    assert_eq!(world.stdout, "\"secret.txt\": 10 byte(s) will be overwritten.\n");
    assert!(world.requests.iter().all(|request| !request.starts_with("Fill")));
}

#[test]
fn dry_run_reports_even_when_verbose_is_off_and_on() {
    for verbose in [false, true] {
        let mut world = World::new().file("f", b"");
        let mut zero = Zero::new(Settings { dry_run: true, verbose, ..settings(&["f"]) });
        drive(&mut zero, &mut world).unwrap();
        assert_eq!(world.stdout, "\"f\": 0 byte(s) will be overwritten.\n");
    }
}

#[test]
fn empty_file_is_filled_with_nothing() {
    let mut world = World::new().file("empty", b"");
    let mut zero = Zero::new(Settings { verbose: true, ..settings(&["empty"]) });
    drive(&mut zero, &mut world).unwrap();
    assert_eq!(world.content("empty"), Vec::<u8>::new());
    assert_eq!(world.stdout, "\"empty\": 0 byte(s) overwritten.\n");
    assert!(world.requests.contains(&"Fill { path: \"empty\", len: 0 }".to_string()));
}

#[test]
fn conflicting_options_end_the_run_with_exit_code_one() {
    let mut world = World::new().file("secret.txt", b"0123456789");
    let mut zero = Zero::new(Settings {
        interactive: true,
        suppress: true,
        ..settings(&["secret.txt", "/etc"])
    });
    let outcome = drive(&mut zero, &mut world);
    assert_eq!(outcome, Err(Error::Conflict));
    assert_eq!(exit_code(&outcome), 1);
    assert_eq!(world.stdout, "");
    assert_eq!(world.stderr, "Error: Conflicting options.\n");
    assert_eq!(world.content("secret.txt"), b"0123456789".to_vec());
    assert_eq!(world.requests, vec!["Finish { outcome: Err(Conflict) }"]);
}

#[test]
fn conflicting_options_without_paths_end_the_run_too() {
    let mut world = World::new();
    let mut zero = Zero::new(Settings { interactive: true, suppress: true, ..settings(&[]) });
    assert_eq!(drive(&mut zero, &mut world), Err(Error::Conflict));
    assert_eq!(world.stdout, "");
}

#[test]
fn validate_tells_the_conflict() {
    let fine = Zero::new(Settings { interactive: true, ..settings(&[]) });
    assert_eq!(fine.validate(), Ok(()));
    let fine = Zero::new(Settings { suppress: true, ..settings(&[]) });
    assert_eq!(fine.validate(), Ok(()));
    let fine = Zero::new(settings(&[]));
    assert_eq!(fine.validate(), Ok(()));
    let bad = Zero::new(Settings { interactive: true, suppress: true, ..settings(&[]) });
    assert_eq!(bad.validate(), Err(Error::Conflict));
}

#[test]
fn help_comes_before_everything_else() {
    let mut world = World::new().file("f", b"xyz");
    let mut zero = Zero::new(Settings {
        help: true,
        version: true,
        interactive: true,
        suppress: true,
        ..settings(&["f"])
    });
    let outcome = drive(&mut zero, &mut world);
    assert_eq!(outcome, Ok(()));
    assert_eq!(exit_code(&outcome), 0);
    assert_eq!(world.stderr, "<help>\n");
    assert_eq!(world.stdout, "");
    assert_eq!(world.content("f"), b"xyz".to_vec());
    assert_eq!(world.requests, vec!["Help", "Finish { outcome: Ok(()) }"]);
}

#[test]
fn version_comes_before_the_paths() {
    let mut world = World::new().file("f", b"xyz");
    let mut zero = Zero::new(Settings { version: true, ..settings(&["f"]) });
    let outcome = drive(&mut zero, &mut world);
    assert_eq!(outcome, Ok(()));
    assert_eq!(world.stderr, "<version>\n");
    assert_eq!(world.content("f"), b"xyz".to_vec());
    assert_eq!(world.requests, vec!["Version", "Finish { outcome: Ok(()) }"]);
}

#[test]
fn help_that_cannot_be_written_ends_the_run_with_an_error() {
    let mut zero = Zero::new(Settings { help: true, ..settings(&[]) });
    assert_eq!(zero.run(Reply::Done), Request::Help);
    let request = zero.run(Reply::Failed("stream closed".to_string()));
    assert_eq!(
        request,
        Request::Finish { outcome: Err(Error::Io("stream closed".to_string())) }
    );
    assert_eq!(zero.take_stderr(), "Error: stream closed\n");
}

#[test]
fn flat_run_overwrites_the_files_of_the_directory_only() {
    let mut world = tree();
    let mut zero = Zero::new(settings(&["D"]));
    assert_eq!(drive(&mut zero, &mut world), Ok(()));
    assert_eq!(world.content("D/a"), vec![0u8; 4]);
    assert_eq!(world.content("D/b"), vec![0u8; 2]);
    assert_eq!(world.content("D/E/c"), b"cccccc".to_vec());
    assert!(!world.requests.contains(&"List { path: \"D/E\" }".to_string()));
}

#[test]
fn recursive_run_overwrites_the_files_below_too() {
    let mut world = tree();
    let mut zero = Zero::new(Settings { recursive: true, verbose: true, ..settings(&["D"]) });
    assert_eq!(drive(&mut zero, &mut world), Ok(()));
    assert_eq!(world.content("D/a"), vec![0u8; 4]);
    assert_eq!(world.content("D/b"), vec![0u8; 2]);
    assert_eq!(world.content("D/E/c"), vec![0u8; 6]);
    assert_eq!(
        world.stdout,
        "\"D/a\": 4 byte(s) overwritten.\n\"D/E/c\": 6 byte(s) overwritten.\n\"D/b\": 2 byte(s) overwritten.\n"
    );
}

#[test]
fn targets_are_collected_before_any_is_overwritten() {
    let mut world = tree();
    let mut zero = Zero::new(Settings { recursive: true, ..settings(&["D"]) });
    drive(&mut zero, &mut world).unwrap();
    assert_eq!(
        world.requests,
        vec![
            "Probe { path: \"D\" }",
            "List { path: \"D\" }",
            "List { path: \"D/E\" }",
            "Measure { path: \"D/a\" }",
            "Fill { path: \"D/a\", len: 4 }",
            "Measure { path: \"D/E/c\" }",
            "Fill { path: \"D/E/c\", len: 6 }",
            "Measure { path: \"D/b\" }",
            "Fill { path: \"D/b\", len: 2 }",
            "Finish { outcome: Ok(()) }",
        ]
    );
}

#[test]
fn declined_absolute_path_is_left_untouched() {
    let mut world = World::new()
        .dir("/data", &["/data/x"])
        .file("/data/x", b"xx")
        .file("rel", b"rrr")
        .typing(&["n\n"]);
    let mut zero = Zero::new(Settings { recursive: true, ..settings(&["/data", "rel"]) });
    assert_eq!(drive(&mut zero, &mut world), Ok(()));
    assert_eq!(world.content("/data/x"), b"xx".to_vec());
    assert_eq!(world.content("rel"), vec![0u8; 3]);
    assert_eq!(world.stderr, "\"/data\" is absolute - continue? [y/n] ");
    assert!(world.requests.iter().all(|request| !request.contains("/data")));
}

#[test]
fn declining_is_told_when_verbose() {
    let mut world = World::new().file("/x", b"xx").typing(&["N\n"]);
    let mut zero = Zero::new(Settings { verbose: true, ..settings(&["/x"]) });
    assert_eq!(drive(&mut zero, &mut world), Ok(()));
    assert_eq!(world.content("/x"), b"xx".to_vec());
    assert_eq!(world.stderr, "\"/x\" is absolute - continue? [y/n] Skipped.\n");
}

#[test]
fn accepted_absolute_path_goes_on_as_if_unprompted() {
    let mut prompted = World::new().file("/x", b"xx").typing(&["y\n"]);
    let mut zero = Zero::new(settings(&["/x"]));
    assert_eq!(drive(&mut zero, &mut prompted), Ok(()));
    assert_eq!(prompted.content("/x"), vec![0u8; 2]);
    assert_eq!(prompted.stderr, "\"/x\" is absolute - continue? [y/n] ");

    let mut silent = World::new().file("/x", b"xx");
    let mut zero = Zero::new(Settings { suppress: true, ..settings(&["/x"]) });
    assert_eq!(drive(&mut zero, &mut silent), Ok(()));
    assert_eq!(silent.content("/x"), vec![0u8; 2]);
    assert_eq!(silent.stderr, "");
    assert_eq!(prompted.requests[1..], silent.requests[..]);
}

#[test]
fn unclear_answer_brings_the_prompt_again() {
    let mut world = World::new().file("/x", b"xx").typing(&["\n", "maybe\n", "yes\n", " Y \n"]);
    let mut zero = Zero::new(settings(&["/x"]));
    assert_eq!(drive(&mut zero, &mut world), Ok(()));
    assert_eq!(world.content("/x"), vec![0u8; 2]);
    assert_eq!(world.stderr, "\"/x\" is absolute - continue? [y/n] ".repeat(4));
    assert!(world.input.is_empty());
}

#[test]
fn end_of_input_declines() {
    let mut world = World::new().file("/x", b"xx").file("y", b"yy").typing(&["what\n"]);
    let mut zero = Zero::new(Settings { verbose: true, ..settings(&["/x", "y"]) });
    assert_eq!(drive(&mut zero, &mut world), Ok(()));
    assert_eq!(world.content("/x"), b"xx".to_vec());
    assert_eq!(world.content("y"), vec![0u8; 2]);
    assert_eq!(
        world.stderr,
        "\"/x\" is absolute - continue? [y/n] \"/x\" is absolute - continue? [y/n] Skipped.\n"
    );
}

#[test]
fn failing_input_stream_ends_the_run() {
    let mut world = World::new().file("/x", b"xx").file("y", b"yy");
    world.broken_input = true;
    let mut zero = Zero::new(settings(&["/x", "y"]));
    let outcome = drive(&mut zero, &mut world);
    assert_eq!(outcome, Err(Error::Io("broken pipe".to_string())));
    assert_eq!(exit_code(&outcome), 1);
    assert_eq!(world.content("/x"), b"xx".to_vec());
    assert_eq!(world.content("y"), b"yy".to_vec());
    assert_eq!(
        world.stderr,
        "\"/x\" is absolute - continue? [y/n] Error: broken pipe\n"
    );
}

#[test]
fn interactive_run_asks_for_every_file() {
    let mut world = tree().typing(&["y\n", "n\n", "y\n"]);
    let mut zero = Zero::new(Settings { interactive: true, recursive: true, ..settings(&["D"]) });
    assert_eq!(drive(&mut zero, &mut world), Ok(()));
    assert_eq!(world.content("D/a"), vec![0u8; 4]);
    assert_eq!(world.content("D/E/c"), b"cccccc".to_vec());
    assert_eq!(world.content("D/b"), vec![0u8; 2]);
    assert_eq!(
        world.stderr,
        "\"D/a\" will be overwritten - continue? [y/n] \
         \"D/E/c\" will be overwritten - continue? [y/n] \
         \"D/b\" will be overwritten - continue? [y/n] "
    );
    assert_eq!(world.stdout, "");
}

#[test]
fn interactive_run_asks_for_the_path_and_for_the_file() {
    let mut world = World::new().file("/x", b"xx").typing(&["y\n", "y\n"]);
    let mut zero = Zero::new(Settings { interactive: true, ..settings(&["/x"]) });
    assert_eq!(drive(&mut zero, &mut world), Ok(()));
    assert_eq!(world.content("/x"), vec![0u8; 2]);
    assert_eq!(
        world.stderr,
        "\"/x\" is absolute - continue? [y/n] \"/x\" will be overwritten - continue? [y/n] "
    );
}

#[test]
fn suppress_asks_nothing() {
    let mut world = World::new().dir("/d", &["/d/f"]).file("/d/f", b"abc");
    let mut zero = Zero::new(Settings { suppress: true, ..settings(&["/d"]) });
    assert_eq!(drive(&mut zero, &mut world), Ok(()));
    assert_eq!(world.content("/d/f"), vec![0u8; 3]);
    assert_eq!(world.stderr, "");
    assert!(!world.requests.contains(&"Read".to_string()));
}

#[test]
fn missing_path_gets_one_line_and_the_next_path_its_turn() {
    let mut world = World::new().file("there", b"abc");
    let mut zero = Zero::new(settings(&["nowhere", "there"]));
    let outcome = drive(&mut zero, &mut world);
    assert_eq!(outcome, Ok(()));
    assert_eq!(exit_code(&outcome), 0);
    assert_eq!(world.stderr, "Error: Cannot access \"nowhere\": not found\n");
    assert_eq!(world.stderr.matches("not found").count(), 1);
    assert_eq!(world.stderr.lines().count(), 1);
    assert_eq!(world.content("there"), vec![0u8; 3]);
}

#[test]
fn directory_that_cannot_be_enumerated_is_reported_and_left() {
    let mut world = World::new().node("locked", Node::Locked).file("f", b"abc");
    let mut zero = Zero::new(settings(&["locked", "f"]));
    assert_eq!(drive(&mut zero, &mut world), Ok(()));
    assert_eq!(world.stderr, "Error: Cannot access \"locked\": permission denied\n");
    assert_eq!(world.content("f"), vec![0u8; 3]);
}

#[test]
fn nested_directory_that_cannot_be_enumerated_costs_its_subtree_only() {
    let mut world = World::new()
        .dir("D", &["D/a", "D/L", "D/E", "D/b"])
        .file("D/a", b"a")
        .node("D/L", Node::Locked)
        .dir("D/E", &["D/E/c"])
        .file("D/E/c", b"c")
        .file("D/b", b"b");
    let mut zero = Zero::new(Settings { recursive: true, ..settings(&["D"]) });
    assert_eq!(drive(&mut zero, &mut world), Ok(()));
    assert_eq!(world.stderr, "Error: Cannot access \"D/L\": permission denied\n");
    assert_eq!(world.content("D/a"), vec![0u8; 1]);
    assert_eq!(world.content("D/E/c"), vec![0u8; 1]);
    assert_eq!(world.content("D/b"), vec![0u8; 1]);
}

#[test]
fn file_that_cannot_be_measured_is_reported_and_the_next_taken_up() {
    let mut world = World::new()
        .dir("D", &["D/u", "D/f"])
        .node("D/u", Node::Unreadable)
        .file("D/f", b"ff");
    let mut zero = Zero::new(settings(&["D"]));
    let outcome = drive(&mut zero, &mut world);
    assert_eq!(exit_code(&outcome), 0);
    assert_eq!(world.stderr, "Error: Cannot overwrite \"D/u\": no metadata\n");
    assert_eq!(world.content("D/f"), vec![0u8; 2]);
}

#[test]
fn file_that_cannot_be_written_is_reported_and_the_next_taken_up() {
    let mut world = World::new()
        .node("ro", Node::ReadOnly(b"keep".to_vec()))
        .file("f", b"ff");
    let mut zero = Zero::new(Settings { verbose: true, ..settings(&["ro", "f"]) });
    let outcome = drive(&mut zero, &mut world);
    assert_eq!(outcome, Ok(()));
    assert_eq!(world.stderr, "Error: Cannot overwrite \"ro\": read-only file\n");
    assert_eq!(world.stdout, "\"f\": 2 byte(s) overwritten.\n");
    assert_eq!(world.content("ro"), b"keep".to_vec());
    assert_eq!(world.content("f"), vec![0u8; 2]);
}

#[test]
fn entries_that_are_neither_file_nor_directory_are_passed_over() {
    let mut zero = Zero::new(Settings { recursive: true, ..settings(&["D"]) });
    assert_eq!(zero.run(Reply::Done), Request::Probe { path: "D".to_string() });
    assert_eq!(zero.run(Reply::Resolved(Kind::Directory)), Request::List { path: "D".to_string() });
    let entries = vec![
        Entry { path: "D/socket".to_string(), kind: Kind::Other },
        Entry { path: "D/dangling".to_string(), kind: Kind::Missing },
    ];
    assert_eq!(zero.run(Reply::Entries(entries)), Request::Finish { outcome: Ok(()) });
    assert_eq!(zero.take_stderr(), "");
}

#[test]
fn input_path_that_is_neither_file_nor_directory_is_tried_as_a_directory() {
    let mut zero = Zero::new(settings(&["dev"]));
    zero.run(Reply::Done);
    assert_eq!(zero.run(Reply::Resolved(Kind::Other)), Request::List { path: "dev".to_string() });
    assert_eq!(
        zero.run(Reply::Failed("not a directory".to_string())),
        Request::Finish { outcome: Ok(()) }
    );
    assert_eq!(zero.take_stderr(), "Error: Cannot access \"dev\": not a directory\n");
}

#[test]
fn probe_that_fails_is_reported() {
    let mut zero = Zero::new(settings(&["p"]));
    zero.run(Reply::Done);
    assert_eq!(
        zero.run(Reply::Failed("interrupted".to_string())),
        Request::Finish { outcome: Ok(()) }
    );
    assert_eq!(zero.take_stderr(), "Error: Cannot access \"p\": interrupted\n");
}

#[test]
fn reply_of_the_wrong_kind_counts_as_a_failure() {
    let mut zero = Zero::new(settings(&["f", "g"]));
    zero.run(Reply::Done);
    assert_eq!(zero.run(Reply::Resolved(Kind::File)), Request::Measure { path: "f".to_string() });
    assert_eq!(zero.run(Reply::Done), Request::Probe { path: "g".to_string() });
    assert_eq!(zero.take_stderr(), "Error: Cannot overwrite \"f\": unexpected reply\n");
}

#[test]
fn run_that_is_over_stays_over() {
    let mut zero = Zero::new(settings(&[]));
    assert_eq!(zero.run(Reply::Done), Request::Finish { outcome: Ok(()) });
    assert_eq!(zero.run(Reply::Length(3)), Request::Finish { outcome: Ok(()) });
    let mut zero = Zero::new(Settings { interactive: true, suppress: true, ..settings(&[]) });
    assert_eq!(zero.run(Reply::Done), Request::Finish { outcome: Err(Error::Conflict) });
    assert_eq!(zero.run(Reply::Done), Request::Finish { outcome: Err(Error::Conflict) });
    assert_eq!(zero.take_stderr(), "Error: Conflicting options.\n");
}

#[test]
fn no_paths_is_a_run_that_does_nothing() {
    let mut world = World::new();
    let mut zero = Zero::new(settings(&[]));
    let outcome = drive(&mut zero, &mut world);
    assert_eq!(exit_code(&outcome), 0);
    assert_eq!(world.stdout, "");
    assert_eq!(world.stderr, "");
}

#[test]
fn paths_are_taken_up_in_the_order_given() {
    let mut world = World::new().file("b", b"1").file("a", b"22").file("c", b"333");
    let mut zero = Zero::new(Settings { dry_run: true, ..settings(&["b", "a", "c"]) });
    drive(&mut zero, &mut world).unwrap();
    assert_eq!(
        world.stdout,
        "\"b\": 1 byte(s) will be overwritten.\n\"a\": 2 byte(s) will be overwritten.\n\"c\": 3 byte(s) will be overwritten.\n"
    );
}

#[test]
fn file_that_grew_keeps_what_lies_beyond_the_length_measured() {
    let mut world = World::new().file("log", b"0123456789");
    let mut zero = Zero::new(settings(&["log"]));
    zero.run(Reply::Done);
    zero.run(Reply::Resolved(Kind::File));
    let request = zero.run(Reply::Length(4));
    assert_eq!(request, Request::Fill { path: "log".to_string(), len: 4 });
    let reply = world.answer(&mut zero, &request);
    assert_eq!(zero.run(reply), Request::Finish { outcome: Ok(()) });
    assert_eq!(world.content("log"), b"\0\0\0\x00456789".to_vec());
}

#[test]
fn streams_can_be_replaced() {
    let mut zero = Zero::new(Settings { dry_run: true, ..settings(&["/f"]) });
    zero.stderr("before ".to_string()).stdout("out: ".to_string()).stdin(vec!["y".to_string()]);
    assert_eq!(zero.run(Reply::Done), Request::Read);
    assert_eq!(zero.run(Reply::Done), Request::Probe { path: "/f".to_string() });
    zero.run(Reply::Resolved(Kind::File));
    zero.run(Reply::Length(7));
    assert_eq!(zero.take_stderr(), "before \"/f\" is absolute - continue? [y/n] ");
    assert_eq!(zero.take_stdout(), "out: \"/f\": 7 byte(s) will be overwritten.\n");
    assert_eq!(zero.take_stdout(), "");
}

#[test]
fn input_path_of_its_own_tells_whether_it_is_rooted() {
    let rooted = InputPath::new("/var/log".to_string());
    assert_eq!(rooted.text, "/var/log");
    assert_eq!(rooted.rooted, std::path::Path::new("/var/log").has_root());
    let relative = InputPath::new("var/log".to_string());
    assert_eq!(relative.text, "var/log");
    assert!(!relative.rooted);
}
