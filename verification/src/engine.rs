//! The program: its state, and the steps it takes between two requests.
use vstd::prelude::*;
use std::collections::VecDeque;
use crate::error::{outcome_view, Error, ErrorView};
use crate::laws::lemma_run;
use crate::model::{cause_of, StageView, ZeroView};
use crate::prompt::{format_prompt, read_answer, Answer, Context};
use crate::protocol::{entries_view, Entry, Kind, Reply, Request, RequestView};
use crate::report::{error_line, format_error, format_failure, format_result, result_line};
use crate::settings::Settings;
use crate::status;
use crate::strings::texts_view;
use crate::text;

verus! {

/// Where the program stands: what it has asked for and not yet been
/// answered.
enum Stage {
    Start,
    Help,
    Version,
    Asking { context: Context, path: String },
    Probing { path: String },
    Listing { path: String },
    Measuring { path: String },
    Filling { path: String, len: u64 },
    Finished { outcome: Result<(), Error> },
}

impl View for Stage {
    type V = StageView;

    closed spec fn view(&self) -> StageView {
        match self {
            Stage::Start => StageView::Start,
            Stage::Help => StageView::Help,
            Stage::Version => StageView::Version,
            Stage::Asking { context, path } => StageView::Asking { context: *context, path: path@ },
            Stage::Probing { path } => StageView::Probing { path: path@ },
            Stage::Listing { path } => StageView::Listing { path: path@ },
            Stage::Measuring { path } => StageView::Measuring { path: path@ },
            Stage::Filling { path, len } => StageView::Filling { path: path@, len: *len },
            Stage::Finished { outcome } => StageView::Finished { outcome: outcome_view(*outcome) },
        }
    }
}

impl Clone for Stage {
    fn clone(&self) -> (copy: Self)
        ensures
            copy@ == self@,
    {
        match self {
            Stage::Start => Stage::Start,
            Stage::Help => Stage::Help,
            Stage::Version => Stage::Version,
            Stage::Asking { context, path } => Stage::Asking {
                context: *context,
                path: path.clone(),
            },
            Stage::Probing { path } => Stage::Probing { path: path.clone() },
            Stage::Listing { path } => Stage::Listing { path: path.clone() },
            Stage::Measuring { path } => Stage::Measuring { path: path.clone() },
            Stage::Filling { path, len } => Stage::Filling { path: path.clone(), len: *len },
            Stage::Finished { outcome } => Stage::Finished {
                outcome: match outcome {
                    Ok(_) => Ok(()),
                    Err(error) => Err(error.clone()),
                },
            },
        }
    }
}

/// The program.
///
/// It holds its three streams in memory: what it writes is kept until it is
/// taken out, and what it reads has to be put in before.
pub struct Zero {
    settings: Settings,
    stderr: String,
    stdout: String,
    stdin: Vec<String>,
    stage: Stage,
    cursor: usize,
    pending: Vec<Entry>,
    targets: VecDeque<String>,
}

impl View for Zero {
    type V = ZeroView;

    closed spec fn view(&self) -> ZeroView {
        ZeroView {
            settings: self.settings@,
            stderr: self.stderr@,
            stdout: self.stdout@,
            stdin: texts_view(self.stdin@),
            stage: self.stage@,
            cursor: self.cursor as nat,
            pending: entries_view(self.pending@),
            targets: texts_view(self.targets@),
        }
    }
}

impl Zero {
    /// Constructs this program from its options.
    pub fn new(settings: Settings) -> (zero: Zero)
        ensures
            zero@ == ZeroView::initial(settings@),
            zero@.wf(),
    {
        let zero = Zero {
            settings,
            stderr: String::new(),
            stdout: String::new(),
            stdin: Vec::new(),
            stage: Stage::Start,
            cursor: 0,
            pending: Vec::new(),
            targets: VecDeque::new(),
        };
        assert(zero@.stdin =~= Seq::empty());
        assert(zero@.pending =~= Seq::empty());
        assert(zero@.targets =~= Seq::empty());
        zero
    }

    /// Replaces the diagnostic stream of this program.
    pub fn stderr(&mut self, stderr: String) -> (zero: &mut Self)
        ensures
            zero@ == (ZeroView { stderr: stderr@, ..old(self)@ }),
            final(self)@ == final(zero)@,
    {
        self.stderr = stderr;
        self
    }

    /// Replaces the output stream of this program.
    pub fn stdout(&mut self, stdout: String) -> (zero: &mut Self)
        ensures
            zero@ == (ZeroView { stdout: stdout@, ..old(self)@ }),
            final(self)@ == final(zero)@,
    {
        self.stdout = stdout;
        self
    }

    /// Replaces the input stream of this program: the lines that it has not
    /// read yet.
    pub fn stdin(&mut self, stdin: Vec<String>) -> (zero: &mut Self)
        ensures
            zero@ == (ZeroView { stdin: texts_view(stdin@), ..old(self)@ }),
            final(self)@ == final(zero)@,
    {
        self.stdin = stdin;
        self
    }

    /// Takes out what this program has written to its diagnostic stream.
    pub fn take_stderr(&mut self) -> (text: String)
        ensures
            text@ == old(self)@.stderr,
            final(self)@ == (ZeroView { stderr: Seq::empty(), ..old(self)@ }),
    {
        let mut text = String::new();
        core::mem::swap(&mut self.stderr, &mut text);
        text
    }

    /// Takes out what this program has written to its output stream.
    pub fn take_stdout(&mut self) -> (text: String)
        ensures
            text@ == old(self)@.stdout,
            final(self)@ == (ZeroView { stdout: Seq::empty(), ..old(self)@ }),
    {
        let mut text = String::new();
        core::mem::swap(&mut self.stdout, &mut text);
        text
    }

    /// Validates the options.
    pub fn validate(&self) -> (result: Result<(), Error>)
        ensures
            outcome_view(result) == if self@.settings.conflicting() {
                Err::<(), ErrorView>(ErrorView::Conflict)
            } else {
                Ok::<(), ErrorView>(())
            },
    {
        if self.settings.interactive && self.settings.suppress {
            Err(Error::Conflict)
        } else {
            Ok(())
        }
    }

    /// Writes a path related error to the diagnostic stream.
    fn write_error(&mut self, message: &str, path: &str, cause: &str)
        ensures
            final(self)@ == old(self)@.warn(error_line(message@, path@, cause@)),
    {
        let line = format_error(message, path, cause);
        self.stderr.append(line.as_str());
    }

    /// Writes the result of an operation to the output stream.
    fn write_result(&mut self, descriptor: &str, path: &str, len: u64)
        ensures
            final(self)@ == old(self)@.say(result_line(descriptor@, path@, len as nat)),
    {
        let line = format_result(descriptor, path, len);
        self.stdout.append(line.as_str());
    }

    /// Tells, if the run is verbose, that something was skipped.
    fn skipped(&mut self)
        ensures
            final(self)@ == old(self)@.skipped(),
    {
        if self.settings.verbose {
            let mut line = String::from_str(text::SKIP);
            line.append("\n");
            self.stderr.append(line.as_str());
        }
    }

    /// Ends the run. An error is written to the diagnostic stream first.
    fn finish(&mut self, outcome: Result<(), Error>) -> (request: Request)
        ensures
            (final(self)@, request@) == old(self)@.finish(outcome_view(outcome)),
    {
        match outcome {
            Ok(_) => {
                self.stage = Stage::Finished { outcome: Ok(()) };
                Request::Finish { outcome: Ok(()) }
            },
            Err(error) => {
                let message = error.message();
                let line = format_failure(message.as_str());
                self.stderr.append(line.as_str());
                self.stage = Stage::Finished { outcome: Err(error.clone()) };
                Request::Finish { outcome: Err(error) }
            },
        }
    }

    /// Asks for the help message.
    fn help(&mut self) -> (request: Request)
        ensures
            (final(self)@, request@) == (old(self)@.at(StageView::Help), RequestView::Help),
    {
        self.stage = Stage::Help;
        Request::Help
    }

    /// Asks for the version message.
    fn version(&mut self) -> (request: Request)
        ensures
            (final(self)@, request@) == (old(self)@.at(StageView::Version), RequestView::Version),
    {
        self.stage = Stage::Version;
        Request::Version
    }

    /// Authorizes directory and file access by prompting the user: the
    /// prompt is written, and a line of input asked for.
    fn authorize(&mut self, path: String, context: Context) -> (request: Request)
        ensures
            (final(self)@, request@) == old(self)@.authorize(path@, context),
    {
        let prompt = format_prompt(path.as_str(), context);
        self.stderr.append(prompt.as_str());
        self.stage = Stage::Asking { context, path };
        Request::Read
    }

    /// Asks what an input path leads to.
    fn resolve(&mut self, path: String) -> (request: Request)
        ensures
            (final(self)@, request@) == old(self)@.resolve(path@),
    {
        self.stage = Stage::Probing { path: path.clone() };
        Request::Probe { path }
    }

    /// Asks for the length of a file that is to be overwritten.
    fn measure(&mut self, path: String) -> (request: Request)
        ensures
            (final(self)@, request@) == old(self)@.measure(path@),
    {
        self.stage = Stage::Measuring { path: path.clone() };
        Request::Measure { path }
    }

    /// Asks for the entries of a directory.
    fn list(&mut self, path: String) -> (request: Request)
        ensures
            (final(self)@, request@) == (
                old(self)@.at(StageView::Listing { path: path@ }),
                RequestView::List { path: path@ },
            ),
    {
        self.stage = Stage::Listing { path: path.clone() };
        Request::List { path }
    }

    /// Takes up a file. Authorization is requested if the `interactive`
    /// option is present.
    fn overwrite_file(&mut self, path: String) -> (request: Request)
        ensures
            (final(self)@, request@) == old(self)@.overwrite_file(path@),
    {
        if self.settings.interactive {
            self.authorize(path, Context::Interactive)
        } else {
            self.measure(path)
        }
    }

    /// Goes on with whatever is next, up to the next request: the entries
    /// found, then the targets, then the next input path. Authorization is
    /// requested for a rooted input path if the `suppress` option is not
    /// present.
    fn overwrite(&mut self) -> (request: Request)
        ensures
            (final(self)@, request@) == old(self)@.overwrite(),
    {
        let ghost goal = self@.overwrite();
        loop
            invariant
                goal == old(self)@.overwrite(),
                self@.overwrite() == goal,
            ensures
                self@.overwrite() == goal,
                self.pending@.len() == 0,
            decreases self.pending@.len(),
        {
            let ghost before = self@;
            match self.pending.pop() {
                Some(entry) => {
                    assert(self@.pending =~= before.pending.drop_last());
                    assert(entry@ == before.pending.last());
                    if entry.kind == Kind::File {
                        self.targets.push_back(entry.path);
                        assert(self@.targets =~= before.targets.push(entry@.path));
                    } else if entry.kind == Kind::Directory && self.settings.recursive {
                        return self.list(entry.path);
                    }
                },
                None => {
                    break ;
                },
            }
        }
        let ghost before = self@;
        match self.targets.pop_front() {
            Some(target) => {
                assert(self@.targets =~= before.targets.drop_first());
                assert(target@ == before.targets.first());
                return self.overwrite_file(target);
            },
            None => {},
        }
        if self.cursor < self.settings.paths.len() {
            let path = self.settings.paths[self.cursor].clone();
            self.cursor = self.cursor + 1;
            if !self.settings.suppress && path.rooted {
                return self.authorize(path.text, Context::Absolute);
            } else {
                return self.resolve(path.text);
            }
        }
        self.finish(Ok(()))
    }

    /// Begins the run.
    fn start(&mut self) -> (request: Request)
        ensures
            (final(self)@, request@) == old(self)@.start(),
    {
        if self.settings.help {
            return self.help();
        }
        if self.settings.version {
            return self.version();
        }
        match self.validate() {
            Ok(_) => self.overwrite(),
            Err(error) => self.finish(Err(error)),
        }
    }

    /// What is to be said of a reply that is not the one asked for.
    fn cause(reply: Reply) -> (cause: String)
        ensures
            cause@ == cause_of(reply@),
    {
        match reply {
            Reply::Failed(cause) => cause,
            _ => String::from_str(status::MUNEXPECTED),
        }
    }

    /// Goes on after the help or version message.
    fn shown(&mut self, reply: Reply) -> (request: Request)
        ensures
            (final(self)@, request@) == old(self)@.shown(reply@),
    {
        match reply {
            Reply::Done => {
                self.stderr.append("\n");
                self.finish(Ok(()))
            },
            other => {
                let cause = Zero::cause(other);
                self.finish(Err(Error::Io(cause)))
            },
        }
    }

    /// Goes on after a prompt, with the next line of input.
    fn answered(&mut self, path: String, context: Context, reply: Reply) -> (request: Request)
        ensures
            (final(self)@, request@) == old(self)@.answered(path@, context, reply@),
    {
        match reply {
            Reply::Done => {
                if self.stdin.len() == 0 {
                    self.skipped();
                    return self.overwrite();
                }
                let ghost before = self@;
                let line = self.stdin.remove(0);
                assert(self@.stdin =~= before.stdin.drop_first());
                assert(line@ == before.stdin.first());
                match read_answer(line.as_str()) {
                    Answer::Yes => match context {
                        Context::Absolute => self.resolve(path),
                        Context::Interactive => self.measure(path),
                    },
                    Answer::No => {
                        self.skipped();
                        self.overwrite()
                    },
                    Answer::Unclear => self.authorize(path, context),
                }
            },
            other => {
                let cause = Zero::cause(other);
                self.finish(Err(Error::Io(cause)))
            },
        }
    }

    /// Goes on after an input path was probed.
    fn resolved(&mut self, path: String, reply: Reply) -> (request: Request)
        ensures
            (final(self)@, request@) == old(self)@.resolved(path@, reply@),
    {
        let ghost before = self@;
        match reply {
            Reply::Resolved(Kind::File) => {
                self.targets.push_back(path);
                assert(self@.targets =~= before.targets.push(path@));
                self.overwrite()
            },
            Reply::Resolved(Kind::Missing) => {
                self.write_error(status::MACCESS, path.as_str(), status::MNOTFOUND);
                self.overwrite()
            },
            Reply::Resolved(_) => self.list(path),
            other => {
                let cause = Zero::cause(other);
                self.write_error(status::MACCESS, path.as_str(), cause.as_str());
                self.overwrite()
            },
        }
    }

    /// Goes on after a directory was enumerated: takes in the entries found,
    /// or writes the error. If the `recursive` option is present, the
    /// directories among the entries will be enumerated in their turn.
    fn overwrite_dir(&mut self, path: String, reply: Reply) -> (request: Request)
        ensures
            (final(self)@, request@) == old(self)@.overwrite_dir(path@, reply@),
    {
        match reply {
            Reply::Entries(entries) => {
                let mut entries = entries;
                let ghost before = self@;
                let ghost found = entries_view(entries@);
                loop
                    invariant
                        self@ == (ZeroView { pending: self@.pending, ..before }),
                        self@.pending + entries_view(entries@).reverse() == before.pending
                            + found.reverse(),
                    ensures
                        self@ == (ZeroView { pending: before.pending + found.reverse(), ..before }),
                    decreases entries@.len(),
                {
                    let ghost pending = self@.pending;
                    let ghost waiting = entries_view(entries@);
                    match entries.pop() {
                        Some(entry) => {
                            assert(entries_view(entries@) =~= waiting.drop_last());
                            assert(entry@ == waiting.last());
                            self.pending.push(entry);
                            assert(self@.pending =~= pending.push(waiting.last()));
                            assert(waiting.reverse() =~= seq![waiting.last()]
                                + waiting.drop_last().reverse());
                            assert(self@.pending + entries_view(entries@).reverse() =~= pending
                                + waiting.reverse());
                        },
                        None => {
                            assert(waiting.reverse() =~= Seq::empty());
                            assert(self@.pending =~= before.pending + found.reverse());
                            break ;
                        },
                    }
                }
                self.overwrite()
            },
            other => {
                let cause = Zero::cause(other);
                self.write_error(status::MACCESS, path.as_str(), cause.as_str());
                self.overwrite()
            },
        }
    }

    /// Goes on after a file was measured. The file will not be overwritten
    /// during a dry run.
    fn measured(&mut self, path: String, reply: Reply) -> (request: Request)
        ensures
            (final(self)@, request@) == old(self)@.measured(path@, reply@),
    {
        match reply {
            Reply::Length(len) => {
                if self.settings.dry_run {
                    self.write_result(text::DRYRUN, path.as_str(), len);
                    self.overwrite()
                } else {
                    self.stage = Stage::Filling { path: path.clone(), len };
                    Request::Fill { path, len }
                }
            },
            other => {
                let cause = Zero::cause(other);
                self.write_error(status::MOVERWRITE, path.as_str(), cause.as_str());
                self.overwrite()
            },
        }
    }

    /// Goes on after a file was zero-filled. The result is written if the
    /// `verbose` option is present.
    fn filled(&mut self, path: String, len: u64, reply: Reply) -> (request: Request)
        ensures
            (final(self)@, request@) == old(self)@.filled(path@, len, reply@),
    {
        match reply {
            Reply::Done => {
                if self.settings.verbose {
                    self.write_result(text::OVERWRITE, path.as_str(), len);
                }
                self.overwrite()
            },
            other => {
                let cause = Zero::cause(other);
                self.write_error(status::MOVERWRITE, path.as_str(), cause.as_str());
                self.overwrite()
            },
        }
    }

    /// Runs this program up to its next request, with the reply to its last
    /// one. All errors are written.
    ///
    /// The options stay as they are, a well-formed program stays
    /// well-formed, and a dry run never asks for a zero-fill.
    pub fn run(&mut self, reply: Reply) -> (request: Request)
        ensures
            (final(self)@, request@) == old(self)@.run(reply@),
            final(self)@.settings == old(self)@.settings,
            old(self)@.wf() ==> final(self)@.wf(),
            old(self)@.settings.dry_run ==> !(request@ is Fill),
    {
        proof {
            lemma_run(self@, reply@);
        }
        match self.stage.clone() {
            Stage::Start => self.start(),
            Stage::Help => self.shown(reply),
            Stage::Version => self.shown(reply),
            Stage::Asking { context, path } => self.answered(path, context, reply),
            Stage::Probing { path } => self.resolved(path, reply),
            Stage::Listing { path } => self.overwrite_dir(path, reply),
            Stage::Measuring { path } => self.measured(path, reply),
            Stage::Filling { path, len } => self.filled(path, len, reply),
            Stage::Finished { outcome } => Request::Finish { outcome },
        }
    }
}

} // verus!
