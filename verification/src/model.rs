//! The program as a mathematical machine: its states, and what it does with
//! each reply.
use vstd::prelude::*;
use crate::error::ErrorView;
use crate::settings::SettingsView;
use crate::prompt::{answer_of, prompt_text, Answer, Context};
use crate::protocol::{EntryView, Kind, ReplyView, RequestView};
use crate::report::{error_line, failure_line, result_line};
use crate::status;
use crate::text;

verus! {

/// Where the program stands: what it has asked for and not yet been
/// answered.
pub ghost enum StageView {
    /// Nothing yet: the run has not begun.
    Start,
    /// The help message.
    Help,
    /// The version message.
    Version,
    /// A line of input, in answer to the prompt for `path`.
    Asking { context: Context, path: Seq<char> },
    /// What the input path leads to.
    Probing { path: Seq<char> },
    /// The entries of a directory.
    Listing { path: Seq<char> },
    /// The length of a file.
    Measuring { path: Seq<char> },
    /// The zero-fill of a file.
    Filling { path: Seq<char>, len: u64 },
    /// Nothing more: the run is over.
    Finished { outcome: Result<(), ErrorView> },
}

/// The state of the program.
pub ghost struct ZeroView {
    /// The options of the run.
    pub settings: SettingsView,
    /// What has been written to the diagnostic stream.
    pub stderr: Seq<char>,
    /// What has been written to the output stream.
    pub stdout: Seq<char>,
    /// The lines of input that have not been read.
    pub stdin: Seq<Seq<char>>,
    /// What has been asked for.
    pub stage: StageView,
    /// How many of the input paths have been taken up.
    pub cursor: nat,
    /// The entries found under the input path in hand that have not been
    /// looked at. The last one is looked at next.
    pub pending: Seq<EntryView>,
    /// The files found under the input path in hand that have not been taken
    /// up. The first one is taken up next.
    pub targets: Seq<Seq<char>>,
}

/// The cause that a failed request gives, and the one that stands for a
/// reply of the wrong kind.
pub open spec fn cause_of(reply: ReplyView) -> Seq<char> {
    match reply {
        ReplyView::Failed(cause) => cause,
        _ => status::MUNEXPECTED@,
    }
}

impl ZeroView {
    /// The program before its run, with nothing written and nothing to read.
    pub open spec fn initial(settings: SettingsView) -> ZeroView {
        ZeroView {
            settings,
            stderr: Seq::empty(),
            stdout: Seq::empty(),
            stdin: Seq::empty(),
            stage: StageView::Start,
            cursor: 0,
            pending: Seq::empty(),
            targets: Seq::empty(),
        }
    }

    /// The same program at another stage.
    pub open spec fn at(self, stage: StageView) -> ZeroView {
        ZeroView { stage, ..self }
    }

    /// The same program with more written to the diagnostic stream.
    pub open spec fn warn(self, text: Seq<char>) -> ZeroView {
        ZeroView { stderr: self.stderr + text, ..self }
    }

    /// The same program with more written to the output stream.
    pub open spec fn say(self, text: Seq<char>) -> ZeroView {
        ZeroView { stdout: self.stdout + text, ..self }
    }

    /// The same program after it has told, if it is verbose, that something
    /// was skipped.
    pub open spec fn skipped(self) -> ZeroView {
        if self.settings.verbose {
            self.warn(text::SKIP@ + "\n"@)
        } else {
            self
        }
    }

    /// Ends the run. An error is written to the diagnostic stream first.
    pub open spec fn finish(self, outcome: Result<(), ErrorView>) -> (ZeroView, RequestView) {
        let told = match outcome {
            Ok(_) => self,
            Err(error) => self.warn(failure_line(error.message())),
        };
        (told.at(StageView::Finished { outcome }), RequestView::Finish { outcome })
    }

    /// Prompts for a path and asks for a line of input.
    pub open spec fn authorize(self, path: Seq<char>, context: Context) -> (ZeroView, RequestView) {
        (
            self.warn(prompt_text(path, context)).at(StageView::Asking { context, path }),
            RequestView::Read,
        )
    }

    /// Asks what an input path leads to.
    pub open spec fn resolve(self, path: Seq<char>) -> (ZeroView, RequestView) {
        (self.at(StageView::Probing { path }), RequestView::Probe { path })
    }

    /// Asks for the length of a file that is to be overwritten.
    pub open spec fn measure(self, path: Seq<char>) -> (ZeroView, RequestView) {
        (self.at(StageView::Measuring { path }), RequestView::Measure { path })
    }

    /// Goes on with a path once nothing stands in its way: an input path is
    /// resolved, a file is measured.
    pub open spec fn proceed(self, path: Seq<char>, context: Context) -> (ZeroView, RequestView) {
        match context {
            Context::Absolute => self.resolve(path),
            Context::Interactive => self.measure(path),
        }
    }

    /// Takes up an input path: a rooted one needs the user's consent unless
    /// prompts are suppressed.
    pub open spec fn enter(self, path: Seq<char>, rooted: bool) -> (ZeroView, RequestView) {
        if !self.settings.suppress && rooted {
            self.authorize(path, Context::Absolute)
        } else {
            self.resolve(path)
        }
    }

    /// Takes up a file: with the `interactive` option it needs the user's
    /// consent.
    pub open spec fn overwrite_file(self, path: Seq<char>) -> (ZeroView, RequestView) {
        if self.settings.interactive {
            self.authorize(path, Context::Interactive)
        } else {
            self.measure(path)
        }
    }

    /// Goes on with whatever is next, up to the next request.
    ///
    /// First the entries found are looked at, last one first: a file becomes
    /// a target, a directory is enumerated if the run is recursive, and
    /// anything else is passed over. Then the targets are taken up, first
    /// one first. Then comes the next input path, and after the last one the
    /// run ends well.
    pub open spec fn overwrite(self) -> (ZeroView, RequestView)
        decreases self.pending.len(),
    {
        if self.pending.len() > 0 {
            let entry = self.pending.last();
            let rest = ZeroView { pending: self.pending.drop_last(), ..self };
            if entry.kind == Kind::File {
                (ZeroView { targets: rest.targets.push(entry.path), ..rest }).overwrite()
            } else if entry.kind == Kind::Directory && self.settings.recursive {
                (
                    rest.at(StageView::Listing { path: entry.path }),
                    RequestView::List { path: entry.path },
                )
            } else {
                rest.overwrite()
            }
        } else if self.targets.len() > 0 {
            (ZeroView { targets: self.targets.drop_first(), ..self }).overwrite_file(
                self.targets.first(),
            )
        } else if self.cursor < self.settings.paths.len() {
            let path = self.settings.paths[self.cursor as int];
            (ZeroView { cursor: self.cursor + 1, ..self }).enter(path.text, path.rooted)
        } else {
            self.finish(Ok(()))
        }
    }

    /// Begins the run: the help message and the version message come before
    /// everything else, and conflicting options end the run before any path
    /// is taken up.
    pub open spec fn start(self) -> (ZeroView, RequestView) {
        if self.settings.help {
            (self.at(StageView::Help), RequestView::Help)
        } else if self.settings.version {
            (self.at(StageView::Version), RequestView::Version)
        } else if self.settings.conflicting() {
            self.finish(Err(ErrorView::Conflict))
        } else {
            self.overwrite()
        }
    }

    /// After the help or version message: the line is ended and the run is
    /// over.
    pub open spec fn shown(self, reply: ReplyView) -> (ZeroView, RequestView) {
        match reply {
            ReplyView::Done => self.warn("\n"@).finish(Ok(())),
            _ => self.finish(Err(ErrorView::Io(cause_of(reply)))),
        }
    }

    /// After a prompt: the next line of input is read. `y` lets the path
    /// through, `n` leaves it, and anything else brings the prompt again. At
    /// the end of the input the path is left, as if the answer had been `n`.
    /// If the input stream failed, the run ends.
    pub open spec fn answered(self, path: Seq<char>, context: Context, reply: ReplyView) -> (
        ZeroView,
        RequestView,
    ) {
        match reply {
            ReplyView::Done => if self.stdin.len() == 0 {
                self.skipped().overwrite()
            } else {
                let rest = ZeroView { stdin: self.stdin.drop_first(), ..self };
                match answer_of(self.stdin.first()) {
                    Answer::Yes => rest.proceed(path, context),
                    Answer::No => rest.skipped().overwrite(),
                    Answer::Unclear => rest.authorize(path, context),
                }
            },
            _ => self.finish(Err(ErrorView::Io(cause_of(reply)))),
        }
    }

    /// After an input path was probed: a file is the one target, a missing
    /// path is reported, and anything else is enumerated as a directory.
    pub open spec fn resolved(self, path: Seq<char>, reply: ReplyView) -> (ZeroView, RequestView) {
        match reply {
            ReplyView::Resolved(Kind::File) => (ZeroView {
                targets: self.targets.push(path),
                ..self
            }).overwrite(),
            ReplyView::Resolved(Kind::Missing) => self.warn(
                error_line(status::MACCESS@, path, status::MNOTFOUND@),
            ).overwrite(),
            ReplyView::Resolved(_) => (
                self.at(StageView::Listing { path }),
                RequestView::List { path },
            ),
            _ => self.warn(error_line(status::MACCESS@, path, cause_of(reply))).overwrite(),
        }
    }

    /// After a directory was enumerated: its entries are looked at before the
    /// ones that were waiting, in the order in which they came. A directory
    /// that cannot be enumerated is reported and left.
    pub open spec fn overwrite_dir(self, path: Seq<char>, reply: ReplyView) -> (
        ZeroView,
        RequestView,
    ) {
        match reply {
            ReplyView::Entries(entries) => (ZeroView {
                pending: self.pending + entries.reverse(),
                ..self
            }).overwrite(),
            _ => self.warn(error_line(status::MACCESS@, path, cause_of(reply))).overwrite(),
        }
    }

    /// After a file was measured: a dry run tells how many bytes would be
    /// overwritten, and any other run has that many zero bytes written.
    pub open spec fn measured(self, path: Seq<char>, reply: ReplyView) -> (ZeroView, RequestView) {
        match reply {
            ReplyView::Length(len) => if self.settings.dry_run {
                self.say(result_line(text::DRYRUN@, path, len as nat)).overwrite()
            } else {
                (self.at(StageView::Filling { path, len }), RequestView::Fill { path, len })
            },
            _ => self.warn(error_line(status::MOVERWRITE@, path, cause_of(reply))).overwrite(),
        }
    }

    /// After a file was zero-filled: a verbose run tells how many bytes were
    /// overwritten.
    pub open spec fn filled(self, path: Seq<char>, len: u64, reply: ReplyView) -> (
        ZeroView,
        RequestView,
    ) {
        match reply {
            ReplyView::Done => (if self.settings.verbose {
                self.say(result_line(text::OVERWRITE@, path, len as nat))
            } else {
                self
            }).overwrite(),
            _ => self.warn(error_line(status::MOVERWRITE@, path, cause_of(reply))).overwrite(),
        }
    }

    /// Resumes the program with the reply to its last request, and runs it
    /// up to its next request. At the start any reply will do. A reply of
    /// the wrong kind counts as a failure of what was asked for. Once the
    /// run is over, it stays over.
    pub open spec fn run(self, reply: ReplyView) -> (ZeroView, RequestView) {
        match self.stage {
            StageView::Start => self.start(),
            StageView::Help => self.shown(reply),
            StageView::Version => self.shown(reply),
            StageView::Asking { context, path } => self.answered(path, context, reply),
            StageView::Probing { path } => self.resolved(path, reply),
            StageView::Listing { path } => self.overwrite_dir(path, reply),
            StageView::Measuring { path } => self.measured(path, reply),
            StageView::Filling { path, len } => self.filled(path, len, reply),
            StageView::Finished { outcome } => (self, RequestView::Finish { outcome }),
        }
    }
}

} // verus!
