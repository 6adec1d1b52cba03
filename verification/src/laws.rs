//! What holds of every run of the program.
use vstd::prelude::*;
use crate::error::{exit_code_of, ErrorView};
use crate::model::{cause_of, StageView, ZeroView};
use crate::settings::SettingsView;
use crate::prompt::{answer_of, prompt_text, Answer, Context};
use crate::protocol::{zero_filled, Files, Kind, ReplyView, RequestView};
use crate::report::{error_line, failure_line, result_line};
use crate::status;
use crate::text;

verus! {

impl ZeroView {
    /// What holds of the program between two requests: it has taken up no
    /// more input paths than there are; it asks about an input path only
    /// while nothing is left over from the one before; and it turns to the
    /// files found only when no entry is left to look at.
    pub open spec fn wf(self) -> bool {
        &&& self.cursor <= self.settings.paths.len()
        &&& match self.stage {
            StageView::Start => self.cursor == 0 && self.pending.len() == 0 && self.targets.len()
                == 0,
            StageView::Probing { .. } => self.pending.len() == 0 && self.targets.len() == 0,
            StageView::Asking { context, .. } => self.pending.len() == 0 && (context
                == Context::Absolute ==> self.targets.len() == 0),
            StageView::Measuring { .. } => self.pending.len() == 0,
            StageView::Filling { .. } => self.pending.len() == 0,
            _ => true,
        }
    }

    /// The program after it has been given these replies, one after the
    /// other.
    pub open spec fn run_all(self, replies: Seq<ReplyView>) -> ZeroView
        decreases replies.len(),
    {
        if replies.len() == 0 {
            self
        } else {
            self.run(replies.first()).0.run_all(replies.drop_first())
        }
    }

    /// The content of the files after the program has been given these
    /// replies, one after the other, and each of its requests has been
    /// carried out.
    pub open spec fn files_after(self, replies: Seq<ReplyView>, files: Files) -> Files
        decreases replies.len(),
    {
        if replies.len() == 0 {
            files
        } else {
            let (next, request) = self.run(replies.first());
            next.files_after(replies.drop_first(), request.effect(files))
        }
    }
}

/// Going on with whatever is next keeps the options, writes nothing to the
/// output stream, reads no input, never asks for a zero-fill, and leaves the
/// program well-formed.
pub proof fn lemma_overwrite(zero: ZeroView)
    ensures
        zero.overwrite().0.settings == zero.settings,
        zero.overwrite().0.stdout == zero.stdout,
        zero.overwrite().0.stdin == zero.stdin,
        !(zero.overwrite().1 is Fill),
        zero.cursor <= zero.settings.paths.len() ==> zero.overwrite().0.wf(),
    decreases zero.pending.len(),
{
    if zero.pending.len() > 0 {
        let entry = zero.pending.last();
        let rest = ZeroView { pending: zero.pending.drop_last(), ..zero };
        if entry.kind == Kind::File {
            lemma_overwrite(ZeroView { targets: rest.targets.push(entry.path), ..rest });
        } else if entry.kind == Kind::Directory && zero.settings.recursive {
        } else {
            lemma_overwrite(rest);
        }
    }
}

/// Without the `recursive` option, no directory found under an input path
/// is enumerated: going on with whatever is next never asks for the entries
/// of a directory.
pub proof fn lemma_flat_run_descends_nowhere(zero: ZeroView)
    requires
        !zero.settings.recursive,
    ensures
        !(zero.overwrite().1 is List),
    decreases zero.pending.len(),
{
    if zero.pending.len() > 0 {
        let entry = zero.pending.last();
        let rest = ZeroView { pending: zero.pending.drop_last(), ..zero };
        if entry.kind == Kind::File {
            lemma_flat_run_descends_nowhere(
                ZeroView { targets: rest.targets.push(entry.path), ..rest },
            );
        } else {
            lemma_flat_run_descends_nowhere(rest);
        }
    }
}

/// The program is well-formed before its run, and stays so with every
/// reply.
pub proof fn lemma_well_formed(zero: ZeroView, reply: ReplyView)
    ensures
        ZeroView::initial(zero.settings).wf(),
        zero.wf() ==> zero.run(reply).0.wf(),
{
    if zero.wf() {
        lemma_run(zero, reply);
    }
}

/// A reply never changes the options, and a zero-fill is asked for only of
/// a file that was just measured, outside a dry run, and for as many bytes
/// as were measured.
pub proof fn lemma_run(zero: ZeroView, reply: ReplyView)
    ensures
        zero.run(reply).0.settings == zero.settings,
        zero.wf() ==> zero.run(reply).0.wf(),
        zero.run(reply).1 is Fill ==> !zero.settings.dry_run && zero.stage is Measuring && reply
            == ReplyView::Length(zero.run(reply).1->Fill_len) && zero.run(reply).1->Fill_path
            == zero.stage->Measuring_path,
{
    match zero.stage {
        StageView::Start => {
            lemma_overwrite(zero);
        },
        StageView::Help => {},
        StageView::Version => {},
        StageView::Asking { context, path } => {
            lemma_overwrite(zero.skipped());
            let rest = ZeroView { stdin: zero.stdin.drop_first(), ..zero };
            lemma_overwrite(rest.skipped());
        },
        StageView::Probing { path } => {
            lemma_overwrite(ZeroView { targets: zero.targets.push(path), ..zero });
            lemma_overwrite(zero.warn(error_line(status::MACCESS@, path, status::MNOTFOUND@)));
            lemma_overwrite(
                zero.warn(error_line(status::MACCESS@, path, cause_of(reply))),
            );
        },
        StageView::Listing { path } => {
            if let ReplyView::Entries(entries) = reply {
                lemma_overwrite(ZeroView { pending: zero.pending + entries.reverse(), ..zero });
            }
            lemma_overwrite(
                zero.warn(error_line(status::MACCESS@, path, cause_of(reply))),
            );
        },
        StageView::Measuring { path } => {
            if let ReplyView::Length(len) = reply {
                lemma_overwrite(zero.say(result_line(text::DRYRUN@, path, len as nat)));
            }
            lemma_overwrite(
                zero.warn(error_line(status::MOVERWRITE@, path, cause_of(reply))),
            );
        },
        StageView::Filling { path, len } => {
            lemma_overwrite(zero);
            lemma_overwrite(zero.say(result_line(text::OVERWRITE@, path, len as nat)));
            lemma_overwrite(
                zero.warn(error_line(status::MOVERWRITE@, path, cause_of(reply))),
            );
        },
        StageView::Finished { outcome } => {},
    }
}

/// A dry run changes no file: whatever the replies, the content of every
/// file stays as it was.
pub proof fn lemma_dry_run_changes_no_file(zero: ZeroView, replies: Seq<ReplyView>, files: Files)
    requires
        zero.settings.dry_run,
    ensures
        zero.files_after(replies, files) == files,
    decreases replies.len(),
{
    if replies.len() > 0 {
        lemma_run(zero, replies.first());
        lemma_dry_run_changes_no_file(zero.run(replies.first()).0, replies.drop_first(), files);
    }
}

/// A dry run reports the length that the file was measured to have: the one
/// line written to the output stream tells that many bytes, and no request
/// for a zero-fill follows.
pub proof fn lemma_dry_run_reports_length(zero: ZeroView, path: Seq<char>, len: u64)
    requires
        zero.settings.dry_run,
        zero.stage == (StageView::Measuring { path }),
    ensures
        zero.run(ReplyView::Length(len)).0.stdout == zero.stdout + result_line(
            text::DRYRUN@,
            path,
            len as nat,
        ),
        !(zero.run(ReplyView::Length(len)).1 is Fill),
{
    lemma_overwrite(zero.say(result_line(text::DRYRUN@, path, len as nat)));
}

/// Zero-filling a file over its whole length keeps the length and leaves
/// every byte zero.
pub proof fn lemma_zero_filled(content: Seq<u8>)
    ensures
        zero_filled(content, content.len()).len() == content.len(),
        forall|i: int|
            0 <= i < content.len() ==> #[trigger] zero_filled(content, content.len())[i] == 0,
{
}

/// Outside a dry run, a file that was measured is zero-filled over the
/// length measured, and so, if that is its length, keeps its length and
/// holds zero bytes only. No other file changes. Nothing is written before
/// the zero-fill is done.
pub proof fn lemma_overwrite_zero_fills(zero: ZeroView, path: Seq<char>, files: Files)
    requires
        !zero.settings.dry_run,
        zero.stage == (StageView::Measuring { path }),
        files.dom().contains(path),
        files[path].len() <= u64::MAX,
    ensures
        ({
            let len = files[path].len() as u64;
            let (next, request) = zero.run(ReplyView::Length(len));
            let after = request.effect(files);
            &&& request == (RequestView::Fill { path, len })
            &&& next == zero.at(StageView::Filling { path, len })
            &&& after.dom() == files.dom()
            &&& after[path].len() == len
            &&& forall|i: int| 0 <= i < len ==> #[trigger] after[path][i] == 0
            &&& forall|other: Seq<char>|
                files.dom().contains(other) && other != path ==> #[trigger] after[other]
                    == files[other]
        }),
{
    let len = files[path].len() as u64;
    let (next, request) = zero.run(ReplyView::Length(len));
    let after = request.effect(files);
    lemma_zero_filled(files[path]);
    assert(after.dom() =~= files.dom());
}

/// Once a file has been zero-filled, a verbose run tells how many bytes
/// were overwritten, in one line on the output stream, and any other run
/// writes nothing there.
pub proof fn lemma_overwrite_reports_when_verbose(zero: ZeroView, path: Seq<char>, len: u64)
    requires
        zero.stage == (StageView::Filling { path, len }),
    ensures
        zero.run(ReplyView::Done).0.stdout == if zero.settings.verbose {
            zero.stdout + result_line(text::OVERWRITE@, path, len as nat)
        } else {
            zero.stdout
        },
{
    lemma_overwrite(zero);
    lemma_overwrite(zero.say(result_line(text::OVERWRITE@, path, len as nat)));
}

/// Once the run is over it stays over: no file changes any more.
pub proof fn lemma_finished_changes_no_file(zero: ZeroView, replies: Seq<ReplyView>, files: Files)
    requires
        zero.stage is Finished,
    ensures
        zero.files_after(replies, files) == files,
        zero.run_all(replies) == zero,
    decreases replies.len(),
{
    if replies.len() > 0 {
        lemma_finished_changes_no_file(zero, replies.drop_first(), files);
    }
}

/// With both `interactive` and `suppress`, and neither `help` nor
/// `version`, the run ends at once with the exit code of a usage error: the
/// conflict is told on the diagnostic stream, nothing is written to the
/// output stream, and no file changes, whatever follows.
pub proof fn lemma_conflict_touches_nothing(
    settings: SettingsView,
    replies: Seq<ReplyView>,
    files: Files,
)
    requires
        settings.interactive && settings.suppress,
        !settings.help && !settings.version,
        replies.len() > 0,
    ensures
        ({
            let zero = ZeroView::initial(settings);
            let (next, request) = zero.run(replies.first());
            &&& request == (RequestView::Finish { outcome: Err(ErrorView::Conflict) })
            &&& exit_code_of(Err(ErrorView::Conflict)) == status::EUSAGE
            &&& status::EUSAGE == 1
            &&& next.stdout == Seq::<char>::empty()
            &&& next.stderr == failure_line(ErrorView::Conflict.message())
            &&& zero.files_after(replies, files) == files
        }),
{
    let zero = ZeroView::initial(settings);
    let (next, request) = zero.run(replies.first());
    assert(next.stderr =~= failure_line(ErrorView::Conflict.message()));
    lemma_finished_changes_no_file(next, replies.drop_first(), files);
}

/// Declining the prompt for a rooted input path leaves the path: nothing is
/// asked about it, nothing of it is left to look at or to overwrite, and
/// the program turns to the next input path, or ends the run after the last
/// one. The end of the input declines as `n` does.
pub proof fn lemma_decline_leaves_path(zero: ZeroView, path: Seq<char>, files: Files)
    requires
        zero.wf(),
        zero.stage == (StageView::Asking { context: Context::Absolute, path }),
        zero.stdin.len() == 0 || answer_of(zero.stdin.first()) == Answer::No,
    ensures
        ({
            let rest = if zero.stdin.len() == 0 {
                zero
            } else {
                ZeroView { stdin: zero.stdin.drop_first(), ..zero }
            };
            let (next, request) = zero.run(ReplyView::Done);
            &&& next.pending.len() == 0
            &&& next.targets.len() == 0
            &&& request.effect(files) == files
            &&& (next, request) == if zero.cursor < zero.settings.paths.len() {
                let following = zero.settings.paths[zero.cursor as int];
                (ZeroView { cursor: zero.cursor + 1, ..rest.skipped() }).enter(
                    following.text,
                    following.rooted,
                )
            } else {
                rest.skipped().finish(Ok(()))
            }
        }),
{
    let rest = if zero.stdin.len() == 0 {
        zero
    } else {
        ZeroView { stdin: zero.stdin.drop_first(), ..zero }
    };
    lemma_overwrite(rest.skipped());
}

/// Accepting the prompt for a rooted input path goes on as if there had
/// been no prompt: the program does with the path what it does with one
/// that is not rooted.
pub proof fn lemma_accept_proceeds(zero: ZeroView, path: Seq<char>)
    requires
        zero.stage == (StageView::Asking { context: Context::Absolute, path }),
        zero.stdin.len() > 0,
        answer_of(zero.stdin.first()) == Answer::Yes,
    ensures
        zero.run(ReplyView::Done) == (ZeroView { stdin: zero.stdin.drop_first(), ..zero }).enter(
            path,
            false,
        ),
        zero.run(ReplyView::Done).1 == (RequestView::Probe { path }),
{
}

/// Declining the prompt for a file leaves the file: neither its length nor
/// its zero-fill is asked for, no error is written, and the program turns
/// to whatever is next. The end of the input declines as `n` does.
pub proof fn lemma_decline_skips_file(zero: ZeroView, path: Seq<char>, files: Files)
    requires
        zero.stage == (StageView::Asking { context: Context::Interactive, path }),
        zero.stdin.len() == 0 || answer_of(zero.stdin.first()) == Answer::No,
    ensures
        ({
            let rest = if zero.stdin.len() == 0 {
                zero
            } else {
                ZeroView { stdin: zero.stdin.drop_first(), ..zero }
            };
            let (next, request) = zero.run(ReplyView::Done);
            &&& (next, request) == rest.skipped().overwrite()
            &&& request.effect(files) == files
            &&& next.stdout == zero.stdout
        }),
{
    let rest = if zero.stdin.len() == 0 {
        zero
    } else {
        ZeroView { stdin: zero.stdin.drop_first(), ..zero }
    };
    lemma_overwrite(rest.skipped());
}

/// Accepting the prompt for a file goes on as if there had been no prompt:
/// the length of the file is asked for.
pub proof fn lemma_accept_measures_file(zero: ZeroView, path: Seq<char>)
    requires
        zero.stage == (StageView::Asking { context: Context::Interactive, path }),
        zero.stdin.len() > 0,
        answer_of(zero.stdin.first()) == Answer::Yes,
    ensures
        zero.run(ReplyView::Done) == (ZeroView { stdin: zero.stdin.drop_first(), ..zero }).measure(
            path,
        ),
        zero.run(ReplyView::Done).1 == (RequestView::Measure { path }),
{
}

/// If the input stream fails while the program waits for an answer, the run
/// ends with that error: the cause is told on the diagnostic stream, and no
/// file changes any more, whatever follows.
pub proof fn lemma_input_failure_ends_run(
    zero: ZeroView,
    cause: Seq<char>,
    replies: Seq<ReplyView>,
    files: Files,
)
    requires
        zero.stage is Asking,
    ensures
        ({
            let (next, request) = zero.run(ReplyView::Failed(cause));
            &&& request == (RequestView::Finish { outcome: Err(ErrorView::Io(cause)) })
            &&& exit_code_of(Err(ErrorView::Io(cause))) == status::EUSAGE
            &&& next.stderr == zero.stderr + failure_line(cause)
            &&& next.stdout == zero.stdout
            &&& request.effect(files) == files
            &&& next.files_after(replies, files) == files
        }),
{
    let (next, request) = zero.run(ReplyView::Failed(cause));
    lemma_finished_changes_no_file(next, replies, files);
}

/// An answer that is neither `y` nor `n` brings the same prompt again, and
/// nothing else happens.
pub proof fn lemma_unclear_answer_prompts_again(zero: ZeroView, path: Seq<char>, context: Context)
    requires
        zero.stage == (StageView::Asking { context, path }),
        zero.stdin.len() > 0,
        answer_of(zero.stdin.first()) == Answer::Unclear,
    ensures
        zero.run(ReplyView::Done) == (
            ZeroView {
                stdin: zero.stdin.drop_first(),
                stderr: zero.stderr + prompt_text(path, context),
                ..zero
            },
            RequestView::Read,
        ),
{
}

/// An input path that does not exist gets one line on the diagnostic
/// stream, which names it and says that it was not found; then the program
/// turns to the next input path, or ends the run well after the last one.
pub proof fn lemma_missing_path_is_reported(zero: ZeroView, path: Seq<char>)
    requires
        zero.wf(),
        zero.stage == (StageView::Probing { path }),
    ensures
        ({
            let told = zero.warn(error_line(status::MACCESS@, path, status::MNOTFOUND@));
            zero.run(ReplyView::Resolved(Kind::Missing)) == if zero.cursor
                < zero.settings.paths.len() {
                let following = zero.settings.paths[zero.cursor as int];
                (ZeroView { cursor: zero.cursor + 1, ..told }).enter(
                    following.text,
                    following.rooted,
                )
            } else {
                told.finish(Ok(()))
            }
        }),
{
}

} // verus!
