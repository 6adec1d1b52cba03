//! The outside world as the program meets it: what lies below a path and is
//! found there on a walk, what happens to the files on a sweep, and what the
//! program is told on its way.
use vstd::prelude::*;
use crate::protocol::{EntryView, Kind, ReplyView, RequestView};
use crate::report::{error_line, result_line};
use crate::settings::{InputPathView, SettingsView};
use crate::status;
use crate::text;

verus! {

/// What lies at a path, with everything below it.
pub ghost struct Tree {
    /// The path, and what it leads to.
    pub entry: EntryView,
    /// For a directory: the trees of its entries, in the order in which they
    /// are enumerated, or the cause for which it cannot be enumerated.
    pub content: Result<Seq<Tree>, Seq<char>>,
}

/// The entries that stand for these trees.
pub open spec fn entries_of(forest: Seq<Tree>) -> Seq<EntryView> {
    forest.map_values(|tree: Tree| tree.entry)
}

impl Tree {
    /// Whether a walk enumerates what lies at this path: it does so for a
    /// directory, if it is recursive.
    pub open spec fn entered(self, recursive: bool) -> bool {
        self.entry.kind == Kind::Directory && recursive
    }

    /// What the program is told when it asks for the entries of this
    /// directory.
    pub open spec fn reply(self) -> ReplyView {
        match self.content {
            Ok(children) => ReplyView::Entries(entries_of(children)),
            Err(cause) => ReplyView::Failed(cause),
        }
    }

    /// The files of this tree, depth first: a file is one itself, and a
    /// directory has those of its entries if the walk is recursive.
    pub open spec fn found(self, recursive: bool) -> Seq<Seq<char>>
        decreases self,
    {
        if self.entry.kind == Kind::File {
            seq![self.entry.path]
        } else if self.entered(recursive) {
            match self.content {
                Ok(children) => found_all(children, recursive),
                Err(_) => Seq::empty(),
            }
        } else {
            Seq::empty()
        }
    }

    /// The directories of this tree that a walk enumerates, depth first, as
    /// the requests for their entries.
    pub open spec fn requests(self, recursive: bool) -> Seq<RequestView>
        decreases self,
    {
        if self.entered(recursive) {
            seq![RequestView::List { path: self.entry.path }] + match self.content {
                Ok(children) => requests_all(children, recursive),
                Err(_) => Seq::empty(),
            }
        } else {
            Seq::empty()
        }
    }

    /// What the program is told on a walk of this tree, in the order in
    /// which it asks.
    pub open spec fn replies(self, recursive: bool) -> Seq<ReplyView>
        decreases self,
    {
        if self.entered(recursive) {
            seq![self.reply()] + match self.content {
                Ok(children) => replies_all(children, recursive),
                Err(_) => Seq::empty(),
            }
        } else {
            Seq::empty()
        }
    }

    /// What a walk of this tree writes to the diagnostic stream: one line
    /// for each directory that cannot be enumerated.
    pub open spec fn complaints(self, recursive: bool) -> Seq<char>
        decreases self,
    {
        if self.entered(recursive) {
            match self.content {
                Ok(children) => complaints_all(children, recursive),
                Err(cause) => error_line(status::MACCESS@, self.entry.path, cause),
            }
        } else {
            Seq::empty()
        }
    }

    /// The files that the program finds when this tree lies at an input
    /// path: a file is the one target, and anything else that exists is
    /// enumerated as a directory, whether the walk is recursive or not.
    pub open spec fn targets(self, recursive: bool) -> Seq<Seq<char>> {
        match self.entry.kind {
            Kind::File => seq![self.entry.path],
            Kind::Missing => Seq::empty(),
            _ => match self.content {
                Ok(children) => found_all(children, recursive),
                Err(_) => Seq::empty(),
            },
        }
    }

    /// What the program asks for when this tree lies at an input path: what
    /// the path leads to, then, unless that is a file or nothing, the
    /// entries there and those of the directories below.
    pub open spec fn probe_requests(self, recursive: bool) -> Seq<RequestView> {
        seq![RequestView::Probe { path: self.entry.path }] + match self.entry.kind {
            Kind::File => Seq::empty(),
            Kind::Missing => Seq::empty(),
            _ => seq![RequestView::List { path: self.entry.path }] + match self.content {
                Ok(children) => requests_all(children, recursive),
                Err(_) => Seq::empty(),
            },
        }
    }

    /// What the program is told when this tree lies at an input path, in
    /// the order in which it asks.
    pub open spec fn probe_replies(self, recursive: bool) -> Seq<ReplyView> {
        seq![ReplyView::Resolved(self.entry.kind)] + match self.entry.kind {
            Kind::File => Seq::empty(),
            Kind::Missing => Seq::empty(),
            _ => seq![self.reply()] + match self.content {
                Ok(children) => replies_all(children, recursive),
                Err(_) => Seq::empty(),
            },
        }
    }

    /// What is written to the diagnostic stream when this tree lies at an
    /// input path: one line if nothing is there, and else one line for each
    /// directory that cannot be enumerated.
    pub open spec fn probe_complaints(self, recursive: bool) -> Seq<char> {
        match self.entry.kind {
            Kind::File => Seq::empty(),
            Kind::Missing => error_line(status::MACCESS@, self.entry.path, status::MNOTFOUND@),
            _ => match self.content {
                Ok(children) => complaints_all(children, recursive),
                Err(cause) => error_line(status::MACCESS@, self.entry.path, cause),
            },
        }
    }
}

/// The files of these trees, one tree after the other.
pub open spec fn found_all(forest: Seq<Tree>, recursive: bool) -> Seq<Seq<char>>
    decreases forest,
{
    if forest.len() == 0 {
        Seq::empty()
    } else {
        forest.first().found(recursive) + found_all(forest.drop_first(), recursive)
    }
}

/// The requests for the directories of these trees, one tree after the
/// other.
pub open spec fn requests_all(forest: Seq<Tree>, recursive: bool) -> Seq<RequestView>
    decreases forest,
{
    if forest.len() == 0 {
        Seq::empty()
    } else {
        forest.first().requests(recursive) + requests_all(forest.drop_first(), recursive)
    }
}

/// What the program is told on a walk of these trees, one tree after the
/// other.
pub open spec fn replies_all(forest: Seq<Tree>, recursive: bool) -> Seq<ReplyView>
    decreases forest,
{
    if forest.len() == 0 {
        Seq::empty()
    } else {
        forest.first().replies(recursive) + replies_all(forest.drop_first(), recursive)
    }
}

/// What a walk of these trees writes to the diagnostic stream, one tree
/// after the other.
pub open spec fn complaints_all(forest: Seq<Tree>, recursive: bool) -> Seq<char>
    decreases forest,
{
    if forest.len() == 0 {
        Seq::empty()
    } else {
        forest.first().complaints(recursive) + complaints_all(forest.drop_first(), recursive)
    }
}

/// What happens to a target when it is measured and zero-filled.
pub ghost enum Visit {
    /// Its length cannot be read, for the cause given.
    Unmeasured { cause: Seq<char> },
    /// It has this length, and cannot be zero-filled, for the cause given.
    Unfilled { len: u64, cause: Seq<char> },
    /// It has this length, and is zero-filled.
    Filled { len: u64 },
}

impl Visit {
    /// What the program is told of the target, in the order in which it
    /// asks. A dry run asks for the length only.
    pub open spec fn replies(self, dry_run: bool) -> Seq<ReplyView> {
        match self {
            Visit::Unmeasured { cause } => seq![ReplyView::Failed(cause)],
            Visit::Unfilled { len, cause } => if dry_run {
                seq![ReplyView::Length(len)]
            } else {
                seq![ReplyView::Length(len), ReplyView::Failed(cause)]
            },
            Visit::Filled { len } => if dry_run {
                seq![ReplyView::Length(len)]
            } else {
                seq![ReplyView::Length(len), ReplyView::Done]
            },
        }
    }

    /// What is asked for of the target: its length and, outside a dry run
    /// and once the length is known, the zero-fill over that length.
    pub open spec fn requests(self, path: Seq<char>, dry_run: bool) -> Seq<RequestView> {
        match self {
            Visit::Unmeasured { .. } => seq![RequestView::Measure { path }],
            Visit::Unfilled { len, .. } => if dry_run {
                seq![RequestView::Measure { path }]
            } else {
                seq![RequestView::Measure { path }, RequestView::Fill { path, len }]
            },
            Visit::Filled { len } => if dry_run {
                seq![RequestView::Measure { path }]
            } else {
                seq![RequestView::Measure { path }, RequestView::Fill { path, len }]
            },
        }
    }

    /// What is written of the target to the output stream: a dry run tells
    /// what would be overwritten, a verbose run what was overwritten, and
    /// any other run nothing.
    pub open spec fn lines(self, path: Seq<char>, dry_run: bool, verbose: bool) -> Seq<char> {
        match self {
            Visit::Unmeasured { .. } => Seq::empty(),
            Visit::Unfilled { len, .. } => if dry_run {
                result_line(text::DRYRUN@, path, len as nat)
            } else {
                Seq::empty()
            },
            Visit::Filled { len } => if dry_run {
                result_line(text::DRYRUN@, path, len as nat)
            } else if verbose {
                result_line(text::OVERWRITE@, path, len as nat)
            } else {
                Seq::empty()
            },
        }
    }

    /// What is written of the target to the diagnostic stream: one line if
    /// it could not be measured or not be zero-filled.
    pub open spec fn complaints(self, path: Seq<char>, dry_run: bool) -> Seq<char> {
        match self {
            Visit::Unmeasured { cause } => error_line(status::MOVERWRITE@, path, cause),
            Visit::Unfilled { cause, .. } => if dry_run {
                Seq::empty()
            } else {
                error_line(status::MOVERWRITE@, path, cause)
            },
            Visit::Filled { .. } => Seq::empty(),
        }
    }
}

/// What the program is told when the targets are measured and zero-filled
/// in turn.
pub open spec fn sweep_replies(visits: Seq<Visit>, dry_run: bool) -> Seq<ReplyView>
    decreases visits.len(),
{
    if visits.len() == 0 {
        Seq::empty()
    } else {
        visits.first().replies(dry_run) + sweep_replies(visits.drop_first(), dry_run)
    }
}

/// What is asked for when the targets are measured and zero-filled in turn.
pub open spec fn sweep_requests(targets: Seq<Seq<char>>, visits: Seq<Visit>, dry_run: bool) -> Seq<
    RequestView,
>
    recommends
        targets.len() == visits.len(),
    decreases visits.len(),
{
    if visits.len() == 0 {
        Seq::empty()
    } else {
        visits.first().requests(targets.first(), dry_run) + sweep_requests(
            targets.drop_first(),
            visits.drop_first(),
            dry_run,
        )
    }
}

/// What is written to the output stream when the targets are measured and
/// zero-filled in turn.
pub open spec fn sweep_lines(
    targets: Seq<Seq<char>>,
    visits: Seq<Visit>,
    dry_run: bool,
    verbose: bool,
) -> Seq<char>
    recommends
        targets.len() == visits.len(),
    decreases visits.len(),
{
    if visits.len() == 0 {
        Seq::empty()
    } else {
        visits.first().lines(targets.first(), dry_run, verbose) + sweep_lines(
            targets.drop_first(),
            visits.drop_first(),
            dry_run,
            verbose,
        )
    }
}

/// What is written to the diagnostic stream when the targets are measured
/// and zero-filled in turn.
pub open spec fn sweep_complaints(targets: Seq<Seq<char>>, visits: Seq<Visit>, dry_run: bool) -> Seq<
    char,
>
    recommends
        targets.len() == visits.len(),
    decreases visits.len(),
{
    if visits.len() == 0 {
        Seq::empty()
    } else {
        visits.first().complaints(targets.first(), dry_run) + sweep_complaints(
            targets.drop_first(),
            visits.drop_first(),
            dry_run,
        )
    }
}

/// What an input path has in store for the program: what lies there, and
/// what happens to each file found there.
pub ghost struct Job {
    /// What lies at the path.
    pub root: Tree,
    /// What happens to the files found, in the order in which they are
    /// found.
    pub visits: Seq<Visit>,
}

impl Job {
    /// The job belongs to the input path, for which the program does not
    /// prompt, and tells of each file found what happens to it.
    pub open spec fn fits(self, path: InputPathView, settings: SettingsView) -> bool {
        &&& self.root.entry.path == path.text
        &&& settings.suppress || !path.rooted
        &&& self.visits.len() == self.root.targets(settings.recursive).len()
    }

    /// What the program is told on the job, in the order in which it asks.
    pub open spec fn replies(self, settings: SettingsView) -> Seq<ReplyView> {
        self.root.probe_replies(settings.recursive) + sweep_replies(self.visits, settings.dry_run)
    }

    /// What the program asks for on the job: what the path leads to, the
    /// entries of the directories on the walk, and of each file found its
    /// length and its zero-fill.
    pub open spec fn requests(self, settings: SettingsView) -> Seq<RequestView> {
        self.root.probe_requests(settings.recursive) + sweep_requests(
            self.root.targets(settings.recursive),
            self.visits,
            settings.dry_run,
        )
    }

    /// What the job writes to the output stream.
    pub open spec fn lines(self, settings: SettingsView) -> Seq<char> {
        sweep_lines(
            self.root.targets(settings.recursive),
            self.visits,
            settings.dry_run,
            settings.verbose,
        )
    }

    /// What the job writes to the diagnostic stream: first what the walk
    /// has to complain of, then the sweep.
    pub open spec fn complaints(self, settings: SettingsView) -> Seq<char> {
        self.root.probe_complaints(settings.recursive) + sweep_complaints(
            self.root.targets(settings.recursive),
            self.visits,
            settings.dry_run,
        )
    }
}

/// What the program is told on these jobs, one job after the other.
pub open spec fn jobs_replies(jobs: Seq<Job>, settings: SettingsView) -> Seq<ReplyView>
    decreases jobs.len(),
{
    if jobs.len() == 0 {
        Seq::empty()
    } else {
        jobs.first().replies(settings) + jobs_replies(jobs.drop_first(), settings)
    }
}

/// What the program asks for on these jobs, one job after the other.
pub open spec fn jobs_requests(jobs: Seq<Job>, settings: SettingsView) -> Seq<RequestView>
    decreases jobs.len(),
{
    if jobs.len() == 0 {
        Seq::empty()
    } else {
        jobs.first().requests(settings) + jobs_requests(jobs.drop_first(), settings)
    }
}

/// What these jobs write to the output stream, one job after the other.
pub open spec fn jobs_lines(jobs: Seq<Job>, settings: SettingsView) -> Seq<char>
    decreases jobs.len(),
{
    if jobs.len() == 0 {
        Seq::empty()
    } else {
        jobs.first().lines(settings) + jobs_lines(jobs.drop_first(), settings)
    }
}

/// What these jobs write to the diagnostic stream, one job after the other.
pub open spec fn jobs_complaints(jobs: Seq<Job>, settings: SettingsView) -> Seq<char>
    decreases jobs.len(),
{
    if jobs.len() == 0 {
        Seq::empty()
    } else {
        jobs.first().complaints(settings) + jobs_complaints(jobs.drop_first(), settings)
    }
}

} // verus!
