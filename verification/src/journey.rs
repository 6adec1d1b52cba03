//! What a run comes to: the program, told truthfully what lies at each of
//! its input paths and what happens to each file found, walks and sweeps one
//! input path after the other and ends well.
use vstd::prelude::*;
use crate::error::exit_code_of;
use crate::model::{StageView, ZeroView};
use crate::protocol::{effects, Files, Kind, ReplyView, RequestView};
use crate::report::error_line;
use crate::settings::SettingsView;
use crate::status;
use crate::sweep::{
    among, faithful, lemma_effects_twice, lemma_harmless, lemma_sweep, lemma_sweep_zero_fills,
};
use crate::walk::{lemma_overwrite_forgets_stage, lemma_run_each_twice, lemma_walk_forest};
use crate::world::{
    entries_of, jobs_complaints, jobs_lines, jobs_replies, jobs_requests, replies_all,
    requests_all, sweep_replies, sweep_requests, Job, Tree,
};

verus! {

impl ZeroView {
    /// The program after it has made its way to the targets of an input
    /// path, before it goes on: the files there are its targets, and what
    /// could not be reached has been reported.
    pub open spec fn probed(self, root: Tree) -> ZeroView {
        ZeroView {
            targets: root.targets(self.settings.recursive),
            stderr: self.stderr + root.probe_complaints(self.settings.recursive),
            ..self
        }
    }

    /// The program after it is through with its next input path, before it
    /// goes on: nothing is left over, and the lines of the job have been
    /// written.
    pub open spec fn travelled(self, job: Job) -> ZeroView {
        ZeroView {
            cursor: self.cursor + 1,
            stdout: self.stdout + job.lines(self.settings),
            stderr: self.stderr + job.complaints(self.settings),
            ..self
        }
    }

    /// The program at the end of a run on these jobs: every input path has
    /// been taken up, the lines of the jobs have been written, and the run
    /// has ended well.
    pub open spec fn arrived(self, jobs: Seq<Job>) -> ZeroView {
        ZeroView {
            cursor: self.settings.paths.len(),
            stdout: self.stdout + jobs_lines(jobs, self.settings),
            stderr: self.stderr + jobs_complaints(jobs, self.settings),
            stage: StageView::Finished { outcome: Ok(()) },
            ..self
        }
    }

    /// The jobs are those of the input paths that have not been taken up,
    /// one for each, in their order.
    pub open spec fn ahead(self, jobs: Seq<Job>) -> bool {
        &&& self.cursor + jobs.len() == self.settings.paths.len()
        &&& forall|i: int|
            0 <= i < jobs.len() ==> (#[trigger] jobs[i]).fits(
                self.settings.paths[self.cursor + i],
                self.settings,
            )
    }
}

/// On the walk of a tree the program asks for the entries of directories,
/// and for nothing else.
pub proof fn lemma_tree_asks_for_entries(tree: Tree, recursive: bool)
    ensures
        forall|i: int|
            0 <= i < tree.requests(recursive).len() ==> #[trigger] tree.requests(
                recursive,
            )[i] is List,
    decreases tree, 0nat,
{
    if tree.entered(recursive) {
        match tree.content {
            Ok(children) => {
                lemma_forest_asks_for_entries(children, recursive);
            },
            Err(_) => {},
        }
    }
}

/// On the walk of a directory's entries the program asks for the entries of
/// directories, and for nothing else.
pub proof fn lemma_forest_asks_for_entries(forest: Seq<Tree>, recursive: bool)
    ensures
        forall|i: int|
            0 <= i < requests_all(forest, recursive).len() ==> #[trigger] requests_all(
                forest,
                recursive,
            )[i] is List,
    decreases forest, 1nat,
{
    if forest.len() > 0 {
        lemma_tree_asks_for_entries(forest.first(), recursive);
        lemma_forest_asks_for_entries(forest.drop_first(), recursive);
    }
}

/// The way to the targets of an input path changes no file.
pub proof fn lemma_probe_changes_no_file(root: Tree, recursive: bool, files: Files)
    ensures
        effects(root.probe_requests(recursive), files) == files,
{
    match root.content {
        Ok(children) => {
            lemma_forest_asks_for_entries(children, recursive);
        },
        Err(_) => {},
    }
    lemma_harmless(root.probe_requests(recursive), files);
}

/// The way to the targets of an input path. The program has nothing left
/// over and asks what the path leads to. Told truthfully what lies there, it
/// makes a file its one target, reports a path that leads nowhere, and
/// enumerates anything else as a directory, with the directories below it if
/// the run is recursive; then it stands where it would stand had it found
/// the files at once.
pub proof fn lemma_probe(zero: ZeroView, root: Tree)
    requires
        zero.pending.len() == 0,
        zero.targets.len() == 0,
    ensures
        ({
            let recursive = zero.settings.recursive;
            let (state, request) = zero.resolve(root.entry.path);
            &&& state.run_each(request, root.probe_replies(recursive)) == zero.probed(
                root,
            ).overwrite()
            &&& state.asked_each(request, root.probe_replies(recursive)) == root.probe_requests(
                recursive,
            )
        }),
{
    let recursive = zero.settings.recursive;
    let path = root.entry.path;
    let (state, request) = zero.resolve(path);
    let probing = StageView::Probing { path };
    let listing = StageView::Listing { path };
    let replies = root.probe_replies(recursive);
    let end = zero.probed(root);
    let none = Seq::<ReplyView>::empty();
    let (after, pending) = end.overwrite();
    assert(after.run_each(pending, none) == (after, pending));
    assert(after.asked_each(pending, none) =~= Seq::<RequestView>::empty());
    assert(replies.first() == ReplyView::Resolved(root.entry.kind));
    if root.entry.kind == Kind::File || root.entry.kind == Kind::Missing {
        let told = if root.entry.kind == Kind::File {
            ZeroView { targets: state.targets.push(path), ..state }
        } else {
            state.warn(error_line(status::MACCESS@, path, status::MNOTFOUND@))
        };
        assert(state.run(replies.first()) == told.overwrite());
        assert(replies.drop_first() =~= none);
        assert(told.targets =~= end.targets);
        assert(told.stderr =~= end.stderr);
        assert(told == end.at(probing));
        lemma_overwrite_forgets_stage(end, probing);
        assert(state.run_each(request, replies) == end.overwrite());
        assert(state.asked_each(request, replies) =~= root.probe_requests(recursive));
    } else {
        let asking = state.at(listing);
        let list = RequestView::List { path };
        assert(state.run(replies.first()) == (asking, list));
        let inner = replies.drop_first();
        assert(inner.first() == root.reply());
        match root.content {
            Ok(children) => {
                let inside = ZeroView {
                    pending: asking.pending + entries_of(children).reverse(),
                    ..asking
                };
                assert(asking.run(root.reply()) == inside.overwrite());
                assert(inner.drop_first() =~= replies_all(children, recursive));
                assert(inside.pending =~= zero.pending + entries_of(children).reverse());
                lemma_walk_forest(inside, children, zero.pending);
                let there = inside.walked(children, zero.pending);
                assert(there.targets =~= end.targets);
                assert(there.stderr =~= end.stderr);
                assert(there.pending =~= end.pending);
                assert(there == end.at(listing));
                lemma_overwrite_forgets_stage(end, listing);
                assert(asking.run_each(list, inner) == end.overwrite());
                assert(state.run_each(request, replies) == end.overwrite());
                assert(asking.asked_each(list, inner) =~= seq![list] + requests_all(
                    children,
                    recursive,
                ));
                assert(state.asked_each(request, replies) =~= root.probe_requests(recursive));
            },
            Err(cause) => {
                let told = asking.warn(error_line(status::MACCESS@, path, cause));
                assert(asking.run(root.reply()) == told.overwrite());
                assert(inner.drop_first() =~= none);
                assert(told.targets =~= end.targets);
                assert(told.stderr =~= end.stderr);
                assert(told == end.at(listing));
                lemma_overwrite_forgets_stage(end, listing);
                assert(asking.run_each(list, inner) == end.overwrite());
                assert(state.run_each(request, replies) == end.overwrite());
                assert(asking.asked_each(list, inner) =~= seq![list]);
                assert(state.asked_each(request, replies) =~= root.probe_requests(recursive));
            },
        }
    }
}

/// One input path, from the first question to the last zero-fill. The
/// program has nothing left over and takes up its next input path, for
/// which it does not prompt; it does not prompt for files either. Told
/// truthfully what lies at the path and what happens to each file found, it
/// asks for exactly this: what the path leads to; the entries of the
/// directories on the walk, depth first; and of each file found, depth
/// first, its length and then, outside a dry run, the zero-fill over that
/// length. It writes the lines that belong to the walk and to the sweep,
/// and goes on to the next input path with nothing left over, whatever
/// failed on the way.
pub proof fn lemma_input_path(zero: ZeroView, job: Job)
    requires
        zero.pending.len() == 0,
        zero.targets.len() == 0,
        zero.cursor < zero.settings.paths.len(),
        job.fits(zero.settings.paths[zero.cursor as int], zero.settings),
        !zero.settings.interactive,
    ensures
        ({
            let (state, request) = zero.overwrite();
            &&& state.run_each(request, job.replies(zero.settings)) == zero.travelled(
                job,
            ).overwrite()
            &&& state.asked_each(request, job.replies(zero.settings)) == job.requests(
                zero.settings,
            )
        }),
{
    let recursive = zero.settings.recursive;
    let dry_run = zero.settings.dry_run;
    let taken = ZeroView { cursor: zero.cursor + 1, ..zero };
    let (state, request) = zero.overwrite();
    assert((state, request) == taken.resolve(job.root.entry.path));
    lemma_probe(taken, job.root);
    let middle = taken.probed(job.root);
    lemma_sweep(middle, job.visits);
    lemma_run_each_twice(
        state,
        request,
        job.root.probe_replies(recursive),
        sweep_replies(job.visits, dry_run),
    );
    let end = zero.travelled(job);
    let swept = middle.swept(job.visits);
    assert(swept.targets =~= end.targets);
    assert(swept.stdout =~= end.stdout);
    assert(swept.stderr =~= end.stderr);
    assert(swept == end);
}

/// What one input path comes to in the outside world. Under the conditions
/// of [`lemma_input_path`], and if nothing fails on the sweep and every file
/// has the length that the program was told: once everything the program
/// asked for has been carried out, every file that lies at or below the
/// path, as far as the walk reaches, has kept its length and holds zero
/// bytes only, and every other file is as it was. After a dry run every file
/// is as it was.
pub proof fn lemma_input_path_zero_fills(zero: ZeroView, job: Job, files: Files)
    requires
        zero.pending.len() == 0,
        zero.targets.len() == 0,
        zero.cursor < zero.settings.paths.len(),
        job.fits(zero.settings.paths[zero.cursor as int], zero.settings),
        !zero.settings.interactive,
        faithful(job.root.targets(zero.settings.recursive), job.visits, files),
    ensures
        ({
            let recursive = zero.settings.recursive;
            let dry_run = zero.settings.dry_run;
            let (state, request) = zero.overwrite();
            let after = effects(state.asked_each(request, job.replies(zero.settings)), files);
            &&& after.dom() == files.dom()
            &&& dry_run ==> after == files
            &&& forall|path: Seq<char>| #[trigger]
                files.dom().contains(path) ==> after[path].len() == files[path].len()
            &&& forall|path: Seq<char>, at: int|
                !dry_run && among(job.root.targets(recursive), path) && 0 <= at
                    < after[path].len() ==> #[trigger] after[path][at] == 0
            &&& forall|path: Seq<char>| #[trigger]
                files.dom().contains(path) && !among(job.root.targets(recursive), path)
                    ==> after[path] == files[path]
        }),
{
    let recursive = zero.settings.recursive;
    let dry_run = zero.settings.dry_run;
    lemma_input_path(zero, job);
    lemma_effects_twice(
        job.root.probe_requests(recursive),
        sweep_requests(job.root.targets(recursive), job.visits, dry_run),
        files,
    );
    lemma_probe_changes_no_file(job.root, recursive, files);
    lemma_sweep_zero_fills(job.root.targets(recursive), job.visits, dry_run, files);
}

/// The rest of a run. The program has nothing left over, and prompts
/// neither for the input paths that are still ahead nor for files. Told
/// truthfully what lies at each of those paths and what happens to each
/// file found, it asks, one input path after the other, for exactly what
/// the path calls for, writes the lines that belong to it, and ends the run
/// well after the last one: what fails on the way costs a line, and never
/// the run.
pub proof fn lemma_journey(zero: ZeroView, jobs: Seq<Job>)
    requires
        zero.pending.len() == 0,
        zero.targets.len() == 0,
        zero.ahead(jobs),
        !zero.settings.interactive,
    ensures
        ({
            let (state, request) = zero.overwrite();
            &&& state.run_each(request, jobs_replies(jobs, zero.settings)) == (
                zero.arrived(jobs),
                RequestView::Finish { outcome: Ok(()) },
            )
            &&& state.asked_each(request, jobs_replies(jobs, zero.settings)) == jobs_requests(
                jobs,
                zero.settings,
            )
        }),
    decreases jobs.len(),
{
    let (state, request) = zero.overwrite();
    let end = zero.arrived(jobs);
    if jobs.len() == 0 {
        assert(end.stdout =~= zero.stdout);
        assert(end.stderr =~= zero.stderr);
        assert(end == zero.at(StageView::Finished { outcome: Ok(()) }));
    } else {
        let job = jobs.first();
        let others = jobs.drop_first();
        assert(job == jobs[0]);
        lemma_input_path(zero, job);
        let middle = zero.travelled(job);
        assert forall|i: int| 0 <= i < others.len() implies (#[trigger] others[i]).fits(
            middle.settings.paths[middle.cursor + i],
            middle.settings,
        ) by {
            assert(others[i] == jobs[i + 1]);
        }
        lemma_journey(middle, others);
        lemma_run_each_twice(
            state,
            request,
            job.replies(zero.settings),
            jobs_replies(others, zero.settings),
        );
        let there = middle.arrived(others);
        assert(there.stdout =~= end.stdout);
        assert(there.stderr =~= end.stderr);
        assert(there == end);
    }
}

/// A whole run. The options ask neither for the help message nor for the
/// version, do not conflict, and do not ask for a prompt for each file; and
/// no input path is prompted for. Then the program, told truthfully what
/// lies at each input path and what happens to each file found, asks for
/// exactly what the input paths call for, one after the other, writes
/// exactly the lines that belong to them, and ends the run well, with the
/// exit code of success.
pub proof fn lemma_whole_run(settings: SettingsView, jobs: Seq<Job>, first: ReplyView)
    requires
        !settings.help,
        !settings.version,
        !settings.interactive,
        ZeroView::initial(settings).ahead(jobs),
    ensures
        ({
            let zero = ZeroView::initial(settings);
            let (state, request) = zero.run(first);
            &&& state.run_each(request, jobs_replies(jobs, settings)) == (
                zero.arrived(jobs),
                RequestView::Finish { outcome: Ok(()) },
            )
            &&& state.asked_each(request, jobs_replies(jobs, settings)) == jobs_requests(
                jobs,
                settings,
            )
            &&& zero.arrived(jobs).stdout == jobs_lines(jobs, settings)
            &&& zero.arrived(jobs).stderr == jobs_complaints(jobs, settings)
            &&& exit_code_of(Ok(())) == status::ESUCCESS
        }),
{
    let zero = ZeroView::initial(settings);
    lemma_journey(zero, jobs);
    assert(zero.arrived(jobs).stdout =~= jobs_lines(jobs, settings));
    assert(zero.arrived(jobs).stderr =~= jobs_complaints(jobs, settings));
}

} // verus!
