//! What a sweep comes to: the program, told what happens to each file found,
//! measures and zero-fills one after the other.
use vstd::prelude::*;
use crate::model::{StageView, ZeroView};
use crate::protocol::{effects, zero_filled, Files, ReplyView, RequestView};
use crate::report::{error_line, result_line};
use crate::status;
use crate::text;
use crate::walk::{lemma_overwrite_forgets_stage, lemma_run_each_twice};
use crate::world::{sweep_complaints, sweep_lines, sweep_replies, sweep_requests, Visit};

verus! {

impl ZeroView {
    /// The program after it is through with one target, before it goes on:
    /// the lines that belong to the target have been written.
    pub open spec fn visited(self, path: Seq<char>, visit: Visit) -> ZeroView {
        ZeroView {
            stdout: self.stdout + visit.lines(path, self.settings.dry_run, self.settings.verbose),
            stderr: self.stderr + visit.complaints(path, self.settings.dry_run),
            ..self
        }
    }

    /// The program after a sweep over its targets, before it goes on: no
    /// target is left, and the lines of the sweep have been written.
    pub open spec fn swept(self, visits: Seq<Visit>) -> ZeroView {
        ZeroView {
            targets: Seq::empty(),
            stdout: self.stdout + sweep_lines(
                self.targets,
                visits,
                self.settings.dry_run,
                self.settings.verbose,
            ),
            stderr: self.stderr + sweep_complaints(self.targets, visits, self.settings.dry_run),
            ..self
        }
    }
}

/// One target. The program has asked for the length of a file. Told what
/// happens to the file, it asks for the zero-fill over exactly the length
/// it was told, unless the run is a dry run or the length could not be read;
/// it writes the line that belongs to the file, a failure on the diagnostic
/// stream and a result on the output stream; and it goes on.
pub proof fn lemma_visit(zero: ZeroView, path: Seq<char>, visit: Visit)
    requires
        zero.stage == (StageView::Measuring { path }),
    ensures
        ({
            let dry_run = zero.settings.dry_run;
            let request = RequestView::Measure { path };
            &&& zero.run_each(request, visit.replies(dry_run)) == zero.visited(
                path,
                visit,
            ).overwrite()
            &&& zero.asked_each(request, visit.replies(dry_run)) == visit.requests(path, dry_run)
        }),
{
    let dry_run = zero.settings.dry_run;
    let verbose = zero.settings.verbose;
    let request = RequestView::Measure { path };
    let replies = visit.replies(dry_run);
    let end = zero.visited(path, visit);
    let none = Seq::<ReplyView>::empty();
    let (after, pending) = end.overwrite();
    assert(after.run_each(pending, none) == (after, pending));
    assert(after.asked_each(pending, none) =~= Seq::<RequestView>::empty());
    match visit {
        Visit::Unmeasured { cause } => {
            let told = zero.warn(error_line(status::MOVERWRITE@, path, cause));
            assert(told.stdout =~= end.stdout);
            assert(told == end);
            assert(replies.drop_first() =~= none);
            assert(zero.asked_each(request, replies) =~= visit.requests(path, dry_run));
        },
        _ => {
            let len = match visit {
                Visit::Unfilled { len, .. } => len,
                Visit::Filled { len } => len,
                _ => 0,
            };
            assert(replies.first() == ReplyView::Length(len));
            if dry_run {
                let told = zero.say(result_line(text::DRYRUN@, path, len as nat));
                assert(told.stderr =~= end.stderr);
                assert(told == end);
                assert(replies.drop_first() =~= none);
                assert(zero.asked_each(request, replies) =~= visit.requests(path, dry_run));
            } else {
                let filling = StageView::Filling { path, len };
                let asked = zero.at(filling);
                let fill = RequestView::Fill { path, len };
                assert(zero.run(ReplyView::Length(len)) == (asked, fill));
                let second = replies.drop_first();
                assert(second.len() == 1);
                assert(second.drop_first() =~= none);
                let told = match visit {
                    Visit::Unfilled { cause, .. } => asked.warn(
                        error_line(status::MOVERWRITE@, path, cause),
                    ),
                    _ => if verbose {
                        asked.say(result_line(text::OVERWRITE@, path, len as nat))
                    } else {
                        asked
                    },
                };
                assert(asked.run(second.first()) == told.overwrite());
                assert(told.stdout =~= end.stdout);
                assert(told.stderr =~= end.stderr);
                assert(told == end.at(filling));
                lemma_overwrite_forgets_stage(end, filling);
                assert(asked.run_each(fill, second) == (after, pending));
                assert(asked.asked_each(fill, second) =~= seq![fill]);
                assert(zero.asked_each(request, replies) =~= visit.requests(path, dry_run));
            }
        },
    }
}

/// The sweep over the targets. The program has no entry left to look at and
/// does not prompt for files. Told what happens to each target, it asks of
/// each target in turn for its length and then for the zero-fill over
/// exactly that length, writes the lines that belong to the targets, and
/// goes on with no target left. A target that cannot be measured or cannot
/// be zero-filled costs one line, and the next target is taken up. During a
/// dry run no zero-fill is asked for.
pub proof fn lemma_sweep(zero: ZeroView, visits: Seq<Visit>)
    requires
        zero.pending.len() == 0,
        !zero.settings.interactive,
        visits.len() == zero.targets.len(),
    ensures
        ({
            let dry_run = zero.settings.dry_run;
            let (state, request) = zero.overwrite();
            &&& state.run_each(request, sweep_replies(visits, dry_run)) == zero.swept(
                visits,
            ).overwrite()
            &&& state.asked_each(request, sweep_replies(visits, dry_run)) == sweep_requests(
                zero.targets,
                visits,
                dry_run,
            )
        }),
    decreases visits.len(),
{
    let dry_run = zero.settings.dry_run;
    let (state, request) = zero.overwrite();
    let end = zero.swept(visits);
    if visits.len() == 0 {
        assert(end.targets =~= zero.targets);
        assert(end.stdout =~= zero.stdout);
        assert(end.stderr =~= zero.stderr);
        assert(end == zero);
    } else {
        let path = zero.targets.first();
        let visit = visits.first();
        let measuring = StageView::Measuring { path };
        let rest = ZeroView { targets: zero.targets.drop_first(), ..zero };
        assert(state == rest.at(measuring));
        lemma_visit(state, path, visit);
        let told = state.visited(path, visit);
        lemma_sweep(told, visits.drop_first());
        lemma_run_each_twice(
            state,
            request,
            visit.replies(dry_run),
            sweep_replies(visits.drop_first(), dry_run),
        );
        let there = told.swept(visits.drop_first());
        assert(there.stdout =~= end.stdout);
        assert(there.stderr =~= end.stderr);
        assert(there.targets =~= end.targets);
        assert(there == end.at(measuring));
        lemma_overwrite_forgets_stage(end, measuring);
    }
}

/// Requests carried out in two runs have the effect of the requests
/// carried out in one.
pub proof fn lemma_effects_twice(first: Seq<RequestView>, second: Seq<RequestView>, files: Files)
    ensures
        effects(first + second, files) == effects(second, effects(first, files)),
    decreases first.len(),
{
    if first.len() == 0 {
        assert(first + second =~= second);
    } else {
        assert((first + second).first() == first.first());
        assert((first + second).drop_first() =~= first.drop_first() + second);
        lemma_effects_twice(first.drop_first(), second, first.first().effect(files));
    }
}

/// Requests among which there is no zero-fill change no file.
pub proof fn lemma_harmless(requests: Seq<RequestView>, files: Files)
    requires
        forall|i: int| 0 <= i < requests.len() ==> !(#[trigger] requests[i] is Fill),
    ensures
        effects(requests, files) == files,
    decreases requests.len(),
{
    if requests.len() > 0 {
        assert(!(requests[0] is Fill));
        assert forall|i: int| 0 <= i < requests.drop_first().len() implies !(
        #[trigger] requests.drop_first()[i] is Fill) by {
            assert(requests.drop_first()[i] == requests[i + 1]);
        }
        lemma_harmless(requests.drop_first(), files);
    }
}

/// Whether a path is among the targets.
pub open spec fn among(targets: Seq<Seq<char>>, path: Seq<char>) -> bool {
    exists|i: int| 0 <= i < targets.len() && #[trigger] targets[i] == path
}

/// Nothing fails on the sweep, and the program is told of each target the
/// length that the file has.
pub open spec fn faithful(targets: Seq<Seq<char>>, visits: Seq<Visit>, files: Files) -> bool {
    &&& visits.len() == targets.len()
    &&& forall|i: int|
        0 <= i < targets.len() ==> {
            &&& files.dom().contains(#[trigger] targets[i])
            &&& visits[i] == Visit::Filled { len: files[targets[i]].len() as u64 }
            &&& files[targets[i]].len() <= u64::MAX
        }
}

/// What a sweep on which nothing fails does to the files: the sweep of a dry
/// run changes no file; the sweep of any other run leaves every target with
/// the length it had and with zero bytes only, and every other file as it
/// was.
pub proof fn lemma_sweep_zero_fills(
    targets: Seq<Seq<char>>,
    visits: Seq<Visit>,
    dry_run: bool,
    files: Files,
)
    requires
        faithful(targets, visits, files),
    ensures
        ({
            let after = effects(sweep_requests(targets, visits, dry_run), files);
            &&& after.dom() == files.dom()
            &&& dry_run ==> after == files
            &&& forall|path: Seq<char>| #[trigger]
                files.dom().contains(path) ==> after[path].len() == files[path].len()
            &&& forall|path: Seq<char>, at: int|
                !dry_run && among(targets, path) && 0 <= at < after[path].len() ==> #[trigger] after[path][at]
                    == 0
            &&& forall|path: Seq<char>| #[trigger]
                files.dom().contains(path) && !among(targets, path) ==> after[path] == files[path]
        }),
    decreases visits.len(),
{
    let requests = sweep_requests(targets, visits, dry_run);
    let after = effects(requests, files);
    if visits.len() > 0 {
        let path = targets.first();
        let visit = visits.first();
        let others = targets.drop_first();
        assert(targets[0] == path);
        let len = files[path].len() as u64;
        assert(visit == Visit::Filled { len });
        let one = visit.requests(path, dry_run);
        let more = sweep_requests(others, visits.drop_first(), dry_run);
        let filled = if dry_run {
            files
        } else {
            files.insert(path, zero_filled(files[path], len as nat))
        };
        assert(filled.dom() =~= files.dom());
        let none = Seq::<RequestView>::empty();
        assert(effects(none, filled) == filled);
        if dry_run {
            assert(one.drop_first() =~= none);
        } else {
            assert(one.drop_first() =~= seq![RequestView::Fill { path, len }]);
            assert(one.drop_first().drop_first() =~= none);
            assert(effects(one.drop_first(), files) == filled);
        }
        assert(effects(one, files) == filled);
        lemma_effects_twice(one, more, files);
        assert(after == effects(more, filled));
        assert forall|i: int| 0 <= i < others.len() implies {
            &&& filled.dom().contains(#[trigger] others[i])
            &&& visits.drop_first()[i] == Visit::Filled { len: filled[others[i]].len() as u64 }
            &&& filled[others[i]].len() <= u64::MAX
        } by {
            assert(others[i] == targets[i + 1]);
            assert(visits.drop_first()[i] == visits[i + 1]);
        }
        lemma_sweep_zero_fills(others, visits.drop_first(), dry_run, filled);
        assert forall|other: Seq<char>| among(targets, other) && other != path implies among(
            others,
            other,
        ) by {
            let i = choose|i: int| 0 <= i < targets.len() && #[trigger] targets[i] == other;
            assert(others[i - 1] == other);
        }
        assert forall|other: Seq<char>| among(others, other) implies among(targets, other) by {
            let i = choose|i: int| 0 <= i < others.len() && #[trigger] others[i] == other;
            assert(targets[i + 1] == other);
        }
        assert(among(targets, path));
        assert forall|other: Seq<char>, at: int|
            !dry_run && among(targets, other) && 0 <= at < after[other].len() implies #[trigger] after[other][at]
            == 0 by {
            if !among(others, other) {
                assert(other == path);
                assert(after[path] == filled[path]);
            }
        }
        if dry_run {
            assert(after == files);
        }
    } else {
        assert(targets.len() == 0);
    }
}

} // verus!
