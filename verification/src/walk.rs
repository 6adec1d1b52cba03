//! What a walk comes to: the program, told truthfully what lies below a
//! path, finds the files there, depth first.
use vstd::prelude::*;
use crate::model::{StageView, ZeroView};
use crate::protocol::{EntryView, Kind, ReplyView, RequestView};
use crate::report::error_line;
use crate::status;
use crate::world::{complaints_all, entries_of, found_all, replies_all, requests_all, Tree};

verus! {

impl ZeroView {
    /// Where the program stands after it has made a request and been given
    /// these replies, one after the other: its state, and the request that
    /// is still to be answered.
    pub open spec fn run_each(self, request: RequestView, replies: Seq<ReplyView>) -> (
        ZeroView,
        RequestView,
    )
        decreases replies.len(),
    {
        if replies.len() == 0 {
            (self, request)
        } else {
            let (next, asked) = self.run(replies.first());
            next.run_each(asked, replies.drop_first())
        }
    }

    /// The requests that these replies were the answers to.
    pub open spec fn asked_each(self, request: RequestView, replies: Seq<ReplyView>) -> Seq<
        RequestView,
    >
        decreases replies.len(),
    {
        if replies.len() == 0 {
            Seq::empty()
        } else {
            let (next, asked) = self.run(replies.first());
            seq![request] + next.asked_each(asked, replies.drop_first())
        }
    }

    /// The program after a walk of these trees, before it goes on: the
    /// entries of the trees are gone, their files have joined the targets,
    /// and the directories that could not be enumerated have been reported.
    pub open spec fn walked(self, forest: Seq<Tree>, base: Seq<EntryView>) -> ZeroView {
        ZeroView {
            pending: base,
            targets: self.targets + found_all(forest, self.settings.recursive),
            stderr: self.stderr + complaints_all(forest, self.settings.recursive),
            ..self
        }
    }
}

/// Going on with whatever is next does not depend on what was asked for
/// last.
pub proof fn lemma_overwrite_forgets_stage(zero: ZeroView, stage: StageView)
    ensures
        zero.at(stage).overwrite() == zero.overwrite(),
    decreases zero.pending.len(),
{
    let other = zero.at(stage);
    if zero.pending.len() > 0 {
        let entry = zero.pending.last();
        let rest = ZeroView { pending: zero.pending.drop_last(), ..zero };
        if entry.kind == Kind::File {
            let more = ZeroView { targets: rest.targets.push(entry.path), ..rest };
            lemma_overwrite_forgets_stage(more, stage);
            assert(more.at(stage) == (ZeroView {
                targets: other.targets.push(entry.path),
                pending: other.pending.drop_last(),
                ..other
            }));
        } else if entry.kind == Kind::Directory && zero.settings.recursive {
        } else {
            lemma_overwrite_forgets_stage(rest, stage);
            assert(rest.at(stage) == (ZeroView { pending: other.pending.drop_last(), ..other }));
        }
    }
}

/// Replies given in two runs come to the same as the replies given in one.
pub proof fn lemma_run_each_twice(
    zero: ZeroView,
    request: RequestView,
    first: Seq<ReplyView>,
    second: Seq<ReplyView>,
)
    ensures
        zero.run_each(request, first + second) == ({
            let (middle, asked) = zero.run_each(request, first);
            middle.run_each(asked, second)
        }),
        zero.asked_each(request, first + second) == ({
            let (middle, asked) = zero.run_each(request, first);
            zero.asked_each(request, first) + middle.asked_each(asked, second)
        }),
    decreases first.len(),
{
    if first.len() == 0 {
        assert(first + second =~= second);
    } else {
        let (next, asked) = zero.run(first.first());
        assert((first + second).first() == first.first());
        assert((first + second).drop_first() =~= first.drop_first() + second);
        lemma_run_each_twice(next, asked, first.drop_first(), second);
    }
}

/// What is found in a tree alone is what is found in the forest of that
/// one tree.
pub proof fn lemma_forest_of_one(tree: Tree, recursive: bool)
    ensures
        found_all(seq![tree], recursive) == tree.found(recursive),
        complaints_all(seq![tree], recursive) == tree.complaints(recursive),
        requests_all(seq![tree], recursive) == tree.requests(recursive),
        replies_all(seq![tree], recursive) == tree.replies(recursive),
{
    let none = seq![tree].drop_first();
    assert(seq![tree].first() == tree);
    assert(none.len() == 0);
    assert(found_all(none, recursive) =~= Seq::<Seq<char>>::empty());
    assert(complaints_all(none, recursive) =~= Seq::<char>::empty());
    assert(requests_all(none, recursive) =~= Seq::<RequestView>::empty());
    assert(replies_all(none, recursive) =~= Seq::<ReplyView>::empty());
}

/// The walk of one tree. The program is about to look at the entry of the
/// tree. Told what the tree holds whenever it asks, it asks for the
/// entries of exactly the directories that a walk enumerates, in depth-first
/// order, and then stands where it would stand had it found the files of the
/// tree at once.
pub proof fn lemma_walk_tree(zero: ZeroView, tree: Tree, base: Seq<EntryView>)
    requires
        zero.pending == base.push(tree.entry),
    ensures
        ({
            let recursive = zero.settings.recursive;
            let (state, request) = zero.overwrite();
            &&& state.run_each(request, tree.replies(recursive)) == zero.walked(
                seq![tree],
                base,
            ).overwrite()
            &&& state.asked_each(request, tree.replies(recursive)) == tree.requests(recursive)
        }),
    decreases tree, 0nat,
{
    let recursive = zero.settings.recursive;
    let (state, request) = zero.overwrite();
    let path = tree.entry.path;
    let rest = ZeroView { pending: zero.pending.drop_last(), ..zero };
    assert(zero.pending.last() == tree.entry);
    assert(rest.pending =~= base);
    lemma_forest_of_one(tree, recursive);
    let end = zero.walked(seq![tree], base);
    if tree.entry.kind == Kind::File {
        let more = ZeroView { targets: rest.targets.push(path), ..rest };
        assert(end.targets =~= more.targets);
        assert(end.stderr =~= more.stderr);
        assert(end == more);
    } else if tree.entered(recursive) {
        let asking = rest.at(StageView::Listing { path });
        let replies = tree.replies(recursive);
        assert(replies.first() == tree.reply());
        match tree.content {
            Ok(children) => {
                let inside = ZeroView {
                    pending: asking.pending + entries_of(children).reverse(),
                    ..asking
                };
                assert(asking.run(tree.reply()) == inside.overwrite());
                assert(replies.drop_first() =~= replies_all(children, recursive));
                lemma_walk_forest(inside, children, base);
                let there = inside.walked(children, base);
                assert(there.targets =~= end.targets);
                assert(there.stderr =~= end.stderr);
                assert(there == end.at(StageView::Listing { path }));
                lemma_overwrite_forgets_stage(end, StageView::Listing { path });
                assert(tree.requests(recursive).drop_first() =~= requests_all(
                    children,
                    recursive,
                ));
                assert(state.asked_each(request, replies) =~= tree.requests(recursive));
            },
            Err(cause) => {
                let told = asking.warn(error_line(status::MACCESS@, path, cause));
                assert(asking.run(tree.reply()) == told.overwrite());
                assert(replies.drop_first() =~= Seq::<ReplyView>::empty());
                assert(told.overwrite().0.asked_each(told.overwrite().1, replies.drop_first())
                    =~= Seq::<RequestView>::empty());
                assert(told.overwrite().0.run_each(told.overwrite().1, replies.drop_first())
                    == told.overwrite());
                assert(told.targets =~= end.targets);
                assert(told.stderr =~= end.stderr);
                assert(told == end.at(StageView::Listing { path }));
                lemma_overwrite_forgets_stage(end, StageView::Listing { path });
                assert(state.asked_each(request, replies) =~= tree.requests(recursive));
            },
        }
    } else {
        assert(end.targets =~= rest.targets);
        assert(end.stderr =~= rest.stderr);
        assert(end == rest);
    }
}

/// The walk of a directory's entries. The program is about to look at the
/// entries of these trees, the first tree first. Told what the trees hold
/// whenever it asks, it asks for the entries of exactly the directories that
/// a walk enumerates, in depth-first order, and then stands where it would
/// stand had it found the files of the trees at once: with every file a
/// target, in depth-first order, and a line written for every directory that
/// could not be enumerated. Without the `recursive` option it asks for
/// nothing, and the files are those among the entries.
pub proof fn lemma_walk_forest(zero: ZeroView, forest: Seq<Tree>, base: Seq<EntryView>)
    requires
        zero.pending == base + entries_of(forest).reverse(),
    ensures
        ({
            let recursive = zero.settings.recursive;
            let (state, request) = zero.overwrite();
            &&& state.run_each(request, replies_all(forest, recursive)) == zero.walked(
                forest,
                base,
            ).overwrite()
            &&& state.asked_each(request, replies_all(forest, recursive)) == requests_all(
                forest,
                recursive,
            )
        }),
    decreases forest, 1nat,
{
    let recursive = zero.settings.recursive;
    let (state, request) = zero.overwrite();
    if forest.len() == 0 {
        assert(entries_of(forest).reverse() =~= Seq::<EntryView>::empty());
        let end = zero.walked(forest, base);
        assert(end.pending =~= zero.pending);
        assert(end.targets =~= zero.targets);
        assert(end.stderr =~= zero.stderr);
        assert(end == zero);
    } else {
        let tree = forest.first();
        let others = forest.drop_first();
        let below = base + entries_of(others).reverse();
        assert(zero.pending =~= below.push(tree.entry));
        lemma_walk_tree(zero, tree, below);
        let middle = zero.walked(seq![tree], below);
        lemma_forest_of_one(tree, recursive);
        lemma_walk_forest(middle, others, base);
        lemma_run_each_twice(
            state,
            request,
            tree.replies(recursive),
            replies_all(others, recursive),
        );
        let end = zero.walked(forest, base);
        let there = middle.walked(others, base);
        assert(there.targets =~= end.targets);
        assert(there.stderr =~= end.stderr);
        assert(there == end);
    }
}

} // verus!
