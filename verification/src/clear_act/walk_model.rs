//! What a walk does to a tree.
//!
//! The steps of a [`DirWalk`](super::dir_walk::DirWalk) are carried out by
//! its caller.  This module says what they amount to when each of them
//! succeeds: it follows the walk of the shipped walker through a world of
//! directories and their listings, collects the files that the walk hands
//! over to be cleared, and proves which files those are.

use super::const_change_cont::ConstChangeContD;
use super::traits::ClearDir;
use super::dir_walk::{
    initial, next, query_of, take_next, EntryKind, WalkAction, WalkEvent, WalkQuery, WalkStage,
    WalkState,
};
use std::path::PathBuf;
use vstd::multiset::Multiset;
use vstd::prelude::*;

verus! {

/// One entry of a listing.
pub struct Entry {
    /// The path of the entry.
    pub path: PathBuf,
    /// What the entry is.
    pub kind: EntryKind,
}

/// The file system as a walk meets it: which paths are directories, and
/// what listing each path gives.
pub struct World {
    /// Whether a path is a directory.
    pub is_dir: spec_fn(PathBuf) -> bool,
    /// The entries that listing a path gives, in their order.
    pub entries: spec_fn(PathBuf) -> Seq<Entry>,
    /// How many levels of directories there are below a path, at most.
    pub height: spec_fn(PathBuf) -> nat,
}

/// Every directory among `entries` is less than `bound` levels high.
pub open spec fn directories_below(world: World, entries: Seq<Entry>, bound: nat) -> bool {
    forall|i: int|
        0 <= i < entries.len() && (#[trigger] entries[i]).kind == EntryKind::Directory ==> (
        world.height)(entries[i].path) < bound
}

impl World {
    /// The world is a tree of finite depth: every directory in a listing is
    /// less high than the directory that is listed.
    pub open spec fn is_tree(self) -> bool {
        forall|dir: PathBuf| #[trigger]
            directories_below(self, (self.entries)(dir), (self.height)(dir))
    }
}

/// What the shipped walker answers to `query`.
pub open spec fn reply(walker: ConstChangeContD<'_>, query: WalkQuery<'_>) -> Option<bool> {
    match query {
        WalkQuery::Nothing => None,
        WalkQuery::DirAllowed(path, is_dir) => Some(walker.admits_dir(*path, is_dir)),
        WalkQuery::Recursive(_) => Some(walker.recursive()),
    }
}

/// The event that reports the first of the entries `rest`, or that there is
/// none.
pub open spec fn entry_event<E>(rest: Seq<Entry>) -> WalkEvent<E> {
    if rest.len() == 0 {
        WalkEvent::EndOfListing
    } else {
        WalkEvent::Entry(rest[0].path, rest[0].kind)
    }
}

/// The entries that are left once the first of `rest` is reported.
pub open spec fn rest_after(rest: Seq<Entry>) -> Seq<Entry> {
    if rest.len() == 0 {
        rest
    } else {
        rest.drop_first()
    }
}

/// A walk in which every action succeeds, followed from `state` on `event`
/// for at most `steps` steps, where `rest` are the entries of the open
/// directory that are not reported yet: the files that are handed over to be
/// cleared, in their order, and the result with which the walk ends, if it
/// ends within these steps.
pub open spec fn follow<E>(
    walker: ConstChangeContD<'_>,
    world: World,
    state: WalkState,
    event: WalkEvent<E>,
    rest: Seq<Entry>,
    steps: nat,
) -> (Seq<PathBuf>, Option<Result<(), E>>)
    decreases steps, 0nat,
{
    if steps == 0 {
        (Seq::empty(), None)
    } else {
        match next(state, event, reply(walker, query_of(&state, &event))) {
            None => (Seq::empty(), None),
            Some((then, action)) => carry_out(
                walker,
                world,
                then,
                action,
                rest,
                (steps - 1) as nat,
            ),
        }
    }
}

/// The walk from `state` on, once `action` is carried out in the world and
/// has succeeded.
pub open spec fn carry_out<E>(
    walker: ConstChangeContD<'_>,
    world: World,
    state: WalkState,
    action: WalkAction<E>,
    rest: Seq<Entry>,
    steps: nat,
) -> (Seq<PathBuf>, Option<Result<(), E>>)
    decreases steps, 1nat,
{
    match action {
        WalkAction::Finish(result) => (Seq::empty(), Some(result)),
        WalkAction::Examine(path) => follow(
            walker,
            world,
            state,
            WalkEvent::Examined((world.is_dir)(path)),
            rest,
            steps,
        ),
        WalkAction::List(path) => follow(
            walker,
            world,
            state,
            entry_event((world.entries)(path)),
            rest_after((world.entries)(path)),
            steps,
        ),
        WalkAction::NextEntry => follow(
            walker,
            world,
            state,
            entry_event(rest),
            rest_after(rest),
            steps,
        ),
        WalkAction::Clear(path) => {
            let later = follow(walker, world, state, WalkEvent::<E>::Cleared, rest, steps);
            (seq![path] + later.0, later.1)
        },
    }
}

/// The whole walk of `root`, followed for at most `steps` steps.
pub open spec fn whole_walk<E>(
    walker: ConstChangeContD<'_>,
    world: World,
    root: PathBuf,
    steps: nat,
) -> (Seq<PathBuf>, Option<Result<(), E>>) {
    follow(
        walker,
        world,
        initial(root),
        WalkEvent::Examined((world.is_dir)(root)),
        Seq::empty(),
        steps,
    )
}

/// The files in and below `dir` that are the walker's to clear: none if the
/// walker does not admit the directory, else those among its entries.
pub open spec fn files_under(walker: ConstChangeContD<'_>, world: World, dir: PathBuf) -> Multiset<
    PathBuf,
>
    decreases (world.height)(dir), 1nat, 0nat,
{
    if walker.admits_dir(dir, (world.is_dir)(dir)) {
        files_among(walker, world, (world.height)(dir), (world.entries)(dir))
    } else {
        Multiset::empty()
    }
}

/// The files among `entries` that are the walker's to clear: each regular
/// file, and for a walker that goes down, the files under each directory.
/// Directories are taken to be less than `bound` levels high.
pub open spec fn files_among(
    walker: ConstChangeContD<'_>,
    world: World,
    bound: nat,
    entries: Seq<Entry>,
) -> Multiset<PathBuf>
    decreases bound, 0nat, entries.len(),
{
    if entries.len() == 0 {
        Multiset::empty()
    } else {
        let first = entries[0];
        let others = files_among(walker, world, bound, entries.drop_first());
        match first.kind {
            EntryKind::File => others.insert(first.path),
            EntryKind::Directory => if walker.recursive() && (world.height)(first.path) < bound {
                others.add(files_under(walker, world, first.path))
            } else {
                others
            },
            EntryKind::Other => others,
        }
    }
}

/// The files under the directories that wait.
pub open spec fn files_waiting(
    walker: ConstChangeContD<'_>,
    world: World,
    pending: Seq<PathBuf>,
) -> Multiset<PathBuf>
    decreases pending.len(),
{
    if pending.len() == 0 {
        Multiset::empty()
    } else {
        files_waiting(walker, world, pending.drop_last()).add(
            files_under(walker, world, pending.last()),
        )
    }
}

/// A number of steps in which the walk of `dir` is over.
spec fn steps_under(walker: ConstChangeContD<'_>, world: World, dir: PathBuf) -> nat
    decreases (world.height)(dir), 1nat, 0nat,
{
    if walker.admits_dir(dir, (world.is_dir)(dir)) {
        2 + steps_among(walker, world, (world.height)(dir), (world.entries)(dir))
    } else {
        1
    }
}

/// A number of steps in which `entries` are gone through, with all that
/// lies below them.
spec fn steps_among(
    walker: ConstChangeContD<'_>,
    world: World,
    bound: nat,
    entries: Seq<Entry>,
) -> nat
    decreases bound, 0nat, entries.len(),
{
    if entries.len() == 0 {
        0
    } else {
        let first = entries[0];
        let others = steps_among(walker, world, bound, entries.drop_first());
        match first.kind {
            EntryKind::File => 2 + others,
            EntryKind::Directory => if walker.recursive() && (world.height)(first.path) < bound {
                1 + others + steps_under(walker, world, first.path)
            } else {
                1 + others
            },
            EntryKind::Other => 1 + others,
        }
    }
}

/// A number of steps in which the directories that wait are walked.
spec fn steps_waiting(walker: ConstChangeContD<'_>, world: World, pending: Seq<PathBuf>) -> nat
    decreases pending.len(),
{
    if pending.len() == 0 {
        0
    } else {
        steps_waiting(walker, world, pending.drop_last()) + steps_under(
            walker,
            world,
            pending.last(),
        )
    }
}

/// The result of a walk that has ended in success after handing over
/// `files`.
spec fn ends_well<E>(walked: (Seq<PathBuf>, Option<Result<(), E>>), files: Multiset<PathBuf>) -> bool {
    walked.1 == Some(Ok::<(), E>(())) && walked.0.to_multiset() =~= files
}

proof fn lemma_one_more(path: PathBuf, later: Seq<PathBuf>)
    ensures
        (seq![path] + later).to_multiset() =~= later.to_multiset().insert(path),
{
    vstd::seq_lib::lemma_seq_union_to_multiset_commutative(seq![path], later);
    assert(later + seq![path] =~= later.push(path));
    vstd::seq_lib::to_multiset_build(later, path);
}

proof fn lemma_pushed(walker: ConstChangeContD<'_>, world: World, pending: Seq<PathBuf>, dir: PathBuf)
    ensures
        files_waiting(walker, world, pending.push(dir)) == files_waiting(
            walker,
            world,
            pending,
        ).add(files_under(walker, world, dir)),
        steps_waiting(walker, world, pending.push(dir)) == steps_waiting(walker, world, pending)
            + steps_under(walker, world, dir),
{
    assert(pending.push(dir).drop_last() =~= pending);
    assert(pending.push(dir).last() == dir);
}

/// What follows once the next directory is taken off the work list.
proof fn lemma_taking_next<E>(
    walker: ConstChangeContD<'_>,
    world: World,
    pending: Seq<PathBuf>,
    rest: Seq<Entry>,
    steps: nat,
)
    requires
        walker.recursive() ==> world.is_tree(),
        steps >= steps_waiting(walker, world, pending),
    ensures
        ends_well(
            carry_out::<E>(
                walker,
                world,
                take_next::<E>(pending).0,
                take_next::<E>(pending).1,
                rest,
                steps,
            ),
            files_waiting(walker, world, pending),
        ),
    decreases steps, 1nat,
{
    if pending.len() == 0 {
        assert(Seq::<PathBuf>::empty().to_multiset() =~= Multiset::<PathBuf>::empty()) by {
            broadcast use vstd::seq_lib::group_to_multiset_ensures;

        }
    } else {
        lemma_examining::<E>(walker, world, pending.last(), pending.drop_last(), rest, steps);
    }
}

/// What follows once a directory is examined.
proof fn lemma_examining<E>(
    walker: ConstChangeContD<'_>,
    world: World,
    dir: PathBuf,
    pending: Seq<PathBuf>,
    rest: Seq<Entry>,
    steps: nat,
)
    requires
        walker.recursive() ==> world.is_tree(),
        steps >= steps_under(walker, world, dir) + steps_waiting(walker, world, pending),
    ensures
        ends_well(
            follow::<E>(
                walker,
                world,
                WalkState { stage: WalkStage::Examining, examined: Some(dir), pending },
                WalkEvent::Examined((world.is_dir)(dir)),
                rest,
                steps,
            ),
            files_waiting(walker, world, pending).add(files_under(walker, world, dir)),
        ),
    decreases steps, 0nat,
{
    let state = WalkState { stage: WalkStage::Examining, examined: Some(dir), pending };
    let event = WalkEvent::<E>::Examined((world.is_dir)(dir));
    assert(query_of(&state, &event) == WalkQuery::DirAllowed(&dir, (world.is_dir)(dir)));
    if walker.admits_dir(dir, (world.is_dir)(dir)) {
        let entries = (world.entries)(dir);
        if walker.recursive() {
            assert(directories_below(world, entries, (world.height)(dir)));
        }
        lemma_listing::<E>(walker, world, (world.height)(dir), pending, entries, (steps - 1) as nat);
    } else {
        lemma_taking_next::<E>(walker, world, pending, rest, (steps - 1) as nat);
    }
}

/// What follows once the entries `entries` of the open directory are to be
/// reported.
proof fn lemma_listing<E>(
    walker: ConstChangeContD<'_>,
    world: World,
    bound: nat,
    pending: Seq<PathBuf>,
    entries: Seq<Entry>,
    steps: nat,
)
    requires
        walker.recursive() ==> world.is_tree(),
        walker.recursive() ==> directories_below(world, entries, bound),
        steps >= 1 + steps_among(walker, world, bound, entries) + steps_waiting(
            walker,
            world,
            pending,
        ),
    ensures
        ends_well(
            follow::<E>(
                walker,
                world,
                WalkState { stage: WalkStage::Listing, examined: None, pending },
                entry_event(entries),
                rest_after(entries),
                steps,
            ),
            files_waiting(walker, world, pending).add(files_among(walker, world, bound, entries)),
        ),
    decreases steps, 0nat,
{
    let state = WalkState { stage: WalkStage::Listing, examined: None, pending };
    let event = entry_event::<E>(entries);
    if entries.len() == 0 {
        lemma_taking_next::<E>(walker, world, pending, rest_after(entries), (steps - 1) as nat);
    } else {
        let first = entries[0];
        let others = entries.drop_first();
        if walker.recursive() {
            assert forall|i: int|
                0 <= i < others.len() && (#[trigger] others[i]).kind
                    == EntryKind::Directory implies (world.height)(others[i].path) < bound by {
                assert(others[i] == entries[i + 1]);
            }
        }
        assert(event == WalkEvent::<E>::Entry(first.path, first.kind));
        match first.kind {
            EntryKind::File => {
                assert(query_of(&state, &event) == WalkQuery::Nothing);
                let clearing = WalkState { stage: WalkStage::Clearing, examined: None, pending };
                let cleared = WalkEvent::<E>::Cleared;
                assert(query_of(&clearing, &cleared) == WalkQuery::Nothing);
                lemma_listing::<E>(walker, world, bound, pending, others, (steps - 2) as nat);
                let later = follow::<E>(walker, world, clearing, cleared, others, (steps - 1) as nat);
                assert(later == follow::<E>(
                    walker,
                    world,
                    state,
                    entry_event(others),
                    rest_after(others),
                    (steps - 2) as nat,
                ));
                lemma_one_more(first.path, later.0);
            },
            EntryKind::Directory => {
                assert(query_of(&state, &event) == WalkQuery::Recursive(&first.path));
                if walker.recursive() {
                    assert((world.height)(first.path) < bound);
                    lemma_pushed(walker, world, pending, first.path);
                    lemma_listing::<E>(
                        walker,
                        world,
                        bound,
                        pending.push(first.path),
                        others,
                        (steps - 1) as nat,
                    );
                } else {
                    lemma_listing::<E>(walker, world, bound, pending, others, (steps - 1) as nat);
                }
            },
            EntryKind::Other => {
                assert(query_of(&state, &event) == WalkQuery::Nothing);
                lemma_listing::<E>(walker, world, bound, pending, others, (steps - 1) as nat);
            },
        }
    }
}

/// A number of steps within which the walk of `root` is over.
pub closed spec fn enough_steps(walker: ConstChangeContD<'_>, world: World, root: PathBuf) -> nat {
    steps_under(walker, world, root)
}

/// A walk in which every action succeeds ends in success, and hands over to
/// be cleared exactly the files in and below the root that are the walker's
/// to clear: those of the root, if the walker admits it, and for a walker
/// that goes down those of every directory below that it admits, however
/// deep, each as often as it is listed.  The world of a walker that goes
/// down is a tree.
pub proof fn walk_clears_the_files_under_the_root<E>(
    walker: ConstChangeContD<'_>,
    world: World,
    root: PathBuf,
    steps: nat,
)
    requires
        walker.recursive() ==> world.is_tree(),
        steps >= enough_steps(walker, world, root),
    ensures
        whole_walk::<E>(walker, world, root, steps).1 == Some(Ok::<(), E>(())),
        whole_walk::<E>(walker, world, root, steps).0.to_multiset() == files_under(
            walker,
            world,
            root,
        ),
{
    lemma_examining::<E>(walker, world, root, Seq::empty(), Seq::empty(), steps);
    assert(files_waiting(walker, world, Seq::empty()) =~= Multiset::empty());
}

/// The regular files among `entries`.
pub open spec fn regular_files(entries: Seq<Entry>) -> Multiset<PathBuf>
    decreases entries.len(),
{
    if entries.len() == 0 {
        Multiset::empty()
    } else if entries[0].kind == EntryKind::File {
        regular_files(entries.drop_first()).insert(entries[0].path)
    } else {
        regular_files(entries.drop_first())
    }
}

proof fn lemma_no_descent(
    walker: ConstChangeContD<'_>,
    world: World,
    bound: nat,
    entries: Seq<Entry>,
)
    requires
        !walker.recursive(),
    ensures
        files_among(walker, world, bound, entries) == regular_files(entries),
    decreases entries.len(),
{
    if entries.len() > 0 {
        lemma_no_descent(walker, world, bound, entries.drop_first());
    }
}

/// A walker that does not go down clears the regular files that lie
/// directly in the root, if it admits the root, and no others: what is in a
/// subdirectory is not touched.
pub proof fn walk_without_descent_stays_in_the_root(
    walker: ConstChangeContD<'_>,
    world: World,
    root: PathBuf,
)
    requires
        !walker.recursive(),
    ensures
        files_under(walker, world, root) == if walker.admits_dir(root, (world.is_dir)(root)) {
            regular_files((world.entries)(root))
        } else {
            Multiset::empty()
        },
{
    lemma_no_descent(walker, world, (world.height)(root), (world.entries)(root));
}

proof fn lemma_among_joined(
    walker: ConstChangeContD<'_>,
    world: World,
    bound: nat,
    front: Seq<Entry>,
    back: Seq<Entry>,
)
    ensures
        files_among(walker, world, bound, front + back) =~= files_among(
            walker,
            world,
            bound,
            front,
        ).add(files_among(walker, world, bound, back)),
    decreases front.len(),
{
    if front.len() == 0 {
        assert(front + back =~= back);
    } else {
        assert((front + back).drop_first() =~= front.drop_first() + back);
        lemma_among_joined(walker, world, bound, front.drop_first(), back);
    }
}

/// A directory that the walker does not admit is passed over with all that
/// lies below it, and what lies beside it is cleared as if the directory
/// were not there.
pub proof fn denied_directory_is_passed_over(
    walker: ConstChangeContD<'_>,
    world: World,
    bound: nat,
    entries: Seq<Entry>,
    i: int,
)
    requires
        0 <= i < entries.len(),
        entries[i].kind == EntryKind::Directory,
        !walker.admits_dir(entries[i].path, (world.is_dir)(entries[i].path)),
    ensures
        files_under(walker, world, entries[i].path) == Multiset::<PathBuf>::empty(),
        files_among(walker, world, bound, entries) == files_among(
            walker,
            world,
            bound,
            entries.remove(i),
        ),
{
    let front = entries.take(i);
    let back = entries.skip(i + 1);
    let alone = seq![entries[i]];
    assert(entries =~= front + (alone + back));
    assert(entries.remove(i) =~= front + back);
    assert((alone + back).drop_first() =~= back);
    lemma_among_joined(walker, world, bound, front, alone + back);
    lemma_among_joined(walker, world, bound, front, back);
    assert((alone + back)[0] == entries[i]);
    assert(files_under(walker, world, entries[i].path) =~= Multiset::<PathBuf>::empty());
    assert(files_among(walker, world, bound, alone + back) =~= files_among(
        walker,
        world,
        bound,
        back,
    ));
}

/// Only a path that was examined and that the walker has admitted is ever
/// listed.
pub proof fn listing_needs_admission<E>(state: WalkState, event: WalkEvent<E>, answer: Option<bool>)
    ensures
        next(state, event, answer) matches Some((_, WalkAction::List(path))) ==> {
            &&& state.stage == WalkStage::Examining
            &&& state.examined == Some(path)
            &&& answer == Some(true)
        },
{
}

/// A walker that does not go down never puts a directory on the work list:
/// the list of a walk that has begun with none stays empty, and the walk is
/// over when the root is listed.
pub proof fn nothing_waits_without_descent<E>(
    walker: ConstChangeContD<'_>,
    state: WalkState,
    event: WalkEvent<E>,
)
    requires
        !walker.recursive(),
        state.pending.len() == 0,
    ensures
        next(state, event, reply(walker, query_of(&state, &event))) matches Some((then, action))
            ==> {
            &&& then.pending.len() == 0
            &&& !(action is Examine)
            &&& state.stage == WalkStage::Listing && event is EndOfListing ==> action
                == WalkAction::<E>::Finish(Ok(()))
        },
{
}

/// A failure ends every walk that is not over, with that failure and
/// without another step.
pub proof fn failure_ends_the_walk<E>(state: WalkState, failure: E, answer: Option<bool>)
    requires
        state.stage != WalkStage::Finished,
    ensures
        next(state, WalkEvent::Failed(failure), answer) matches Some((then, action)) && {
            &&& then.stage == WalkStage::Finished
            &&& action == WalkAction::Finish(Err::<(), E>(failure))
        },
{
}

/// The directory that was found last is walked first.
pub proof fn last_found_is_walked_first<E>(pending: Seq<PathBuf>, found: PathBuf)
    ensures
        take_next::<E>(pending.push(found)).0.examined == Some(found),
        take_next::<E>(pending.push(found)).0.pending == pending,
        take_next::<E>(pending.push(found)).1 == WalkAction::<E>::Examine(found),
{
    assert(pending.push(found).drop_last() =~= pending);
}

/// What the shipped walker says to a query is [`reply`] of it, and the
/// walker is afterwards as it was before.
pub proof fn reply_is_the_walkers_answer<E>(
    walker: ConstChangeContD<'_>,
    after: ConstChangeContD<'_>,
    path: PathBuf,
    is_dir: bool,
    answer: bool,
)
    ensures
        ClearDir::<E>::dir_answer(&walker, path, is_dir, answer, &after) ==> Some(answer) == reply(
            walker,
            WalkQuery::DirAllowed(&path, is_dir),
        ) && after == walker,
        ClearDir::<E>::recursive_answer(&walker, path, answer, &after) ==> Some(answer) == reply(
            walker,
            WalkQuery::Recursive(&path),
        ) && after == walker,
{
}

} // verus!
