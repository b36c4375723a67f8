//! Creating the directories of the archive, one caller at a time.
//!
//! Workers share the archive's directory tree. A worker that needs a
//! directory takes the one lock of the run, looks what stands at the path,
//! asks `ensure_directory` what to do, does it, and only then lets the lock
//! go. So no two workers ever see a path absent and both create it.

use vstd::prelude::*;

verus! {

/// What stands at a path.
#[derive(Clone, Copy, Debug, PartialEq, Eq, Structural)]
pub enum PathState {
    /// Nothing.
    Absent,
    /// A directory.
    Directory,
    /// Something that is no directory.
    Other,
}

/// What to do about a directory that the archive needs.
#[derive(Clone, Copy, Debug, PartialEq, Eq, Structural)]
pub enum DirectoryAction {
    /// Create it, with the directories above it that are missing.
    Create,
    /// It is there: nothing to do.
    Keep,
    /// The path is taken by something else. The run cannot go on.
    Refuse,
}

/// What to do about a needed directory, given what stands at its path:
/// create it where nothing stands, keep it where it is there, and refuse
/// where something else is.
pub open spec fn action_for(found: PathState) -> DirectoryAction {
    match found {
        PathState::Absent => DirectoryAction::Create,
        PathState::Directory => DirectoryAction::Keep,
        PathState::Other => DirectoryAction::Refuse,
    }
}

/// Decides what to do about a needed directory from what stands at its
/// path. The caller holds the lock of the run from the look at the path to
/// the end of the action.
pub fn ensure_directory(found: PathState) -> (action: DirectoryAction)
    ensures
        action == action_for(found),
        action is Create <==> found is Absent,
{
    match found {
        PathState::Absent => DirectoryAction::Create,
        PathState::Directory => DirectoryAction::Keep,
        PathState::Other => DirectoryAction::Refuse,
    }
}

/// What stands at the paths that a run looks at. A path that the map does
/// not hold has nothing standing at it.
pub type Tree = Map<Seq<char>, PathState>;

/// What stands at `path` in `tree`.
pub open spec fn state_at(tree: Tree, path: Seq<char>) -> PathState {
    if tree.contains_key(path) {
        tree[path]
    } else {
        PathState::Absent
    }
}

/// The tree once a caller that holds the lock has looked at `path` and done
/// what `ensure_directory` says. The directories above `path` are left out
/// of this account.
pub open spec fn after_turn(tree: Tree, path: Seq<char>) -> Tree {
    match action_for(state_at(tree, path)) {
        DirectoryAction::Create => tree.insert(path, PathState::Directory),
        _ => tree,
    }
}

/// The tree once callers have taken their turns with the lock, one for each
/// path of `turns`, in that order.
pub open spec fn after_turns(tree: Tree, turns: Seq<Seq<char>>) -> Tree
    decreases turns.len(),
{
    if turns.len() == 0 {
        tree
    } else {
        after_turn(after_turns(tree, turns.drop_last()), turns.last())
    }
}

/// Callers that take turns leave a directory at each path that one of them
/// needed, and every other path as it was, in whatever order they came;
/// and none of them is refused or creates what is there. This holds where
/// nothing but a directory stands at any of the paths beforehand.
pub proof fn lemma_turns_create_each_directory_once(tree: Tree, turns: Seq<Seq<char>>)
    requires
        forall|i: int| 0 <= i < turns.len() ==> state_at(tree, #[trigger] turns[i]) != PathState::Other,
    ensures
        forall|path: Seq<char>|
            turns.contains(path) ==> #[trigger] state_at(after_turns(tree, turns), path)
                == PathState::Directory,
        forall|path: Seq<char>|
            !turns.contains(path) ==> #[trigger] state_at(after_turns(tree, turns), path)
                == state_at(tree, path),
        forall|k: int|
            0 <= k < turns.len() ==> {
                let found = state_at(after_turns(tree, turns.take(k)), #[trigger] turns[k]);
                &&& found != PathState::Other
                &&& found == PathState::Directory <==> (turns.take(k).contains(turns[k])
                    || state_at(tree, turns[k]) == PathState::Directory)
            },
    decreases turns.len(),
{
    if turns.len() > 0 {
        let front = turns.drop_last();
        let last = turns.last();
        assert forall|i: int| 0 <= i < front.len() implies state_at(tree, #[trigger] front[i])
            != PathState::Other by {
            assert(front[i] == turns[i]);
        }
        lemma_turns_create_each_directory_once(tree, front);
        let before = after_turns(tree, front);
        let after = after_turns(tree, turns);
        assert(after == after_turn(before, last));
        assert(turns[turns.len() - 1] == last);
        assert(state_at(before, last) != PathState::Other) by {
            if !front.contains(last) {
                assert(state_at(before, last) == state_at(tree, last));
            }
        }
        assert(state_at(after, last) == PathState::Directory);
        assert forall|path: Seq<char>| path != last implies state_at(after, path) == state_at(
            before,
            path,
        ) by {}
        assert forall|path: Seq<char>| turns.contains(path) implies #[trigger] state_at(
            after_turns(tree, turns),
            path,
        ) == PathState::Directory by {
            if path != last {
                let i = choose|i: int| 0 <= i < turns.len() && turns[i] == path;
                assert(front[i] == path);
                assert(front.contains(path));
                assert(state_at(before, path) == PathState::Directory);
            }
        }
        assert forall|path: Seq<char>| !turns.contains(path) implies #[trigger] state_at(
            after_turns(tree, turns),
            path,
        ) == state_at(tree, path) by {
            if front.contains(path) {
                let i = choose|i: int| 0 <= i < front.len() && front[i] == path;
                assert(turns[i] == path);
            }
            assert(state_at(before, path) == state_at(tree, path));
        }
        assert forall|k: int| 0 <= k < turns.len() implies {
            let found = state_at(after_turns(tree, turns.take(k)), #[trigger] turns[k]);
            &&& found != PathState::Other
            &&& found == PathState::Directory <==> (turns.take(k).contains(turns[k]) || state_at(
                tree,
                turns[k],
            ) == PathState::Directory)
        } by {
            if k < front.len() {
                assert(front.take(k) =~= turns.take(k));
                assert(front[k] == turns[k]);
            } else {
                assert(turns.take(k) =~= front);
                assert(state_at(tree, turns[k]) != PathState::Other);
            }
        }
    }
}

} // verus!
