use vstd::prelude::*;

verus! {

/// What was found at a path on disk.
#[derive(Debug, Clone, Copy, PartialEq, Eq, Structural)]
pub enum PathState {
    /// Nothing stands at the path.
    Absent,
    /// A regular file stands at the path.
    RegularFile,
    /// Something else stands at the path, a directory for one.
    Other,
}

/// What is to be done at a path on disk.
#[derive(Debug, Clone, Copy, PartialEq, Eq, Structural)]
pub enum SyncAction {
    /// Leave the disk as it is.
    Nothing,
    /// Make every missing parent directory, then an empty regular file at the path.
    Create,
    /// Remove the regular file at the path.
    Remove,
}

/// What stands at a path once an action has been carried out there.
pub open spec fn state_after(state: PathState, action: SyncAction) -> PathState {
    match action {
        SyncAction::Nothing => state,
        SyncAction::Create => PathState::RegularFile,
        SyncAction::Remove => PathState::Absent,
    }
}

/// What makes a path exist: a file is made where nothing stands, and nothing is done where
/// something stands already.
pub open spec fn existence_action(state: PathState) -> SyncAction {
    if state == PathState::Absent {
        SyncAction::Create
    } else {
        SyncAction::Nothing
    }
}

/// What makes a path's file absent: a regular file is removed, and nothing is done where
/// none stands.
pub open spec fn absence_action(state: PathState) -> SyncAction {
    if state == PathState::RegularFile {
        SyncAction::Remove
    } else {
        SyncAction::Nothing
    }
}

/// What to do at a path, given what was found there, so that something stands at it.
pub fn ensure_exists(state: PathState) -> (action: SyncAction)
    ensures
        action == existence_action(state),
{
    match state {
        PathState::Absent => SyncAction::Create,
        PathState::RegularFile => SyncAction::Nothing,
        PathState::Other => SyncAction::Nothing,
    }
}

/// What to do at a path, given what was found there, so that no regular file stands at it.
pub fn ensure_absent(state: PathState) -> (action: SyncAction)
    ensures
        action == absence_action(state),
{
    match state {
        PathState::Absent => SyncAction::Nothing,
        PathState::RegularFile => SyncAction::Remove,
        PathState::Other => SyncAction::Nothing,
    }
}

/// Making a path exist twice in a row leaves the disk as making it exist once does: after
/// the first time something stands at the path, and the second time nothing is done.
pub proof fn lemma_ensure_exists_idempotent(state: PathState)
    ensures
        state_after(state, existence_action(state)) != PathState::Absent,
        existence_action(state_after(state, existence_action(state))) == SyncAction::Nothing,
        state_after(
            state_after(state, existence_action(state)),
            existence_action(state_after(state, existence_action(state))),
        ) == state_after(state, existence_action(state)),
{
}

/// Making a path's file absent twice in a row leaves the disk as doing so once does: after
/// the first time no regular file stands at the path, and the second time nothing is done.
pub proof fn lemma_ensure_absent_idempotent(state: PathState)
    ensures
        state_after(state, absence_action(state)) != PathState::RegularFile,
        absence_action(state_after(state, absence_action(state))) == SyncAction::Nothing,
        state_after(
            state_after(state, absence_action(state)),
            absence_action(state_after(state, absence_action(state))),
        ) == state_after(state, absence_action(state)),
{
}

} // verus!
