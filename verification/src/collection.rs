//! The collection-level settings command: changing the music directory from
//! a root locator, guarded against a running synchronization.

use vstd::prelude::*;

use crate::locator::resolve_file_url;
use crate::settings::{RootUpdate, SettingsError, SettingsState, SyncState};

verus! {

/// Why a music-directory change request failed.
#[derive(Clone, Copy, Debug, PartialEq, Eq, Structural)]
pub enum SetDirectoryError {
    /// A synchronization is running; nothing was read or written.
    SynchronizationInProgress,
    /// The root locator could not be converted to a local directory path.
    InvalidRootUrl,
}

/// Changes the collection's music directory to the directory named by the
/// root locator, or clears it when no locator is given.
///
/// Fails while a synchronization is running, before anything else is
/// considered, and when the locator does not resolve to a local path; in
/// both cases the state is untouched. Otherwise the stored root is updated
/// through the guarded updater, and the reported outcome distinguishes a
/// real change from a write of the value already stored.
pub fn set_music_directory(state: &mut SettingsState, root_url: Option<String>) -> (r: Result<
    RootUpdate,
    SetDirectoryError,
>)
    ensures
        old(state).sync_state() == SyncState::Synchronizing <==> r == Err::<
            RootUpdate,
            SetDirectoryError,
        >(SetDirectoryError::SynchronizationInProgress),
        r is Err ==> *final(state) == *old(state),
        r == Err::<RootUpdate, SetDirectoryError>(SetDirectoryError::InvalidRootUrl) ==> root_url
            is Some,
        old(state).sync_state() == SyncState::Idle && root_url is None ==> r == Ok::<
            RootUpdate,
            SetDirectoryError,
        >(
            if old(state).root_view() is None {
                RootUpdate::Unchanged
            } else {
                RootUpdate::Updated
            },
        ),
        r matches Ok(outcome) ==> {
            &&& old(state).sync_state() == SyncState::Idle
            &&& final(state).sync_state() == SyncState::Idle
            &&& (outcome == RootUpdate::Unchanged <==> final(state).root_view() == old(
                state,
            ).root_view())
            &&& (root_url is None ==> final(state).root_view() is None)
            &&& (root_url is Some ==> final(state).root_view() is Some)
            &&& (root_url is Some && old(state).root_view() is None ==> outcome
                == RootUpdate::Updated)
        },
{
    if state.is_synchronizing() {
        return Err(SetDirectoryError::SynchronizationInProgress);
    }
    let root_dir: Option<String> = match root_url {
        None => None,
        Some(url) => match resolve_file_url(url.as_str()) {
            Some(path) => Some(path),
            None => {
                return Err(SetDirectoryError::InvalidRootUrl);
            },
        },
    };
    match state.update_root(root_dir) {
        Ok(outcome) => Ok(outcome),
        Err(SettingsError::SynchronizationInProgress) => Err(
            SetDirectoryError::SynchronizationInProgress,
        ),
    }
}

} // verus!
