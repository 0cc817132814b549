use track_import::collection::{set_music_directory, SetDirectoryError};
use track_import::settings::{RootUpdate, SettingsError, SettingsState, SyncState};

#[test]
fn update_rejected_while_synchronizing() {
    let mut state = SettingsState::new();
    assert_eq!(state.update_root(Some("/music".to_owned())), Ok(RootUpdate::Updated));
    state.set_sync_state(SyncState::Synchronizing);
    assert!(state.is_synchronizing());
    // Every request fails and nothing is written, whatever the value.
    assert_eq!(
        state.update_root(Some("/other".to_owned())),
        Err(SettingsError::SynchronizationInProgress)
    );
    assert_eq!(state.update_root(None), Err(SettingsError::SynchronizationInProgress));
    assert_eq!(
        state.update_root(Some("/music".to_owned())),
        Err(SettingsError::SynchronizationInProgress)
    );
    // After synchronization finishes, the stored value is still the old one.
    state.set_sync_state(SyncState::Idle);
    assert_eq!(state.update_root(Some("/music".to_owned())), Ok(RootUpdate::Unchanged));
}

#[test]
fn same_value_twice_updates_then_is_unchanged() {
    let mut state = SettingsState::new();
    let v = Some("/music".to_owned());
    assert_eq!(state.update_root(v.clone()), Ok(RootUpdate::Updated));
    assert_eq!(state.update_root(v.clone()), Ok(RootUpdate::Unchanged));
    // The stored value equals the requested one: writing it again is again
    // a no-op, and writing something else is a change.
    assert_eq!(state.update_root(v), Ok(RootUpdate::Unchanged));
    assert_eq!(state.update_root(Some("/elsewhere".to_owned())), Ok(RootUpdate::Updated));
}

#[test]
fn current_root_reflects_updates() {
    let mut state = SettingsState::new();
    assert_eq!(state.current_root(), &None);
    assert_eq!(state.update_root(Some("/music".to_owned())), Ok(RootUpdate::Updated));
    assert_eq!(state.current_root(), &Some("/music".to_owned()));
    state.set_sync_state(SyncState::Synchronizing);
    let _ = state.update_root(Some("/other".to_owned()));
    assert_eq!(state.current_root(), &Some("/music".to_owned()));
}

#[test]
fn absent_value_compares_semantically() {
    let mut state = SettingsState::new();
    // Initially no root is stored: writing the absent value is a no-op.
    assert_eq!(state.update_root(None), Ok(RootUpdate::Unchanged));
    assert_eq!(state.update_root(Some("/music".to_owned())), Ok(RootUpdate::Updated));
    // Clearing the root is a real change, clearing it again is not.
    assert_eq!(state.update_root(None), Ok(RootUpdate::Updated));
    assert_eq!(state.update_root(None), Ok(RootUpdate::Unchanged));
}

#[test]
fn set_music_directory_resolves_and_updates() {
    let mut state = SettingsState::new();
    assert_eq!(
        set_music_directory(&mut state, Some("file:///music/library".to_owned())),
        Ok(RootUpdate::Updated)
    );
    assert_eq!(state.current_root(), &Some("/music/library".to_owned()));
    assert_eq!(
        set_music_directory(&mut state, Some("file:///music/library".to_owned())),
        Ok(RootUpdate::Unchanged)
    );
    assert_eq!(set_music_directory(&mut state, None), Ok(RootUpdate::Updated));
    assert_eq!(set_music_directory(&mut state, None), Ok(RootUpdate::Unchanged));
}

#[test]
fn set_music_directory_rejects_bad_locators() {
    let mut state = SettingsState::new();
    assert_eq!(
        set_music_directory(&mut state, Some("not a url".to_owned())),
        Err(SetDirectoryError::InvalidRootUrl)
    );
    assert_eq!(
        set_music_directory(&mut state, Some("https://example.net/a".to_owned())),
        Err(SetDirectoryError::InvalidRootUrl)
    );
}

#[test]
fn set_music_directory_guarded_by_synchronization() {
    let mut state = SettingsState::new();
    state.set_sync_state(SyncState::Synchronizing);
    assert_eq!(
        set_music_directory(&mut state, Some("file:///music".to_owned())),
        Err(SetDirectoryError::SynchronizationInProgress)
    );
    // The guard fires even before the locator is looked at.
    assert_eq!(
        set_music_directory(&mut state, Some("not a url".to_owned())),
        Err(SetDirectoryError::SynchronizationInProgress)
    );
}
