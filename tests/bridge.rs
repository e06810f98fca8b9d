use media_bridge::bridge::{
    Action, Command, CommandError, Phase, Refresh, SessionBridge, Transport, COMMAND_SETTLE_MS,
    PLAY_PAUSE_SETTLE_MS,
};
use media_bridge::diff::TrackKey;
use media_bridge::media::{AutoRepeatMode, SeekPosition, TrackControls};
use media_bridge::registry::Category;

fn key(title: &str, artist: &str, playing: bool) -> TrackKey {
    TrackKey { title: title.to_string(), artist: artist.to_string(), playing }
}

fn controls(playing: bool) -> TrackControls {
    TrackControls::from_readings(true, true, true, true, true, playing, false, 0)
}

fn full_reads() -> Vec<Action> {
    vec![
        Action::Read(Category::Track),
        Action::Read(Category::Controls),
        Action::Read(Category::Timeline),
    ]
}

fn full_registration() -> Vec<Action> {
    vec![
        Action::Register(Category::Track),
        Action::Register(Category::Controls),
        Action::Register(Category::Timeline),
        Action::Register(Category::Identity),
    ]
}

/// A connected bridge whose four registrations came back as tokens 1 to 4.
fn active_bridge() -> SessionBridge {
    let mut b = SessionBridge::new();
    b.connect();
    assert!(b.registered(Category::Track, 1).is_empty());
    assert!(b.registered(Category::Controls, 2).is_empty());
    assert!(b.registered(Category::Timeline, 3).is_empty());
    assert!(b.registered(Category::Identity, 4).is_empty());
    b
}

#[test]
fn connect_reads_full_snapshot_then_registers() {
    let mut b = SessionBridge::new();
    assert_eq!(b.phase(), Phase::Uninitialized);
    let acts = b.connect();
    let mut expected = full_reads();
    expected.extend(full_registration());
    assert_eq!(acts, expected);
    assert_eq!(b.phase(), Phase::Active);
    // each of the three snapshots goes out exactly once
    assert!(b.offer_track(&key("Song", "Band", true)));
    assert!(b.offer_controls(&controls(true)));
    assert!(b.offer_timeline());
    // a second connect does nothing
    assert!(b.connect().is_empty());
}

#[test]
fn pushes_before_connect_are_ignored() {
    let mut b = SessionBridge::new();
    assert!(b.push(Category::Track).is_empty());
    assert!(b.push(Category::Identity).is_empty());
    assert!(!b.offer_track(&key("Song", "Band", true)));
    assert!(!b.offer_timeline());
}

#[test]
fn data_push_reads_its_category() {
    let mut b = active_bridge();
    assert_eq!(b.push(Category::Track), vec![Action::Read(Category::Track)]);
    assert_eq!(b.push(Category::Controls), vec![Action::Read(Category::Controls)]);
    assert_eq!(b.push(Category::Timeline), vec![Action::Read(Category::Timeline)]);
}

#[test]
fn session_change_tears_down_rebuilds_and_resends() {
    let mut b = active_bridge();
    assert!(b.offer_track(&key("Song", "Band", true)));
    assert!(b.offer_controls(&controls(true)));
    let acts = b.push(Category::Identity);
    let mut expected = vec![
        Action::Release(Category::Track, 1),
        Action::Release(Category::Controls, 2),
        Action::Release(Category::Timeline, 3),
        Action::Release(Category::Identity, 4),
    ];
    expected.extend(full_registration());
    expected.extend(full_reads());
    assert_eq!(acts, expected);
    assert_eq!(b.token(Category::Track), None);
    // the same values as before the change are sent again
    assert!(b.offer_track(&key("Song", "Band", true)));
    assert!(b.offer_controls(&controls(true)));
}

#[test]
fn session_change_with_partial_registrations() {
    let mut b = SessionBridge::new();
    b.connect();
    // only the controls registration succeeded
    b.registered(Category::Controls, 7);
    let acts = b.push(Category::Identity);
    let mut expected = vec![Action::Release(Category::Controls, 7)];
    expected.extend(full_registration());
    expected.extend(full_reads());
    assert_eq!(acts, expected);
}

#[test]
fn reregistration_releases_prior_token() {
    let mut b = active_bridge();
    assert_eq!(b.registered(Category::Track, 9), vec![Action::Release(Category::Track, 1)]);
    assert_eq!(b.token(Category::Track), Some(9));
}

#[test]
fn disconnect_releases_everything_once() {
    let mut b = active_bridge();
    let acts = b.disconnect();
    assert_eq!(
        acts,
        vec![
            Action::Release(Category::Track, 1),
            Action::Release(Category::Controls, 2),
            Action::Release(Category::Timeline, 3),
            Action::Release(Category::Identity, 4),
        ]
    );
    assert_eq!(b.phase(), Phase::Disposed);
    assert!(b.disconnect().is_empty());
}

#[test]
fn nothing_is_sent_after_disconnect() {
    let mut b = active_bridge();
    b.disconnect();
    assert!(b.push(Category::Track).is_empty());
    assert!(b.push(Category::Identity).is_empty());
    assert!(!b.offer_track(&key("Other", "Band", false)));
    assert!(!b.offer_controls(&controls(false)));
    assert!(!b.offer_timeline());
    assert!(b.refresh(Refresh::Full).is_empty());
    assert_eq!(b.command(Command::NextTrack), Ok(vec![]));
    assert!(b.connect().is_empty());
}

#[test]
fn registration_landing_after_disconnect_is_undone() {
    let mut b = SessionBridge::new();
    b.connect();
    b.disconnect();
    assert_eq!(b.registered(Category::Timeline, 5), vec![Action::Release(Category::Timeline, 5)]);
    assert_eq!(b.token(Category::Timeline), None);
}

#[test]
fn unchanged_snapshots_are_not_resent() {
    let mut b = active_bridge();
    assert!(b.offer_track(&key("Song", "Band", true)));
    assert!(!b.offer_track(&key("Song", "Band", true)));
    assert!(b.offer_track(&key("Song", "Band", false)));
    assert!(b.offer_controls(&controls(true)));
    assert!(!b.offer_controls(&controls(true)));
    assert!(b.offer_controls(&controls(false)));
    assert!(b.offer_timeline());
    assert!(b.offer_timeline());
}

#[test]
fn transport_commands_schedule_refresh() {
    let mut b = active_bridge();
    assert_eq!(
        b.command(Command::TogglePlayPause),
        Ok(vec![
            Action::Transport(Transport::TogglePlayPause),
            Action::Schedule(PLAY_PAUSE_SETTLE_MS, Refresh::Full)
        ])
    );
    assert_eq!(
        b.command(Command::NextTrack),
        Ok(vec![
            Action::Transport(Transport::SkipNext),
            Action::Schedule(COMMAND_SETTLE_MS, Refresh::Full)
        ])
    );
    assert_eq!(
        b.command(Command::PreviousTrack),
        Ok(vec![
            Action::Transport(Transport::SkipPrevious),
            Action::Schedule(COMMAND_SETTLE_MS, Refresh::Full)
        ])
    );
    assert_eq!(
        b.command(Command::ToggleShuffle),
        Ok(vec![
            Action::Transport(Transport::ToggleShuffle),
            Action::Schedule(COMMAND_SETTLE_MS, Refresh::Full)
        ])
    );
    assert_eq!(b.refresh(Refresh::Full), full_reads());
    assert_eq!(b.refresh(Refresh::Timeline), vec![Action::Read(Category::Timeline)]);
}

#[test]
fn seek_converts_to_provider_units_and_defers_emission() {
    let mut b = active_bridge();
    let acts = b.command(Command::Seek(SeekPosition { position: 5000 })).unwrap();
    assert_eq!(
        acts,
        vec![
            Action::Transport(Transport::SeekTo(50_000_000)),
            Action::Schedule(COMMAND_SETTLE_MS, Refresh::Timeline)
        ]
    );
    assert!(!acts.iter().any(|a| matches!(a, Action::Emit(_) | Action::Read(_))));
    // after the settle delay the timeline is read and sent
    assert_eq!(b.refresh(Refresh::Timeline), vec![Action::Read(Category::Timeline)]);
    assert!(b.offer_timeline());
}

#[test]
fn seek_out_of_range_is_refused() {
    let mut b = active_bridge();
    assert_eq!(
        b.command(Command::Seek(SeekPosition { position: u64::MAX })),
        Err(CommandError::SeekOutOfRange)
    );
}

#[test]
fn invalid_repeat_mode_does_nothing_and_blocks_nothing() {
    let mut b = active_bridge();
    assert_eq!(b.set_repeat_mode("shuffle"), Err(CommandError::InvalidRepeatMode));
    assert_eq!(b.set_repeat_mode(""), Err(CommandError::InvalidRepeatMode));
    assert_eq!(b.set_repeat_mode("Track"), Err(CommandError::InvalidRepeatMode));
    assert_eq!(
        b.set_repeat_mode("list"),
        Ok(vec![
            Action::Transport(Transport::SetRepeatMode(AutoRepeatMode::List)),
            Action::Schedule(COMMAND_SETTLE_MS, Refresh::Full)
        ])
    );
    assert_eq!(
        b.command(Command::TogglePlayPause),
        Ok(vec![
            Action::Transport(Transport::TogglePlayPause),
            Action::Schedule(PLAY_PAUSE_SETTLE_MS, Refresh::Full)
        ])
    );
}

#[test]
fn get_media_details_resends_track() {
    let mut b = active_bridge();
    assert!(b.offer_track(&key("Song", "Band", true)));
    assert_eq!(b.command(Command::GetMediaDetails), Ok(vec![Action::Read(Category::Track)]));
    assert!(b.offer_track(&key("Song", "Band", true)));
}
