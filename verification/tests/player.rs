use channel::player::{BackendAction, Player, PlayerCommand, PlayerError, Track};

fn track(id: u64, file: &str) -> Track {
    Track {
        id,
        track: id as u8,
        title: String::from("title"),
        artist: String::from("artist"),
        album: String::from("album"),
        file: String::from(file),
    }
}

#[test]
fn test_play_on_empty_queue_is_noop() {
    let mut p = Player::new(false);
    let actions = p.play().unwrap();
    // The backend is never instructed to start.
    assert!(actions.is_empty());
    assert!(!p.is_playing());
}

#[test]
fn test_play_starts_current_track() {
    let mut p = Player::new(false);
    p.queue(&track(1, "file:///one.ogg"));
    assert!(!p.is_playing());
    let actions = p.play().unwrap();
    assert_eq!(
        actions,
        vec![
            BackendAction::Queue(String::from("file:///one.ogg")),
            BackendAction::Start,
        ]
    );
    assert!(p.is_playing());
}

#[test]
fn test_play_while_playing_is_refused() {
    let mut p = Player::new(false);
    p.queue(&track(1, "file:///one.ogg"));
    p.play().unwrap();
    assert_eq!(p.play(), Err(PlayerError::AlreadyPlaying));
}

#[test]
fn test_stop_is_noop_when_not_playing() {
    let mut p = Player::new(false);
    assert!(p.stop().is_empty());
    p.queue(&track(1, "file:///one.ogg"));
    p.play().unwrap();
    assert_eq!(p.stop(), vec![BackendAction::Stop]);
    // A second stop has nothing left to do.
    assert!(p.stop().is_empty());
}

#[test]
fn test_pause_is_unconditional() {
    let mut p = Player::new(false);
    assert_eq!(p.pause(), vec![BackendAction::Pause]);
    assert_eq!(p.pause(), vec![BackendAction::Pause]);
}

#[test]
fn test_next_track_at_end_not_looping_stays_stopped() {
    let mut p = Player::new(false);
    p.queue(&track(1, "file:///one.ogg"));
    p.queue(&track(2, "file:///two.ogg"));
    p.play().unwrap();
    let actions = p.next_track();
    assert_eq!(
        actions,
        vec![
            BackendAction::Stop,
            BackendAction::Queue(String::from("file:///two.ogg")),
            BackendAction::Start,
        ]
    );
    // Now at the last track: advancing again stops playback and the cursor
    // keeps its last valid position.
    let actions = p.next_track();
    assert_eq!(actions, vec![BackendAction::Stop]);
    assert!(!p.is_playing());
    assert_eq!(p.current_track().unwrap().id, 2);
}

#[test]
fn test_next_track_at_end_looping_restarts_from_first() {
    let mut p = Player::new(true);
    p.queue(&track(1, "file:///one.ogg"));
    p.queue(&track(2, "file:///two.ogg"));
    p.play().unwrap();
    p.next_track();
    let actions = p.next_track();
    assert_eq!(
        actions,
        vec![
            BackendAction::Stop,
            BackendAction::Queue(String::from("file:///one.ogg")),
            BackendAction::Start,
        ]
    );
    assert!(p.is_playing());
    assert_eq!(p.current_track().unwrap().id, 1);
}

#[test]
fn test_previous_track_at_first_restarts_current() {
    let mut p = Player::new(false);
    p.queue(&track(1, "file:///one.ogg"));
    p.play().unwrap();
    let actions = p.previous_track();
    // The current track is restarted from the beginning, not skipped.
    assert_eq!(
        actions,
        vec![
            BackendAction::Stop,
            BackendAction::Queue(String::from("file:///one.ogg")),
            BackendAction::Start,
        ]
    );
    assert!(p.is_playing());
    assert_eq!(p.current_track().unwrap().id, 1);
}

#[test]
fn test_previous_track_moves_back_one() {
    let mut p = Player::new(false);
    p.queue(&track(1, "file:///one.ogg"));
    p.queue(&track(2, "file:///two.ogg"));
    p.play().unwrap();
    p.next_track();
    assert_eq!(p.current_track().unwrap().id, 2);
    p.previous_track();
    assert_eq!(p.current_track().unwrap().id, 1);
    assert!(p.is_playing());
}

#[test]
fn test_queue_has_no_playback_side_effect() {
    let mut p = Player::new(false);
    p.queue(&track(1, "file:///one.ogg"));
    assert!(!p.is_playing());
    assert_eq!(p.current_track().unwrap().id, 1);
}

#[test]
fn test_handle_command_round() {
    let mut p = Player::new(false);
    let o = p.handle_command(PlayerCommand::Queue(track(1, "file:///one.ogg"))).unwrap();
    assert!(o.actions.is_empty());
    assert!(!o.halt);

    let o = p.handle_command(PlayerCommand::Play).unwrap();
    assert_eq!(
        o.actions,
        vec![
            BackendAction::Queue(String::from("file:///one.ogg")),
            BackendAction::Start,
        ]
    );
    assert!(!o.halt);

    // A second explicit start is a contract violation.
    assert!(p.handle_command(PlayerCommand::Play).is_err());

    let o = p.handle_command(PlayerCommand::Pause).unwrap();
    assert_eq!(o.actions, vec![BackendAction::Pause]);

    let o = p.handle_command(PlayerCommand::Kill).unwrap();
    assert!(o.halt);
}

#[test]
fn test_kill_stops_a_playing_backend() {
    let mut p = Player::new(false);
    p.queue(&track(1, "file:///one.ogg"));
    p.play().unwrap();
    let o = p.handle_command(PlayerCommand::Kill).unwrap();
    // Shutdown is clean: the backend is stopped before the loop ends.
    assert_eq!(o.actions, vec![BackendAction::Stop]);
    assert!(o.halt);
    assert!(!p.is_playing());
}
