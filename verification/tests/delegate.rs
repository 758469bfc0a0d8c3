use std::cell::RefCell;

use spot_player::{
    bridge_event, deliver, Credentials, Notification, PlayerEvent, SpotifyError,
    SpotifyPlayerDelegate, Timestamp,
};

struct Recorder {
    calls: RefCell<Vec<String>>,
}

impl Recorder {
    fn new() -> Self {
        Recorder { calls: RefCell::new(Vec::new()) }
    }
}

impl SpotifyPlayerDelegate for Recorder {
    fn end_of_track_reached(&self) {
        self.calls.borrow_mut().push("end_of_track_reached".to_string());
    }

    fn password_login_successful(&self, credentials: Credentials) {
        self.calls.borrow_mut().push(format!(
            "password_login_successful {} {} {} {:?} {}",
            credentials.username,
            credentials.password,
            credentials.token,
            credentials.token_expiry_time,
            credentials.country
        ));
    }

    fn token_login_successful(&self, username: String, token: String) {
        self.calls.borrow_mut().push(format!("token_login_successful {} {}", username, token));
    }

    fn refresh_successful(&self, token: String, token_expiry_time: Timestamp) {
        self.calls.borrow_mut().push(format!(
            "refresh_successful {} {}.{}",
            token, token_expiry_time.secs, token_expiry_time.nanos
        ));
    }

    fn report_error(&self, error: SpotifyError) {
        self.calls.borrow_mut().push(format!("report_error {:?}", error));
    }

    fn notify_playback_state(&self, position: u32) {
        self.calls.borrow_mut().push(format!("notify_playback_state {}", position));
    }
}

#[test]
fn end_of_track_and_stop_both_end_the_track() {
    assert_eq!(bridge_event(PlayerEvent::EndOfTrack), Some(Notification::EndOfTrackReached));
    assert_eq!(bridge_event(PlayerEvent::Stopped), Some(Notification::EndOfTrackReached));
}

#[test]
fn playing_reports_the_position() {
    assert_eq!(
        bridge_event(PlayerEvent::Playing { position_ms: 12_345 }),
        Some(Notification::NotifyPlaybackState(12_345))
    );
    assert_eq!(
        bridge_event(PlayerEvent::Playing { position_ms: 0 }),
        Some(Notification::NotifyPlaybackState(0))
    );
}

#[test]
fn other_events_are_ignored() {
    let ignored = vec![
        PlayerEvent::Started,
        PlayerEvent::Changed,
        PlayerEvent::Loading,
        PlayerEvent::Preloading,
        PlayerEvent::Paused,
        PlayerEvent::TimeToPreloadNextTrack,
        PlayerEvent::Unavailable,
        PlayerEvent::VolumeSet,
    ];
    for event in ignored {
        assert_eq!(bridge_event(event), None);
    }
}

#[test]
fn deliver_makes_the_matching_call() {
    let recorder = Recorder::new();
    deliver(&recorder, Notification::EndOfTrackReached);
    deliver(
        &recorder,
        Notification::PasswordLoginSuccessful(Credentials {
            username: "bob".to_string(),
            password: "pw".to_string(),
            token: "tok".to_string(),
            token_expiry_time: Some(Timestamp { secs: 5, nanos: 6 }),
            country: "FR".to_string(),
        }),
    );
    deliver(
        &recorder,
        Notification::TokenLoginSuccessful { username: "alice".to_string(), token: "tok123".to_string() },
    );
    deliver(
        &recorder,
        Notification::RefreshSuccessful {
            token: "fresh".to_string(),
            token_expiry_time: Timestamp { secs: 160, nanos: 1 },
        },
    );
    deliver(&recorder, Notification::ReportError(SpotifyError::PlayerNotReady));
    deliver(&recorder, Notification::NotifyPlaybackState(77));
    let calls = recorder.calls.borrow().clone();
    assert_eq!(
        calls,
        vec![
            "end_of_track_reached".to_string(),
            "password_login_successful bob pw tok Some(Timestamp { secs: 5, nanos: 6 }) FR".to_string(),
            "token_login_successful alice tok123".to_string(),
            "refresh_successful fresh 160.1".to_string(),
            "report_error PlayerNotReady".to_string(),
            "notify_playback_state 77".to_string(),
        ]
    );
}

#[test]
fn deliver_works_through_a_trait_object() {
    let recorder = Recorder::new();
    {
        let delegate: &dyn SpotifyPlayerDelegate = &recorder;
        deliver(delegate, Notification::ReportError(SpotifyError::LoginFailed));
    }
    assert_eq!(recorder.calls.borrow().clone(), vec!["report_error LoginFailed".to_string()]);
}
