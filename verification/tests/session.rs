use spot_player::{
    after_attempt, client_id, expiry_time, known_ap_port, scopes, AudioBackend, Bitrate,
    ConnectOutcome, SessionInfo, SpotifyError, SpotifyPlayerSettings, Timestamp, TokenOutcome,
    Verdict,
};

fn alice() -> SessionInfo {
    SessionInfo { username: "alice".to_string(), country: "DE".to_string() }
}

#[test]
fn known_endpoints_are_default_then_three_ports() {
    assert_eq!(known_ap_port(0), Some(None));
    assert_eq!(known_ap_port(1), Some(Some(80)));
    assert_eq!(known_ap_port(2), Some(Some(443)));
    assert_eq!(known_ap_port(3), Some(Some(4070)));
    assert_eq!(known_ap_port(4), None);
    assert_eq!(known_ap_port(usize::MAX), None);
}

#[test]
fn success_ends_the_search() {
    assert_eq!(after_attempt(None, 0, ConnectOutcome::Connected(alice())), Verdict::Established(alice()));
    assert_eq!(after_attempt(None, 3, ConnectOutcome::Connected(alice())), Verdict::Established(alice()));
    assert_eq!(after_attempt(Some(80), 0, ConnectOutcome::Connected(alice())), Verdict::Established(alice()));
}

#[test]
fn broken_endpoint_leads_to_the_next_one() {
    assert_eq!(after_attempt(None, 0, ConnectOutcome::IoError), Verdict::Retry(Some(80)));
    assert_eq!(after_attempt(None, 1, ConnectOutcome::IoError), Verdict::Retry(Some(443)));
    assert_eq!(after_attempt(None, 2, ConnectOutcome::IoError), Verdict::Retry(Some(4070)));
    assert_eq!(after_attempt(None, 3, ConnectOutcome::IoError), Verdict::Failed(SpotifyError::LoginFailed));
    assert_eq!(
        after_attempt(None, usize::MAX, ConnectOutcome::IoError),
        Verdict::Failed(SpotifyError::LoginFailed)
    );
}

#[test]
fn broken_fixed_endpoint_fails_the_login() {
    assert_eq!(after_attempt(Some(443), 0, ConnectOutcome::IoError), Verdict::Failed(SpotifyError::LoginFailed));
}

#[test]
fn rejection_fails_the_login_on_any_attempt() {
    for attempt in 0..4 {
        assert_eq!(
            after_attempt(None, attempt, ConnectOutcome::AuthenticationError),
            Verdict::Failed(SpotifyError::LoginFailed)
        );
    }
    assert_eq!(
        after_attempt(Some(80), 0, ConnectOutcome::AuthenticationError),
        Verdict::Failed(SpotifyError::LoginFailed)
    );
}

#[test]
fn expiry_is_arrival_plus_lifetime() {
    let now = Timestamp { secs: 1_000, nanos: 7 };
    assert_eq!(expiry_time(now, 3600), Timestamp { secs: 4_600, nanos: 7 });
    assert_eq!(expiry_time(now, 0), now);
    assert_eq!(
        expiry_time(Timestamp { secs: u64::MAX - 5, nanos: 0 }, 5),
        Timestamp { secs: u64::MAX, nanos: 0 }
    );
}

#[test]
fn token_requests_use_fixed_identity_and_scopes() {
    assert_eq!(client_id(), "782ae96ea60f4cdf986a766049607005");
    let list = scopes();
    let parts: Vec<&str> = list.split(',').collect();
    assert_eq!(
        parts,
        vec![
            "user-read-private",
            "playlist-read-private",
            "playlist-read-collaborative",
            "user-library-read",
            "user-library-modify",
            "user-top-read",
            "user-read-recently-played",
            "playlist-modify-public",
            "playlist-modify-private",
            "streaming",
        ]
    );
}

#[test]
fn default_settings() {
    let settings = SpotifyPlayerSettings::default();
    assert_eq!(settings.bitrate, Bitrate::Bitrate160);
    assert_eq!(settings.backend, AudioBackend::PulseAudio);
    assert_eq!(settings.ap_port, None);
}

#[test]
fn error_messages() {
    assert_eq!(SpotifyError::LoginFailed.message(), "Login failed!");
    assert_eq!(SpotifyError::TokenFailed.message(), "Token retrieval failed!");
    assert_eq!(SpotifyError::PlayerNotReady.message(), "Player is not responding.");
}

#[test]
fn outputs_are_opened_by_name_and_device() {
    assert_eq!(AudioBackend::PulseAudio.into_sink(), ("pulseaudio".to_string(), None));
    assert_eq!(
        AudioBackend::Alsa("hw:0,1".to_string()).into_sink(),
        ("alsa".to_string(), Some("hw:0,1".to_string()))
    );
}

#[test]
fn token_outcome_fits_unless_expiry_overflows() {
    let late = Timestamp { secs: u64::MAX - 10, nanos: 0 };
    assert!(TokenOutcome::Failed.fits());
    assert!(TokenOutcome::Fetched { access_token: "t".to_string(), expires_in: 10, now: late }.fits());
    assert!(!TokenOutcome::Fetched { access_token: "t".to_string(), expires_in: 11, now: late }.fits());
}
