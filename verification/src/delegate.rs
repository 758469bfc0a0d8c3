use vstd::prelude::*;

use crate::error::SpotifyError;
use crate::session::Timestamp;

verus! {

/// What the delegate is handed after a login by password. This is the one
/// place where the password leaves the actor.
#[derive(Debug, Clone, PartialEq, Eq)]
pub struct Credentials {
    pub username: String,
    pub password: String,
    pub token: String,
    pub token_expiry_time: Option<Timestamp>,
    pub country: String,
}

/// One call of the delegate, as a value.
#[derive(Debug, Clone, PartialEq, Eq)]
pub enum Notification {
    EndOfTrackReached,
    PasswordLoginSuccessful(Credentials),
    TokenLoginSuccessful { username: String, token: String },
    RefreshSuccessful { token: String, token_expiry_time: Timestamp },
    ReportError(SpotifyError),
    NotifyPlaybackState(u32),
}

/// The sink for what the actor and its players report. Every method returns
/// at once and cannot fail.
pub trait SpotifyPlayerDelegate {
    fn end_of_track_reached(&self);

    fn password_login_successful(&self, credentials: Credentials);

    fn token_login_successful(&self, username: String, token: String);

    fn refresh_successful(&self, token: String, token_expiry_time: Timestamp);

    fn report_error(&self, error: SpotifyError);

    fn notify_playback_state(&self, position: u32);
}

/// Makes the call of `delegate` that `notification` stands for.
pub fn deliver<D: SpotifyPlayerDelegate + ?Sized>(delegate: &D, notification: Notification) {
    match notification {
        Notification::EndOfTrackReached => delegate.end_of_track_reached(),
        Notification::PasswordLoginSuccessful(credentials) => delegate.password_login_successful(
            credentials,
        ),
        Notification::TokenLoginSuccessful { username, token } => delegate.token_login_successful(
            username,
            token,
        ),
        Notification::RefreshSuccessful { token, token_expiry_time } => delegate.refresh_successful(
            token,
            token_expiry_time,
        ),
        Notification::ReportError(error) => delegate.report_error(error),
        Notification::NotifyPlaybackState(position) => delegate.notify_playback_state(position),
    }
}

/// What a playback engine reports, as far as the actor tells the kinds
/// apart.
#[derive(Debug, Clone, Copy, PartialEq, Eq, Structural)]
pub enum PlayerEvent {
    Stopped,
    Started,
    Changed,
    Loading,
    Preloading,
    Playing { position_ms: u32 },
    Paused,
    TimeToPreloadNextTrack,
    EndOfTrack,
    Unavailable,
    VolumeSet,
}

/// What the delegate is told of an event of the playback engine: the end of
/// a track, whether it ran out or was stopped, and the position while
/// playing. Of the other kinds it is told nothing.
pub open spec fn bridged(event: PlayerEvent) -> Option<Notification> {
    match event {
        PlayerEvent::EndOfTrack | PlayerEvent::Stopped => Some(Notification::EndOfTrackReached),
        PlayerEvent::Playing { position_ms } => Some(Notification::NotifyPlaybackState(position_ms)),
        _ => None,
    }
}

/// Reduces an event of the playback engine to what the delegate is told of
/// it, if anything.
pub fn bridge_event(event: PlayerEvent) -> (notification: Option<Notification>)
    ensures
        notification == bridged(event),
{
    match event {
        PlayerEvent::EndOfTrack | PlayerEvent::Stopped => Some(Notification::EndOfTrackReached),
        PlayerEvent::Playing { position_ms } => Some(Notification::NotifyPlaybackState(position_ms)),
        _ => None,
    }
}

} // verus!
