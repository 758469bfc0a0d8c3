//! The command processor of a streaming player: one actor that owns at most
//! one session, one playback engine and one volume mixer, and decides, command
//! by command, what is to be done with them and what its delegate is told.
//!
//! The library decides; it performs no I/O. Each step takes the actor's state
//! and what has just happened, and gives the next state and the actions to
//! perform. The surrounding program performs the actions (connecting, fetching
//! a token, driving the playback engine) and hands the outcomes back.

pub mod delegate;
pub mod error;
pub mod laws;
pub mod mixer;
pub mod player;
pub mod session;
pub mod settings;

pub use delegate::{
    bridge_event, deliver, Credentials, Notification, PlayerEvent, SpotifyPlayerDelegate,
};
pub use error::SpotifyError;
pub use player::{Action, AudioType, Command, Phase, PlayerConfig, SpotifyPlayer, TrackId};
pub use session::{
    after_attempt, client_id, expiry_time, known_ap_port, scopes, ConnectOutcome, LoginCredentials,
    SessionInfo, Timestamp, TokenOutcome, Verdict,
};
pub use settings::{AudioBackend, Bitrate, SpotifyPlayerSettings};
