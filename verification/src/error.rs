use vstd::prelude::*;

verus! {

/// The three ways in which a command can fail. Every lower-level failure is
/// mapped to one of them before it is reported.
#[derive(Debug, Clone, Copy, PartialEq, Eq, Structural)]
pub enum SpotifyError {
    /// No session could be established: every endpoint failed, or the
    /// credentials were rejected.
    LoginFailed,
    /// The access token could not be obtained.
    TokenFailed,
    /// The command needs a session or a player, and there is none.
    PlayerNotReady,
}

impl SpotifyError {
    /// The text of the message that describes this error.
    pub open spec fn message_text(self) -> Seq<char> {
        match self {
            SpotifyError::LoginFailed => "Login failed!"@,
            SpotifyError::TokenFailed => "Token retrieval failed!"@,
            SpotifyError::PlayerNotReady => "Player is not responding."@,
        }
    }

    /// The message that describes this error to a user.
    pub fn message(&self) -> (text: String)
        ensures
            text@ == self.message_text(),
    {
        match self {
            SpotifyError::LoginFailed => "Login failed!".to_owned(),
            SpotifyError::TokenFailed => "Token retrieval failed!".to_owned(),
            SpotifyError::PlayerNotReady => "Player is not responding.".to_owned(),
        }
    }
}

} // verus!
