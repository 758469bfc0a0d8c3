use vstd::prelude::*;

use crate::delegate::{Credentials, Notification};
use crate::error::SpotifyError;
use crate::mixer::{max_volume, max_volume_level};
use crate::session::{
    after_attempt, client_id, client_id_text, expiry, expiry_time, first_endpoint, known_ap_ports,
    scopes, scopes_text, verdict, ConnectOutcome, LoginCredentials, SessionInfo, TokenOutcome,
    Verdict,
};
use crate::settings::{AudioBackend, Bitrate, SpotifyPlayerSettings};

verus! {

/// The kind of audio that an id names.
#[derive(Debug, Clone, Copy, PartialEq, Eq, Structural)]
pub enum AudioType {
    Track,
    Podcast,
    NonPlayable,
}

/// The id of something to load: a 128-bit number and the kind of audio it
/// names.
#[derive(Debug, Clone, Copy, PartialEq, Eq, Structural)]
pub struct TrackId {
    pub id: u128,
    pub audio_type: AudioType,
}

/// The commands that the actor takes: its whole interface.
#[derive(Debug, Clone, PartialEq, Eq)]
pub enum Command {
    /// Set the volume to this level of the mixer's integer scale.
    PlayerSetVolume(u16),
    PlayerResume,
    PlayerPause,
    PlayerStop,
    /// Seek to this position, in milliseconds.
    PlayerSeek(u32),
    /// Load the track of this id and play it from its start.
    PlayerLoad(TrackId),
    RefreshToken,
    Logout,
    PasswordLogin { username: String, password: String },
    TokenLogin { username: String, token: String },
    /// Rebuild the player from these settings, freshly read.
    ReloadSettings(SpotifyPlayerSettings),
}

/// What a player is built with.
#[derive(Debug, PartialEq, Eq)]
pub struct PlayerConfig {
    pub bitrate: Bitrate,
    pub backend: AudioBackend,
}

impl Clone for PlayerConfig {
    fn clone(&self) -> (copy: Self)
        ensures
            copy == *self,
    {
        PlayerConfig { bitrate: self.bitrate, backend: self.backend.clone() }
    }
}

/// What the actor asks of the program around it. The actions of one step are
/// performed in their order.
#[derive(Debug, Clone, PartialEq, Eq)]
pub enum Action {
    /// Set the mixer to this level.
    SetMixerVolume(u16),
    Play,
    Pause,
    Stop,
    Seek(u32),
    Load { track: TrackId, start_playing: bool, position_ms: u32 },
    /// Try to connect to this endpoint (`None`: the service's default) and
    /// hand the outcome to `connect_finished`.
    Connect { credentials: LoginCredentials, ap_port: Option<u16> },
    /// Make the session that has just been connected the current one; the
    /// one before it, if any, is let go.
    InstallSession,
    /// Request an access token over the current session, under this client
    /// identity and for these permissions, and hand the outcome to
    /// `token_finished`.
    FetchToken { client_id: &'static str, scopes: &'static str },
    /// Shut the current session down and let it go.
    ShutdownSession,
    /// Let the current player go.
    DropPlayer,
    /// Build a player on the current session, put it in the place of the
    /// current one, and start forwarding its events to the delegate. Where
    /// `open_mixer` holds a level, no mixer exists yet: open one first and
    /// set it to that level.
    CreatePlayer { config: PlayerConfig, open_mixer: Option<u16> },
    /// Make this call of the delegate.
    Notify(Notification),
}

/// What the actor is waiting for.
#[derive(Debug, Clone, PartialEq, Eq)]
pub enum Phase {
    /// The next command.
    Idle,
    /// The outcome of attempt number `attempt` (from 0) to connect.
    Connecting { credentials: LoginCredentials, attempt: usize },
    /// The outcome of a token request: for a login by this password, or
    /// else for a refresh.
    FetchingToken { login: Option<String> },
}

/// The actor's state: the settings, what is known of the session and of the
/// player if there is one, and the mixer's level once a mixer exists.
#[derive(Debug, Clone, PartialEq, Eq)]
pub struct SpotifyPlayer {
    pub settings: SpotifyPlayerSettings,
    pub player: Option<PlayerConfig>,
    pub mixer: Option<u16>,
    pub session: Option<SessionInfo>,
    pub phase: Phase,
}

/// The request for an access token: always under the same client identity
/// and for the same permissions.
pub open spec fn token_request() -> Action {
    Action::FetchToken { client_id: client_id_text(), scopes: scopes_text() }
}

/// The report that a command found no session or player to work on.
pub open spec fn not_ready() -> Seq<Action> {
    seq![Action::Notify(Notification::ReportError(SpotifyError::PlayerNotReady))]
}

impl Command {
    /// Whether the command works on the session or the player, and so fails
    /// where there is neither.
    pub open spec fn needs_session(self) -> bool {
        match self {
            Command::PlayerSetVolume(_) => false,
            Command::PasswordLogin { .. } => false,
            Command::TokenLogin { .. } => false,
            _ => true,
        }
    }
}

impl SpotifyPlayer {
    /// What holds of every state that the actor reaches: a player exists
    /// only with a session and a mixer; a session is without a player only
    /// while a login waits for its token; the attempt that is under way is
    /// one of the known endpoints, and the first one where the endpoint is
    /// fixed.
    pub open spec fn inv(self) -> bool {
        &&& self.player is Some ==> self.session is Some && self.mixer is Some
        &&& match self.phase {
            Phase::Idle => self.session is Some ==> self.player is Some,
            Phase::Connecting { attempt, .. } => {
                &&& self.session is Some ==> self.player is Some
                &&& attempt < known_ap_ports().len()
                &&& self.settings.ap_port is Some ==> attempt == 0
            },
            Phase::FetchingToken { login } => {
                &&& self.session is Some
                &&& login is None ==> self.player is Some
            },
        }
    }

    /// The configuration of a player built now.
    pub open spec fn player_config(self) -> PlayerConfig {
        PlayerConfig { bitrate: self.settings.bitrate, backend: self.settings.backend }
    }

    /// The action that builds a player now. The mixer is opened, at its
    /// highest level, only where none exists.
    pub open spec fn create_player_action(self) -> Action {
        Action::CreatePlayer {
            config: self.player_config(),
            open_mixer: if self.mixer is None {
                Some(max_volume_level())
            } else {
                None
            },
        }
    }

    /// The state once a mixer is sure to exist: the one that was there, or
    /// a new one at its highest level. Nothing else differs.
    pub open spec fn with_mixer(self) -> SpotifyPlayer {
        SpotifyPlayer {
            mixer: Some(
                match self.mixer {
                    Some(level) => level,
                    None => max_volume_level(),
                },
            ),
            ..self
        }
    }

    /// The state once a player has been built from the settings and put in
    /// the place of the one before it.
    pub open spec fn with_new_player(self) -> SpotifyPlayer {
        SpotifyPlayer { player: Some(self.player_config()), ..self.with_mixer() }
    }

    /// This state, waiting for the next command.
    pub open spec fn idle(self) -> SpotifyPlayer {
        SpotifyPlayer { phase: Phase::Idle, ..self }
    }

    /// What a transport command leads to: the action, or the report that
    /// there is no player.
    pub open spec fn to_player(self, action: Action) -> Seq<Action> {
        if self.player is Some {
            seq![action]
        } else {
            not_ready()
        }
    }

    /// The start of a login: the first attempt to connect.
    pub open spec fn connecting(self, credentials: LoginCredentials) -> (SpotifyPlayer, Seq<Action>) {
        (
            SpotifyPlayer { phase: Phase::Connecting { credentials, attempt: 0 }, ..self },
            seq![Action::Connect { credentials, ap_port: first_endpoint(self.settings.ap_port) }],
        )
    }

    /// The state after `command`, and the actions it leads to.
    pub open spec fn handled(self, command: Command) -> (SpotifyPlayer, Seq<Action>) {
        match command {
            Command::PlayerSetVolume(level) => if self.mixer is Some {
                (SpotifyPlayer { mixer: Some(level), ..self }, seq![Action::SetMixerVolume(level)])
            } else {
                (self, Seq::empty())
            },
            Command::PlayerResume => (self, self.to_player(Action::Play)),
            Command::PlayerPause => (self, self.to_player(Action::Pause)),
            Command::PlayerStop => (self, self.to_player(Action::Stop)),
            Command::PlayerSeek(position) => (self, self.to_player(Action::Seek(position))),
            Command::PlayerLoad(track) => (
                self,
                self.to_player(Action::Load { track, start_playing: true, position_ms: 0 }),
            ),
            Command::RefreshToken => if self.session is Some {
                (
                    SpotifyPlayer { phase: Phase::FetchingToken { login: None }, ..self },
                    seq![token_request()],
                )
            } else {
                (self, not_ready())
            },
            Command::Logout => if self.session is Some {
                (
                    SpotifyPlayer { session: None, player: None, ..self },
                    seq![Action::ShutdownSession, Action::DropPlayer],
                )
            } else {
                (self, not_ready())
            },
            Command::PasswordLogin { username, password } => self.connecting(
                LoginCredentials::Password { username, password },
            ),
            Command::TokenLogin { username, token } => self.connecting(
                LoginCredentials::Token { username, token },
            ),
            Command::ReloadSettings(settings) => if self.session is Some {
                let reloaded = SpotifyPlayer { settings, ..self };
                (reloaded.with_new_player(), seq![reloaded.create_player_action()])
            } else {
                (self, not_ready())
            },
        }
    }

    /// The state after an attempt to connect ended in `outcome`, and the
    /// actions that follow. A login by token is complete with the session;
    /// a login by password goes on to fetch a token.
    pub open spec fn connected(self, outcome: ConnectOutcome) -> (SpotifyPlayer, Seq<Action>) {
        match self.phase {
            Phase::Connecting { credentials, attempt } => match verdict(
                self.settings.ap_port,
                attempt as nat,
                outcome,
            ) {
                Verdict::Retry(ap_port) => (
                    SpotifyPlayer {
                        phase: Phase::Connecting { credentials, attempt: (attempt + 1) as usize },
                        ..self
                    },
                    seq![Action::Connect { credentials, ap_port }],
                ),
                Verdict::Failed(error) => (
                    self.idle(),
                    seq![Action::Notify(Notification::ReportError(error))],
                ),
                Verdict::Established(session) => {
                    let entered = SpotifyPlayer { session: Some(session), ..self };
                    match credentials {
                        LoginCredentials::Password { password, .. } => (
                            SpotifyPlayer {
                                phase: Phase::FetchingToken { login: Some(password) },
                                ..entered
                            },
                            seq![Action::InstallSession, token_request()],
                        ),
                        LoginCredentials::Token { token, .. } => (
                            entered.with_new_player().idle(),
                            seq![
                                Action::InstallSession,
                                Action::Notify(
                                    Notification::TokenLoginSuccessful {
                                        username: session.username,
                                        token,
                                    },
                                ),
                                entered.create_player_action(),
                            ],
                        ),
                    }
                },
            },
            _ => (self, Seq::empty()),
        }
    }

    /// What the delegate is handed after a login by password.
    pub open spec fn login_record(
        session: SessionInfo,
        password: String,
        token: String,
        expiry: crate::session::Timestamp,
    ) -> Credentials {
        Credentials {
            username: session.username,
            password,
            token,
            token_expiry_time: Some(expiry),
            country: session.country,
        }
    }

    /// The state after a token request ended in `outcome`, and the actions
    /// that follow. A login that got no token still leaves its session and
    /// a player for it in place, and reports the failure.
    pub open spec fn token_received(self, outcome: TokenOutcome) -> (SpotifyPlayer, Seq<Action>) {
        match self.phase {
            Phase::FetchingToken { login: None } => (
                self.idle(),
                match outcome {
                    TokenOutcome::Fetched { access_token, expires_in, now } => seq![
                        Action::Notify(
                            Notification::RefreshSuccessful {
                                token: access_token,
                                token_expiry_time: expiry(now, expires_in),
                            },
                        ),
                    ],
                    TokenOutcome::Failed => seq![
                        Action::Notify(Notification::ReportError(SpotifyError::TokenFailed)),
                    ],
                },
            ),
            Phase::FetchingToken { login: Some(password) } => (
                self.with_new_player().idle(),
                match outcome {
                    TokenOutcome::Fetched { access_token, expires_in, now } => seq![
                        Action::Notify(
                            Notification::PasswordLoginSuccessful(
                                Self::login_record(
                                    self.session->0,
                                    password,
                                    access_token,
                                    expiry(now, expires_in),
                                ),
                            ),
                        ),
                        self.create_player_action(),
                    ],
                    TokenOutcome::Failed => seq![
                        self.create_player_action(),
                        Action::Notify(Notification::ReportError(SpotifyError::TokenFailed)),
                    ],
                },
            ),
            _ => (self, Seq::empty()),
        }
    }

    /// An actor with these settings and nothing else: no session, no
    /// player, no mixer.
    pub fn new(settings: SpotifyPlayerSettings) -> (actor: SpotifyPlayer)
        ensures
            actor == (SpotifyPlayer {
                settings,
                player: None,
                mixer: None,
                session: None,
                phase: Phase::Idle,
            }),
            actor.inv(),
    {
        SpotifyPlayer { settings, player: None, mixer: None, session: None, phase: Phase::Idle }
    }

    /// Whether the invariant holds of this state.
    pub fn is_consistent(&self) -> (consistent: bool)
        ensures
            consistent == self.inv(),
    {
        let player_backed = self.player.is_none() || (self.session.is_some()
            && self.mixer.is_some());
        let session_served = self.session.is_none() || self.player.is_some();
        let phase_sound = match &self.phase {
            Phase::Idle => session_served,
            Phase::Connecting { attempt, .. } => {
                let fixed = self.settings.ap_port.is_some();
                session_served && *attempt < 4 && (!fixed || *attempt == 0)
            },
            Phase::FetchingToken { login } => {
                self.session.is_some() && (login.is_some() || self.player.is_some())
            },
        };
        player_backed && phase_sound
    }

    /// Whether the actor is waiting for the next command.
    pub fn is_idle(&self) -> (idle: bool)
        ensures
            idle == (self.phase is Idle),
    {
        match &self.phase {
            Phase::Idle => true,
            _ => false,
        }
    }

    /// Whether the actor is waiting for the outcome of an attempt to connect.
    pub fn is_connecting(&self) -> (connecting: bool)
        ensures
            connecting == (self.phase is Connecting),
    {
        match &self.phase {
            Phase::Connecting { .. } => true,
            _ => false,
        }
    }

    /// Whether the actor is waiting for the outcome of a token request.
    pub fn is_fetching_token(&self) -> (fetching: bool)
        ensures
            fetching == (self.phase is FetchingToken),
    {
        match &self.phase {
            Phase::FetchingToken { .. } => true,
            _ => false,
        }
    }

    fn take_phase(&mut self) -> (phase: Phase)
        ensures
            phase == old(self).phase,
            *final(self) == old(self).idle(),
    {
        let mut phase = Phase::Idle;
        core::mem::swap(&mut self.phase, &mut phase);
        phase
    }

    /// Gives the action that builds a player from the settings on the
    /// session, and sees to the mixer: it is opened, at its highest level,
    /// on the first call and kept from then on. Settings, session and
    /// player stay as they are; the caller puts the new player in place.
    pub fn create_player(&mut self) -> (action: Action)
        requires
            old(self).session is Some,
        ensures
            *final(self) == old(self).with_mixer(),
            action == old(self).create_player_action(),
    {
        let config = self.current_config();
        let open_mixer = if self.mixer.is_none() {
            let level: u16 = max_volume();
            self.mixer = Some(level);
            Some(level)
        } else {
            None
        };
        Action::CreatePlayer { config, open_mixer }
    }

    fn current_config(&self) -> (config: PlayerConfig)
        ensures
            config == self.player_config(),
    {
        PlayerConfig { bitrate: self.settings.bitrate, backend: self.settings.backend.clone() }
    }

    fn fetch_token() -> (action: Action)
        ensures
            action == token_request(),
    {
        Action::FetchToken { client_id: client_id(), scopes: scopes() }
    }

    fn transport(&self, action: Action) -> (actions: Vec<Action>)
        ensures
            actions@ == self.to_player(action),
    {
        let mut actions: Vec<Action> = Vec::new();
        if self.player.is_some() {
            actions.push(action);
        } else {
            actions.push(Action::Notify(Notification::ReportError(SpotifyError::PlayerNotReady)));
        }
        assert(actions@ =~= self.to_player(action));
        actions
    }

    fn report(error: SpotifyError) -> (actions: Vec<Action>)
        ensures
            actions@ == seq![Action::Notify(Notification::ReportError(error))],
    {
        let mut actions: Vec<Action> = Vec::new();
        actions.push(Action::Notify(Notification::ReportError(error)));
        assert(actions@ =~= seq![Action::Notify(Notification::ReportError(error))]);
        actions
    }

    fn start_connecting(&mut self, credentials: LoginCredentials) -> (actions: Vec<Action>)
        ensures
            (*final(self), actions@) == old(self).connecting(credentials),
    {
        let mut actions: Vec<Action> = Vec::new();
        actions.push(
            Action::Connect { credentials: credentials.clone(), ap_port: self.settings.ap_port },
        );
        self.phase = Phase::Connecting { credentials, attempt: 0 };
        assert(actions@ =~= old(self).connecting(credentials).1);
        actions
    }

    /// Handles one command: changes the state as the command asks, and
    /// gives the actions to perform. A command that finds no session or
    /// player to work on changes nothing and reports `PlayerNotReady`;
    /// setting the volume without a mixer changes nothing and reports
    /// nothing.
    pub fn handle(&mut self, command: Command) -> (actions: Vec<Action>)
        requires
            old(self).phase is Idle,
        ensures
            (*final(self), actions@) == old(self).handled(command),
            old(self).inv() ==> final(self).inv(),
    {
        match command {
            Command::PlayerSetVolume(level) => {
                let mut actions: Vec<Action> = Vec::new();
                if self.mixer.is_some() {
                    self.mixer = Some(level);
                    actions.push(Action::SetMixerVolume(level));
                }
                assert(actions@ =~= old(self).handled(command).1);
                actions
            },
            Command::PlayerResume => self.transport(Action::Play),
            Command::PlayerPause => self.transport(Action::Pause),
            Command::PlayerStop => self.transport(Action::Stop),
            Command::PlayerSeek(position) => self.transport(Action::Seek(position)),
            Command::PlayerLoad(track) => self.transport(
                Action::Load { track, start_playing: true, position_ms: 0 },
            ),
            Command::RefreshToken => {
                if self.session.is_some() {
                    self.phase = Phase::FetchingToken { login: None };
                    let mut actions: Vec<Action> = Vec::new();
                    actions.push(Self::fetch_token());
                    assert(actions@ =~= seq![token_request()]);
                    actions
                } else {
                    Self::report(SpotifyError::PlayerNotReady)
                }
            },
            Command::Logout => {
                if self.session.is_some() {
                    self.session = None;
                    self.player = None;
                    let mut actions: Vec<Action> = Vec::new();
                    actions.push(Action::ShutdownSession);
                    actions.push(Action::DropPlayer);
                    assert(actions@ =~= seq![Action::ShutdownSession, Action::DropPlayer]);
                    actions
                } else {
                    Self::report(SpotifyError::PlayerNotReady)
                }
            },
            Command::PasswordLogin { username, password } => self.start_connecting(
                LoginCredentials::Password { username, password },
            ),
            Command::TokenLogin { username, token } => self.start_connecting(
                LoginCredentials::Token { username, token },
            ),
            Command::ReloadSettings(settings) => {
                if self.session.is_some() {
                    self.settings = settings;
                    let action = self.create_player();
                    self.player = Some(self.current_config());
                    let mut actions: Vec<Action> = Vec::new();
                    actions.push(action);
                    assert(actions@ =~= old(self).handled(command).1);
                    actions
                } else {
                    Self::report(SpotifyError::PlayerNotReady)
                }
            },
        }
    }

    /// Takes the outcome of the attempt to connect that is under way: tries
    /// the next endpoint, gives the login up, or goes on with the session.
    pub fn connect_finished(&mut self, outcome: ConnectOutcome) -> (actions: Vec<Action>)
        requires
            old(self).phase is Connecting,
            old(self).inv(),
        ensures
            (*final(self), actions@) == old(self).connected(outcome),
            old(self).inv() ==> final(self).inv(),
    {
        let phase = self.take_phase();
        let mut actions: Vec<Action> = Vec::new();
        match phase {
            Phase::Connecting { credentials, attempt } => {
                match after_attempt(self.settings.ap_port, attempt, outcome) {
                    Verdict::Retry(ap_port) => {
                        actions.push(Action::Connect { credentials: credentials.clone(), ap_port });
                        self.phase = Phase::Connecting { credentials, attempt: attempt + 1 };
                    },
                    Verdict::Failed(error) => {
                        actions.push(Action::Notify(Notification::ReportError(error)));
                    },
                    Verdict::Established(session) => {
                        let username = session.username.clone();
                        self.session = Some(session);
                        actions.push(Action::InstallSession);
                        match credentials {
                            LoginCredentials::Password { password, .. } => {
                                self.phase = Phase::FetchingToken { login: Some(password) };
                                actions.push(Self::fetch_token());
                            },
                            LoginCredentials::Token { token, .. } => {
                                actions.push(
                                    Action::Notify(
                                        Notification::TokenLoginSuccessful { username, token },
                                    ),
                                );
                                let action = self.create_player();
                                self.player = Some(self.current_config());
                                actions.push(action);
                            },
                        }
                    },
                }
            },
            _ => {},
        }
        assert(actions@ =~= old(self).connected(outcome).1);
        actions
    }

    /// Takes the outcome of the token request that is under way. After a
    /// refresh the delegate gets the token or the failure. After a login
    /// the player is built either way; the delegate gets the credentials
    /// with the token, or the failure.
    pub fn token_finished(&mut self, outcome: TokenOutcome) -> (actions: Vec<Action>)
        requires
            old(self).phase is FetchingToken,
            old(self).inv(),
            outcome.in_range(),
        ensures
            (*final(self), actions@) == old(self).token_received(outcome),
            old(self).inv() ==> final(self).inv(),
    {
        let phase = self.take_phase();
        let mut actions: Vec<Action> = Vec::new();
        match phase {
            Phase::FetchingToken { login: None } => {
                match outcome {
                    TokenOutcome::Fetched { access_token, expires_in, now } => {
                        actions.push(
                            Action::Notify(
                                Notification::RefreshSuccessful {
                                    token: access_token,
                                    token_expiry_time: expiry_time(now, expires_in),
                                },
                            ),
                        );
                    },
                    TokenOutcome::Failed => {
                        actions.push(
                            Action::Notify(Notification::ReportError(SpotifyError::TokenFailed)),
                        );
                    },
                }
            },
            Phase::FetchingToken { login: Some(password) } => {
                match outcome {
                    TokenOutcome::Fetched { access_token, expires_in, now } => {
                        let session = self.session.as_ref().unwrap().clone();
                        actions.push(
                            Action::Notify(
                                Notification::PasswordLoginSuccessful(
                                    Credentials {
                                        username: session.username,
                                        password,
                                        token: access_token,
                                        token_expiry_time: Some(expiry_time(now, expires_in)),
                                        country: session.country,
                                    },
                                ),
                            ),
                        );
                        let action = self.create_player();
                        self.player = Some(self.current_config());
                        actions.push(action);
                    },
                    TokenOutcome::Failed => {
                        let action = self.create_player();
                        self.player = Some(self.current_config());
                        actions.push(action);
                        actions.push(
                            Action::Notify(Notification::ReportError(SpotifyError::TokenFailed)),
                        );
                    },
                }
            },
            _ => {},
        }
        assert(actions@ =~= old(self).token_received(outcome).1);
        actions
    }
}

} // verus!
