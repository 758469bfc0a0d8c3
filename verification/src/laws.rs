//! What holds of the actor over whole runs: laws that relate several steps,
//! each proved from the steps' own definitions.

use vstd::prelude::*;

use crate::delegate::Notification;
use crate::error::SpotifyError;
use crate::mixer::{max_volume_level, min_volume_level};
use crate::player::{not_ready, Action, Command, SpotifyPlayer, TrackId};
use crate::session::{
    establish_from, known_ap_ports, lemma_fallback_reaches_first_good,
    lemma_rejection_stops_search, ConnectOutcome, LoginCredentials, SessionInfo, TokenOutcome,
};
use crate::settings::SpotifyPlayerSettings;

verus! {

/// The state after these commands, handled in turn.
pub open spec fn handled_all(actor: SpotifyPlayer, commands: Seq<Command>) -> SpotifyPlayer
    decreases commands.len(),
{
    if commands.len() == 0 {
        actor
    } else {
        handled_all(actor.handled(commands[0]).0, commands.skip(1))
    }
}

/// Every command keeps the invariant, and so does every outcome that the
/// actor waits for.
pub proof fn lemma_steps_keep_invariant(
    actor: SpotifyPlayer,
    command: Command,
    connect: ConnectOutcome,
    token: TokenOutcome,
)
    requires
        actor.inv(),
    ensures
        actor.phase is Idle ==> actor.handled(command).0.inv(),
        actor.phase is Connecting ==> actor.connected(connect).0.inv(),
        actor.phase is FetchingToken ==> actor.token_received(token).0.inv(),
{
}

/// Without a session, a command that needs one reports `PlayerNotReady`
/// and changes nothing; so after any number of such commands the state is
/// what it was.
pub proof fn lemma_no_session_nothing_changes(actor: SpotifyPlayer, commands: Seq<Command>)
    requires
        actor.inv(),
        actor.phase is Idle,
        actor.session is None,
        forall|i: int| 0 <= i < commands.len() ==> (#[trigger] commands[i]).needs_session(),
    ensures
        forall|i: int|
            0 <= i < commands.len() ==> actor.handled(#[trigger] commands[i]) == (
                actor,
                not_ready(),
            ),
        handled_all(actor, commands) == actor,
    decreases commands.len(),
{
    if commands.len() > 0 {
        let rest = commands.skip(1);
        assert(commands[0].needs_session());
        assert forall|i: int| 0 <= i < rest.len() implies (#[trigger] rest[i]).needs_session() by {
            assert(rest[i] == commands[i + 1]);
        }
        lemma_no_session_nothing_changes(actor, rest);
    }
}

/// Setting the volume while no mixer exists does nothing and reports
/// nothing, however often it is done.
pub proof fn lemma_volume_without_mixer(actor: SpotifyPlayer, levels: Seq<u16>)
    requires
        actor.mixer is None,
    ensures
        forall|i: int|
            0 <= i < levels.len() ==> actor.handled(Command::PlayerSetVolume(#[trigger] levels[i]))
                == (actor, Seq::<Action>::empty()),
{
}

/// Setting the volume on a mixer sets exactly that level and changes
/// nothing else.
pub proof fn lemma_volume_reaches_mixer(actor: SpotifyPlayer, level: u16)
    requires
        actor.mixer is Some,
    ensures
        actor.handled(Command::PlayerSetVolume(level)) == (
            SpotifyPlayer { mixer: Some(level), ..actor },
            seq![Action::SetMixerVolume(level)],
        ),
{
}

/// The two ends of the scale reach the mixer as they are: the highest level
/// sets the mixer to its maximum, the lowest to its minimum.
pub proof fn lemma_volume_scale_ends(actor: SpotifyPlayer)
    requires
        actor.mixer is Some,
    ensures
        actor.handled(Command::PlayerSetVolume(max_volume_level())) == (
            SpotifyPlayer { mixer: Some(max_volume_level()), ..actor },
            seq![Action::SetMixerVolume(max_volume_level())],
        ),
        actor.handled(Command::PlayerSetVolume(min_volume_level())) == (
            SpotifyPlayer { mixer: Some(min_volume_level()), ..actor },
            seq![Action::SetMixerVolume(min_volume_level())],
        ),
{
}

/// The player factory leaves settings, session and player as they were,
/// and changes the mixer only from absent to present.
pub proof fn lemma_factory_touches_only_mixer(actor: SpotifyPlayer)
    ensures
        actor.with_mixer().settings == actor.settings,
        actor.with_mixer().session == actor.session,
        actor.with_mixer().player == actor.player,
        actor.with_mixer().phase == actor.phase,
        actor.with_mixer().mixer is Some,
        actor.mixer is Some ==> actor.with_mixer() == actor,
        actor.inv() ==> actor.with_mixer().inv(),
{
}

/// A login by password that connects leaves a player behind, whether or
/// not its token arrives; a load that follows it reaches that player.
pub proof fn lemma_load_after_login(
    actor: SpotifyPlayer,
    username: String,
    password: String,
    session: SessionInfo,
    token: TokenOutcome,
    track: TrackId,
)
    requires
        actor.inv(),
        actor.phase is Idle,
    ensures
        ({
            let asked = actor.handled(Command::PasswordLogin { username, password }).0;
            let entered = asked.connected(ConnectOutcome::Connected(session)).0;
            let ready = entered.token_received(token).0;
            &&& asked.phase is Connecting
            &&& entered.phase is FetchingToken
            &&& ready.phase is Idle
            &&& ready.session == Some(session)
            &&& ready.player == Some(actor.player_config())
            &&& ready.handled(Command::PlayerLoad(track)) == (
                ready,
                seq![Action::Load { track, start_playing: true, position_ms: 0 }],
            )
        }),
{
}

/// A login by token that connects is complete at once: the session and a
/// player are in place, and a load that follows reaches that player.
pub proof fn lemma_load_after_token_login(
    actor: SpotifyPlayer,
    username: String,
    token: String,
    session: SessionInfo,
    track: TrackId,
)
    requires
        actor.inv(),
        actor.phase is Idle,
    ensures
        ({
            let asked = actor.handled(Command::TokenLogin { username, token }).0;
            let ready = asked.connected(ConnectOutcome::Connected(session)).0;
            &&& ready.phase is Idle
            &&& ready.session == Some(session)
            &&& ready.player == Some(actor.player_config())
            &&& ready.handled(Command::PlayerLoad(track)) == (
                ready,
                seq![Action::Load { track, start_playing: true, position_ms: 0 }],
            )
        }),
{
}

/// The state in which a login stops connecting, and the number of attempts
/// made by then, where the attempt of each number ends as `outcomes` says
/// and `from` attempts have been made already.
pub open spec fn connected_all(
    actor: SpotifyPlayer,
    outcomes: Seq<ConnectOutcome>,
    from: nat,
) -> (SpotifyPlayer, nat)
    decreases outcomes.len() - from,
{
    if from < outcomes.len() && actor.phase is Connecting {
        connected_all(actor.connected(outcomes[from as int]).0, outcomes, from + 1)
    } else {
        (actor, from)
    }
}

/// The actor's login makes the search for a session that `establish_from`
/// describes: as many attempts, and the same end. Where the search finds a
/// session, the actor holds it; where it fails, the actor is idle again
/// with everything as it was.
pub proof fn lemma_login_follows_search(
    actor: SpotifyPlayer,
    outcomes: Seq<ConnectOutcome>,
    from: nat,
)
    requires
        actor.inv(),
        actor.phase is Connecting,
        actor.phase->attempt == from,
        outcomes.len() >= known_ap_ports().len(),
    ensures
        ({
            let (end, attempts) = connected_all(actor, outcomes, from);
            let found = establish_from(actor.settings.ap_port, outcomes, from);
            &&& attempts == found.attempts
            &&& !(end.phase is Connecting)
            &&& match found.result {
                Ok(session) => end.session == Some(session),
                Err(_) => end == actor.idle(),
            }
        }),
    decreases outcomes.len() - from,
{
    let next = actor.connected(outcomes[from as int]).0;
    if next.phase is Connecting {
        lemma_login_follows_search(next, outcomes, from + 1);
        assert(next.idle() == actor.idle());
    } else {
        assert(connected_all(next, outcomes, from + 1) == (next, from + 1));
    }
}

/// Where no endpoint is fixed, the first `broken` endpoints are broken and
/// the next one connects, a login ends with that session after
/// `broken + 1` attempts: the endpoints after it are not tried.
pub proof fn lemma_login_falls_back(
    actor: SpotifyPlayer,
    credentials: LoginCredentials,
    outcomes: Seq<ConnectOutcome>,
    broken: nat,
    session: SessionInfo,
)
    requires
        actor.inv(),
        actor.phase is Idle,
        actor.settings.ap_port is None,
        outcomes.len() >= known_ap_ports().len(),
        broken < known_ap_ports().len(),
        forall|i: int| 0 <= i < broken ==> outcomes[i] == ConnectOutcome::IoError,
        outcomes[broken as int] == ConnectOutcome::Connected(session),
    ensures
        ({
            let (end, attempts) = connected_all(actor.connecting(credentials).0, outcomes, 0);
            &&& attempts == broken + 1
            &&& end.session == Some(session)
            &&& !(end.phase is Connecting)
        }),
{
    lemma_fallback_reaches_first_good(outcomes, broken, session);
    lemma_login_follows_search(actor.connecting(credentials).0, outcomes, 0);
}

/// Where the first endpoint rejects the credentials, a login ends there:
/// one attempt, the failure reported, and the actor as it was before.
pub proof fn lemma_login_stops_at_rejection(
    actor: SpotifyPlayer,
    credentials: LoginCredentials,
    outcomes: Seq<ConnectOutcome>,
)
    requires
        actor.inv(),
        actor.phase is Idle,
        outcomes.len() >= known_ap_ports().len(),
        outcomes[0] == ConnectOutcome::AuthenticationError,
    ensures
        connected_all(actor.connecting(credentials).0, outcomes, 0) == (actor, 1nat),
        actor.connecting(credentials).0.connected(outcomes[0]).1 == seq![
            Action::Notify(Notification::ReportError(SpotifyError::LoginFailed)),
        ],
{
    lemma_rejection_stops_search(actor.settings.ap_port, outcomes);
    lemma_login_follows_search(actor.connecting(credentials).0, outcomes, 0);
}

/// Reloading the settings with a session replaces the player by one built
/// from the new settings, and keeps the session and the mixer as they were:
/// no second mixer is opened.
pub proof fn lemma_reload_keeps_mixer(actor: SpotifyPlayer, settings: SpotifyPlayerSettings)
    requires
        actor.inv(),
        actor.phase is Idle,
        actor.session is Some,
    ensures
        ({
            let (reloaded, actions) = actor.handled(Command::ReloadSettings(settings));
            &&& reloaded.mixer == actor.mixer
            &&& reloaded.mixer is Some
            &&& reloaded.session == actor.session
            &&& reloaded.settings == settings
            &&& reloaded.player == Some(reloaded.player_config())
            &&& actions == seq![
                Action::CreatePlayer { config: reloaded.player_config(), open_mixer: None },
            ]
        }),
{
}

/// Whether this action opens a mixer.
pub open spec fn opens_mixer(action: Action) -> bool {
    match action {
        Action::CreatePlayer { open_mixer, .. } => open_mixer is Some,
        _ => false,
    }
}

/// Once a mixer exists it stays, and no step opens another.
pub proof fn lemma_mixer_opened_once(
    actor: SpotifyPlayer,
    command: Command,
    connect: ConnectOutcome,
    token: TokenOutcome,
)
    requires
        actor.mixer is Some,
    ensures
        actor.handled(command).0.mixer is Some,
        actor.connected(connect).0.mixer is Some,
        actor.token_received(token).0.mixer is Some,
        forall|i: int|
            0 <= i < actor.handled(command).1.len() ==> !opens_mixer(
                #[trigger] actor.handled(command).1[i],
            ),
        forall|i: int|
            0 <= i < actor.connected(connect).1.len() ==> !opens_mixer(
                #[trigger] actor.connected(connect).1[i],
            ),
        forall|i: int|
            0 <= i < actor.token_received(token).1.len() ==> !opens_mixer(
                #[trigger] actor.token_received(token).1[i],
            ),
{
}

/// A logout with a session leaves neither session nor player, and keeps
/// the mixer.
pub proof fn lemma_logout_clears(actor: SpotifyPlayer)
    requires
        actor.phase is Idle,
        actor.session is Some,
    ensures
        actor.handled(Command::Logout).0 == (SpotifyPlayer { session: None, player: None, ..actor }),
        actor.handled(Command::Logout).1 == seq![Action::ShutdownSession, Action::DropPlayer],
{
}

} // verus!
