//! The core lifecycle state machine: session, player, event channel.
//!
//! The engine's network, audio and scheduling work happens outside this crate;
//! the core decides, from its state alone, whether each host call is allowed,
//! what command to issue, and how its state moves. Callers perform the
//! external step (connecting, fetching a token, running a command) and hand
//! the outcome back, so every decision here is checked for every outcome.

use vstd::prelude::*;
use crate::base62::b62_decode;
use crate::events::spec_translate;
use crate::events::translate;
use crate::events::BridgeEventModel;
use crate::events::PlayerEvent;
use crate::events::SpeckPlayerEvent;
use crate::ids::valid_track_text;
use crate::ids::ItemType;
use crate::ids::TrackId;

verus! {

/// A typed lifecycle failure, surfaced to the host instead of a crash.
#[derive(Clone, Copy, Debug, PartialEq, Eq, Structural)]
pub enum SpeckError {
    /// A session-dependent call was made before a successful login.
    NotAuthenticated,
    /// A player command was issued before the player was initialized.
    NotInitialized,
    /// The textual track identifier is malformed.
    InvalidTrackId,
    /// The event stream is exhausted: the engine tore the player down.
    ChannelClosed,
}

/// Outcome of a login attempt, as the host sees it.
#[derive(Debug, PartialEq, Eq)]
pub struct LoginResult {
    pub ok: bool,
    pub message: String,
}

/// A token request the core allows: the scopes to ask the session for.
#[derive(Debug, PartialEq, Eq)]
pub struct TokenRequest {
    pub scopes: String,
}

/// An access token derived from the live session; the expiry is in seconds
/// whatever unit the engine reports.
#[derive(Debug, PartialEq, Eq)]
pub struct SpotifyToken {
    pub access_token: String,
    pub expires_in: u64,
}

/// A playback command the core has checked and normalized, ready for the
/// engine. `Load` always carries a `Track`-tagged id, playback from the start.
#[derive(Clone, Copy, Debug, PartialEq, Eq, Structural)]
pub enum PlayerCommand {
    Load { id: TrackId, start_playing: bool, position_ms: u32 },
    Play,
    Pause,
    Seek { position_ms: u32 },
}

/// The ordered event stream of one player: a FIFO queue, closed for good when
/// the engine ends it.
pub struct EventChannel {
    events: Vec<PlayerEvent>,
    closed: bool,
}

/// Mathematical form of the event channel.
pub struct ChannelModel {
    pub queue: Seq<PlayerEvent>,
    pub closed: bool,
}

impl View for EventChannel {
    type V = ChannelModel;

    closed spec fn view(&self) -> ChannelModel {
        ChannelModel { queue: self.events@, closed: self.closed }
    }
}

/// Mathematical form of the core: which lifecycle stage is reached, and the
/// channel contents. The channel exists exactly as long as the player does.
pub struct CoreModel {
    pub session_live: bool,
    pub player_ready: bool,
    pub channel: Option<ChannelModel>,
}

/// One host-visible operation, as the state machine sees it.
pub enum Op {
    /// A login attempt ended; `succeeded` tells whether the engine connected.
    Login { succeeded: bool },
    /// A token was requested.
    GetToken,
    /// The player was initialized (a fresh channel replaces any old one).
    InitPlayer,
    /// A load command was requested.
    LoadTrack,
    /// A play, pause or seek command was requested.
    Command,
    /// The engine produced one event.
    PushEvent { event: PlayerEvent },
    /// The host asked for the next event.
    TakeEvent,
    /// The engine ended the event stream.
    CloseChannel,
}

/// The state before any call: nothing is live.
pub open spec fn init_model() -> CoreModel {
    CoreModel { session_live: false, player_ready: false, channel: None }
}

/// The transition relation of the core, one operation at a time.
pub open spec fn step(m: CoreModel, op: Op) -> CoreModel {
    match op {
        Op::Login { succeeded } => if succeeded {
            CoreModel { session_live: true, ..m }
        } else {
            m
        },
        Op::GetToken => m,
        Op::InitPlayer => if m.session_live {
            CoreModel {
                player_ready: true,
                channel: Some(ChannelModel { queue: Seq::empty(), closed: false }),
                ..m
            }
        } else {
            m
        },
        Op::LoadTrack => m,
        Op::Command => m,
        Op::PushEvent { event } => match m.channel {
            Some(ch) => if !ch.closed {
                CoreModel {
                    channel: Some(ChannelModel { queue: ch.queue.push(event), ..ch }),
                    ..m
                }
            } else {
                m
            },
            None => m,
        },
        Op::TakeEvent => match m.channel {
            Some(ch) => if ch.queue.len() > 0 {
                CoreModel {
                    channel: Some(ChannelModel { queue: ch.queue.drop_first(), ..ch }),
                    ..m
                }
            } else {
                m
            },
            None => m,
        },
        Op::CloseChannel => match m.channel {
            Some(ch) => CoreModel { channel: Some(ChannelModel { closed: true, ..ch }), ..m },
            None => m,
        },
    }
}

/// What one take of the next event delivers: the translation of the queue
/// head, if there is one.
pub open spec fn take_output(m: CoreModel) -> Option<BridgeEventModel> {
    match m.channel {
        Some(ch) => if ch.queue.len() > 0 {
            Some(spec_translate(ch.queue[0]))
        } else {
            None
        },
        None => None,
    }
}

/// Run the machine from a given state through a sequence of operations.
pub open spec fn run_from(m: CoreModel, ops: Seq<Op>) -> CoreModel
    decreases ops.len(),
{
    if ops.len() == 0 {
        m
    } else {
        run_from(step(m, ops[0]), ops.drop_first())
    }
}

/// Run the machine from the initial state.
pub open spec fn run(ops: Seq<Op>) -> CoreModel {
    run_from(init_model(), ops)
}

/// Whether an operation is a successful login.
pub open spec fn is_successful_login(op: Op) -> bool {
    op matches Op::Login { succeeded: true }
}

/// The lifecycle stays locked from any locked state while no login succeeds.
proof fn lemma_locked_preserved(m: CoreModel, ops: Seq<Op>)
    requires
        !m.session_live,
        !m.player_ready,
        m.channel is None,
        forall|i: int| 0 <= i < ops.len() ==> !is_successful_login(#[trigger] ops[i]),
    ensures
        !run_from(m, ops).session_live,
        !run_from(m, ops).player_ready,
        run_from(m, ops).channel is None,
    decreases ops.len(),
{
    if ops.len() > 0 {
        let m1 = step(m, ops[0]);
        assert(!m1.session_live && !m1.player_ready && m1.channel is None);
        assert(forall|i: int|
            0 <= i < ops.drop_first().len() ==> !is_successful_login(
                #[trigger] ops.drop_first()[i],
            ));
        lemma_locked_preserved(m1, ops.drop_first());
    }
}

/// Until some login succeeds, no session is live and no player or channel
/// exists, whatever the host calls in whatever order — so a token request
/// always fails with `NotAuthenticated` and never reaches the network, player
/// initialization always fails the same way and constructs nothing, and every
/// player command fails with `NotInitialized`.
pub proof fn lemma_locked_until_login(ops: Seq<Op>)
    requires
        forall|i: int| 0 <= i < ops.len() ==> !is_successful_login(#[trigger] ops[i]),
    ensures
        !run(ops).session_live,
        !run(ops).player_ready,
        run(ops).channel is None,
{
    lemma_locked_preserved(init_model(), ops);
}

/// The channel/player tie holds from any state where it holds, whatever runs.
proof fn lemma_channel_iff_player_preserved(m: CoreModel, ops: Seq<Op>)
    requires
        m.player_ready <==> m.channel is Some,
    ensures
        run_from(m, ops).player_ready <==> run_from(m, ops).channel is Some,
    decreases ops.len(),
{
    if ops.len() > 0 {
        lemma_channel_iff_player_preserved(step(m, ops[0]), ops.drop_first());
    }
}

/// In every reachable state the event channel exists exactly as long as the
/// player does: it is created with the player, replaced only when the player
/// is, and never exists on its own.
pub proof fn lemma_channel_iff_player(ops: Seq<Op>)
    ensures
        run(ops).player_ready <==> run(ops).channel is Some,
{
    lemma_channel_iff_player_preserved(init_model(), ops);
}

/// Take the next event `n` times over.
pub open spec fn take_n(m: CoreModel, n: nat) -> CoreModel
    decreases n,
{
    if n == 0 {
        m
    } else {
        take_n(step(m, Op::TakeEvent), (n - 1) as nat)
    }
}

/// Events leave the channel first-in first-out: taking `k` events from a
/// channel holding the queue `q` delivers the translations of `q[0], ...,
/// q[k-1]` in exactly that order, and leaves the rest of `q` in order, with
/// nothing reordered, dropped or coalesced.
pub proof fn lemma_take_events_fifo(m: CoreModel, k: nat)
    requires
        m.channel is Some,
        k <= m.channel.unwrap().queue.len(),
    ensures
        take_n(m, k).channel is Some,
        take_n(m, k).channel.unwrap().queue == m.channel.unwrap().queue.skip(k as int),
        take_n(m, k).channel.unwrap().closed == m.channel.unwrap().closed,
        forall|i: nat|
            i < k ==> take_output(take_n(m, i)) == Some(
                spec_translate(#[trigger] m.channel.unwrap().queue[i as int]),
            ),
    decreases k,
{
    let q = m.channel.unwrap().queue;
    if k == 0 {
        assert(q.skip(0) =~= q);
    } else {
        let m1 = step(m, Op::TakeEvent);
        assert(m1.channel.unwrap().queue == q.drop_first());
        lemma_take_events_fifo(m1, (k - 1) as nat);
        assert(q.drop_first().skip(k - 1) =~= q.skip(k as int));
        assert(take_output(take_n(m, 0)) == Some(spec_translate(q[0])));
        assert forall|i: nat| i < k implies take_output(take_n(m, i)) == Some(
            spec_translate(#[trigger] q[i as int]),
        ) by {
            if i > 0 {
                assert(take_n(m, i) == take_n(m1, (i - 1) as nat));
                assert(q.drop_first()[i - 1] == q[i as int]);
            }
        }
    }
}

/// The scopes every token request asks for.
pub open spec fn spec_scopes() -> Seq<char> {
    "user-read-private,playlist-read-private,playlist-read-collaborative,user-library-read,user-library-modify,user-top-read,user-read-recently-played,user-read-playback-state,playlist-modify-public,playlist-modify-private,user-modify-playback-state,streaming,playlist-modify-public"@
}

/// The session/player lifecycle core. It holds which stage is reached and the
/// pending event queue; the opaque engine handles live with the host, which
/// reports outcomes and events back through the methods here.
pub struct SpeckCore {
    session_live: bool,
    player_ready: bool,
    channel: Option<EventChannel>,
}

impl View for SpeckCore {
    type V = CoreModel;

    closed spec fn view(&self) -> CoreModel {
        CoreModel {
            session_live: self.session_live,
            player_ready: self.player_ready,
            channel: match self.channel {
                Some(ch) => Some(ch@),
                None => None,
            },
        }
    }
}

impl SpeckCore {
    /// A fresh core: no session, no player, no channel.
    pub fn new() -> (r: SpeckCore)
        ensures
            r@ == init_model(),
    {
        SpeckCore { session_live: false, player_ready: false, channel: None }
    }

    /// Record the outcome of a connection attempt. Success makes the session
    /// live (replacing any previous one) and reports an empty message;
    /// failure leaves the core exactly as it was — a later attempt retries
    /// cleanly — and reports the engine's message verbatim.
    pub fn login(&mut self, outcome: Result<(), String>) -> (r: LoginResult)
        ensures
            final(self)@ == step(old(self)@, Op::Login { succeeded: outcome is Ok }),
            r.ok == outcome is Ok,
            outcome is Ok ==> r.message@ == Seq::<char>::empty(),
            outcome matches Err(m) ==> r.message == m,
    {
        match outcome {
            Ok(()) => {
                self.session_live = true;
                LoginResult { ok: true, message: String::new() }
            },
            Err(m) => LoginResult { ok: false, message: m },
        }
    }

    /// Allow or refuse a token request. Without a live session the request is
    /// refused outright — in particular nothing is sent anywhere — and with
    /// one, the fixed scope list is handed back for the session to fulfil.
    pub fn get_token(&self) -> (r: Result<TokenRequest, SpeckError>)
        ensures
            self@.session_live ==> (r matches Ok(t) && t.scopes@ == spec_scopes()),
            !self@.session_live ==> r == Err::<TokenRequest, SpeckError>(
                SpeckError::NotAuthenticated,
            ),
    {
        if self.session_live {
            Ok(TokenRequest {
                scopes: "user-read-private,playlist-read-private,playlist-read-collaborative,user-library-read,user-library-modify,user-top-read,user-read-recently-played,user-read-playback-state,playlist-modify-public,playlist-modify-private,user-modify-playback-state,streaming,playlist-modify-public".to_string(),
            })
        } else {
            Err(SpeckError::NotAuthenticated)
        }
    }

    /// Initialize the player. Before a live session exists this fails and
    /// constructs nothing; with one, the player is (re)created and a fresh,
    /// open, empty event channel replaces any previous one.
    pub fn init_player(&mut self) -> (r: Result<(), SpeckError>)
        ensures
            final(self)@ == step(old(self)@, Op::InitPlayer),
            old(self)@.session_live ==> r is Ok,
            !old(self)@.session_live ==> r == Err::<(), SpeckError>(SpeckError::NotAuthenticated),
    {
        if self.session_live {
            self.player_ready = true;
            self.channel = Some(EventChannel { events: Vec::new(), closed: false });
            Ok(())
        } else {
            Err(SpeckError::NotAuthenticated)
        }
    }

    /// Check and normalize a load request. The id is parsed from its textual
    /// form and its tag forced to `Track` — a caller may pass an ambiguous
    /// id — and the command starts playback at position zero.
    pub fn player_load_track(&mut self, track_id: String) -> (r: Result<PlayerCommand, SpeckError>)
        ensures
            final(self)@ == step(old(self)@, Op::LoadTrack),
            !old(self)@.player_ready ==> r == Err::<PlayerCommand, SpeckError>(
                SpeckError::NotInitialized,
            ),
            old(self)@.player_ready && valid_track_text(track_id@)
                ==> r == Ok::<PlayerCommand, SpeckError>(PlayerCommand::Load {
                    id: TrackId { id: b62_decode(track_id@) as u128, item_type: ItemType::Track },
                    start_playing: true,
                    position_ms: 0,
                }),
            old(self)@.player_ready && !valid_track_text(track_id@)
                ==> r == Err::<PlayerCommand, SpeckError>(SpeckError::InvalidTrackId),
    {
        if !self.player_ready {
            return Err(SpeckError::NotInitialized);
        }
        match TrackId::from_base62(track_id.as_str()) {
            Some(id) => Ok(PlayerCommand::Load {
                id: id.as_track(),
                start_playing: true,
                position_ms: 0,
            }),
            None => Err(SpeckError::InvalidTrackId),
        }
    }

    /// A play command, allowed only once the player exists.
    pub fn player_play(&self) -> (r: Result<PlayerCommand, SpeckError>)
        ensures
            self@.player_ready ==> r == Ok::<PlayerCommand, SpeckError>(PlayerCommand::Play),
            !self@.player_ready ==> r == Err::<PlayerCommand, SpeckError>(
                SpeckError::NotInitialized,
            ),
    {
        if self.player_ready {
            Ok(PlayerCommand::Play)
        } else {
            Err(SpeckError::NotInitialized)
        }
    }

    /// A pause command, allowed only once the player exists.
    pub fn player_pause(&self) -> (r: Result<PlayerCommand, SpeckError>)
        ensures
            self@.player_ready ==> r == Ok::<PlayerCommand, SpeckError>(PlayerCommand::Pause),
            !self@.player_ready ==> r == Err::<PlayerCommand, SpeckError>(
                SpeckError::NotInitialized,
            ),
    {
        if self.player_ready {
            Ok(PlayerCommand::Pause)
        } else {
            Err(SpeckError::NotInitialized)
        }
    }

    /// An absolute seek, allowed only once the player exists.
    pub fn player_seek(&self, position_ms: u32) -> (r: Result<PlayerCommand, SpeckError>)
        ensures
            self@.player_ready ==> r == Ok::<PlayerCommand, SpeckError>(PlayerCommand::Seek {
                position_ms,
            }),
            !self@.player_ready ==> r == Err::<PlayerCommand, SpeckError>(
                SpeckError::NotInitialized,
            ),
    {
        if self.player_ready {
            Ok(PlayerCommand::Seek { position_ms })
        } else {
            Err(SpeckError::NotInitialized)
        }
    }

    /// Check and normalize a metadata query for a track's artist details:
    /// needs a live session, and the id is normalized as for loading.
    pub fn get_expanded_artist_info(&self, track_id: String) -> (r: Result<TrackId, SpeckError>)
        ensures
            !self@.session_live ==> r == Err::<TrackId, SpeckError>(SpeckError::NotAuthenticated),
            self@.session_live && valid_track_text(track_id@)
                ==> r == Ok::<TrackId, SpeckError>(TrackId {
                    id: b62_decode(track_id@) as u128,
                    item_type: ItemType::Track,
                }),
            self@.session_live && !valid_track_text(track_id@)
                ==> r == Err::<TrackId, SpeckError>(SpeckError::InvalidTrackId),
    {
        if !self.session_live {
            return Err(SpeckError::NotAuthenticated);
        }
        match TrackId::from_base62(track_id.as_str()) {
            Some(id) => Ok(id.as_track()),
            None => Err(SpeckError::InvalidTrackId),
        }
    }

    /// The engine produced an event: append it to the open channel. Without a
    /// channel, or after the stream ended, there is nothing to feed and the
    /// core is unchanged.
    pub fn push_event(&mut self, event: PlayerEvent)
        ensures
            final(self)@ == step(old(self)@, Op::PushEvent { event }),
    {
        match &mut self.channel {
            Some(ch) => {
                if !ch.closed {
                    ch.events.push(event);
                }
            },
            None => {},
        }
    }

    /// The engine ended the event stream: the channel, if any, is closed for
    /// good.
    pub fn close_channel(&mut self)
        ensures
            final(self)@ == step(old(self)@, Op::CloseChannel),
    {
        match &mut self.channel {
            Some(ch) => {
                ch.closed = true;
            },
            None => {},
        }
    }

    /// Take the next event: exactly the head of the queue, translated —
    /// events leave in the order the engine produced them. `Ok(None)` means
    /// the queue is open but momentarily empty, so the caller should wait for
    /// the engine and feed the channel before asking again; a closed, drained
    /// channel fails with `ChannelClosed`, and a core whose player was never
    /// initialized with `NotInitialized`.
    pub fn get_player_event(&mut self) -> (r: Result<Option<SpeckPlayerEvent>, SpeckError>)
        ensures
            final(self)@ == step(old(self)@, Op::TakeEvent),
            old(self)@.channel is None ==> r == Err::<Option<SpeckPlayerEvent>, SpeckError>(
                SpeckError::NotInitialized,
            ),
            old(self)@.channel matches Some(ch) && ch.queue.len() > 0 ==> (r matches Ok(o)
                && o matches Some(b) && b@ == take_output(old(self)@).unwrap()),
            old(self)@.channel matches Some(ch) && ch.queue.len() == 0 && ch.closed ==> r
                == Err::<Option<SpeckPlayerEvent>, SpeckError>(SpeckError::ChannelClosed),
            old(self)@.channel matches Some(ch) && ch.queue.len() == 0 && !ch.closed ==> (
            r matches Ok(o) && o is None),
    {
        match &mut self.channel {
            Some(ch) => {
                if ch.events.len() > 0 {
                    let e = ch.events.remove(0);
                    Ok(Some(translate(e)))
                } else if ch.closed {
                    Err(SpeckError::ChannelClosed)
                } else {
                    Ok(None)
                }
            },
            None => Err(SpeckError::NotInitialized),
        }
    }
}

} // verus!
