//! WebSocket relay: the decisions of one relay session between a client and
//! the backend.
//!
//! The embedding program owns both sockets. It hands every event of a
//! session (the dial's outcome, a frame or the end of either leg, a failed
//! send) to [`RelaySession::step`] and performs the action it gets back.
use vstd::prelude::*;

use crate::backend::{chat_ws_url, task_ws_url, BackendTarget};
use crate::context::opt_str_view;
use crate::text::{contains, occurs_in};

verus! {

/// One WebSocket frame, in a form shared by both legs of a relay.
#[derive(Clone, Debug, PartialEq, Eq)]
pub enum Frame {
    Text(String),
    Binary(Vec<u8>),
    Ping(Vec<u8>),
    Pong(Vec<u8>),
    Close,
    /// A raw frame that a transport hands up without a message kind. It is
    /// not relayed; the embedding program should log it.
    Other,
}

/// What reading one leg of a session gave.
#[derive(Clone, Debug, PartialEq, Eq)]
pub enum LegEvent {
    Received(Frame),
    /// The transport reported an error.
    Failed,
    /// The stream ended.
    Ended,
}

/// An event of a relay session.
#[derive(Clone, Debug, PartialEq, Eq)]
pub enum RelayEvent {
    DialSucceeded,
    DialFailed,
    FromClient(LegEvent),
    FromBackend(LegEvent),
    /// Sending a frame on either leg failed.
    SendFailed,
}

/// What the embedding program does next.
#[derive(Clone, Debug, PartialEq, Eq)]
pub enum RelayAction {
    Nothing,
    SendToBackend(Frame),
    SendToClient(Frame),
    /// Close the client connection; no backend connection is open.
    CloseClient,
    /// Close both connections.
    CloseBoth,
}

/// Where a session stands.
#[derive(Clone, Copy, Debug, PartialEq, Eq, Structural)]
pub enum RelayPhase {
    /// The client is connected and the backend is being dialled.
    Dialing,
    /// Both connections are open and frames flow both ways.
    Relaying,
    /// Both connections are closed.
    Closed,
}

/// What a relay session forwards frames to.
#[derive(Clone, Copy, Debug, PartialEq, Eq, Structural)]
pub enum RelayRoute {
    Chat,
    TaskProgress,
}

/// One relay session.
pub struct RelaySession {
    pub phase: RelayPhase,
    pub route: RelayRoute,
    /// The backend WebSocket URL to dial.
    pub backend_url: String,
}

/// A frame that carries a message: text, binary, ping or pong.
pub open spec fn is_data(f: Frame) -> bool {
    match f {
        Frame::Text(_) | Frame::Binary(_) | Frame::Ping(_) | Frame::Pong(_) => true,
        _ => false,
    }
}

/// A leg event that ends that leg: a close frame, an error or the end of
/// the stream.
pub open spec fn ends_leg(e: LegEvent) -> bool {
    match e {
        LegEvent::Received(Frame::Close) | LegEvent::Failed | LegEvent::Ended => true,
        _ => false,
    }
}

/// An event after which the session cannot go on.
pub open spec fn is_teardown(ev: RelayEvent) -> bool {
    match ev {
        RelayEvent::DialFailed | RelayEvent::SendFailed => true,
        RelayEvent::FromClient(e) => ends_leg(e),
        RelayEvent::FromBackend(e) => ends_leg(e),
        RelayEvent::DialSucceeded => false,
    }
}

/// How many of the session's connections are open in a phase.
pub open spec fn open_connections(p: RelayPhase) -> nat {
    match p {
        RelayPhase::Dialing => 1,
        RelayPhase::Relaying => 2,
        RelayPhase::Closed => 0,
    }
}

/// One step of a session: the next phase and the action.
pub open spec fn next(p: RelayPhase, ev: RelayEvent) -> (RelayPhase, RelayAction) {
    match p {
        RelayPhase::Dialing => if is_teardown(ev) {
            (RelayPhase::Closed, RelayAction::CloseClient)
        } else if ev is DialSucceeded {
            (RelayPhase::Relaying, RelayAction::Nothing)
        } else {
            (RelayPhase::Dialing, RelayAction::Nothing)
        },
        RelayPhase::Relaying => if is_teardown(ev) {
            (RelayPhase::Closed, RelayAction::CloseBoth)
        } else {
            match ev {
                RelayEvent::FromClient(LegEvent::Received(f)) => if is_data(f) {
                    (RelayPhase::Relaying, RelayAction::SendToBackend(f))
                } else {
                    (RelayPhase::Relaying, RelayAction::Nothing)
                },
                RelayEvent::FromBackend(LegEvent::Received(f)) => if is_data(f) {
                    (RelayPhase::Relaying, RelayAction::SendToClient(f))
                } else {
                    (RelayPhase::Relaying, RelayAction::Nothing)
                },
                _ => (RelayPhase::Relaying, RelayAction::Nothing),
            }
        },
        RelayPhase::Closed => (RelayPhase::Closed, RelayAction::Nothing),
    }
}

/// Whether a leg event ends that leg.
fn leg_ends(e: &LegEvent) -> (r: bool)
    ensures
        r == ends_leg(*e),
{
    match e {
        LegEvent::Received(Frame::Close) | LegEvent::Failed | LegEvent::Ended => true,
        _ => false,
    }
}

/// Whether an event ends the session.
fn tears_down(ev: &RelayEvent) -> (r: bool)
    ensures
        r == is_teardown(*ev),
{
    match ev {
        RelayEvent::DialFailed | RelayEvent::SendFailed => true,
        RelayEvent::FromClient(e) => leg_ends(e),
        RelayEvent::FromBackend(e) => leg_ends(e),
        RelayEvent::DialSucceeded => false,
    }
}

impl RelaySession {
    /// A chat session relay, keyed by session and user, that waits for its
    /// backend connection.
    pub fn chat(target: &BackendTarget, session_id: &str, user_id: &str) -> (r: RelaySession)
        ensures
            r.phase == RelayPhase::Dialing,
            r.route == RelayRoute::Chat,
            r.backend_url@ == chat_ws_url(target.base_url@, session_id@, user_id@),
    {
        RelaySession {
            phase: RelayPhase::Dialing,
            route: RelayRoute::Chat,
            backend_url: target.chat_ws_url(session_id, user_id),
        }
    }

    /// A task-progress relay, for one task or for all of them, that waits
    /// for its backend connection.
    pub fn task_progress(target: &BackendTarget, task_id: Option<&str>) -> (r: RelaySession)
        ensures
            r.phase == RelayPhase::Dialing,
            r.route == RelayRoute::TaskProgress,
            r.backend_url@ == task_ws_url(target.base_url@, opt_str_view(task_id)),
    {
        RelaySession {
            phase: RelayPhase::Dialing,
            route: RelayRoute::TaskProgress,
            backend_url: target.task_ws_url(task_id),
        }
    }

    /// Whether both connections are closed.
    pub fn is_closed(&self) -> (r: bool)
        ensures
            r == (self.phase == RelayPhase::Closed),
    {
        match self.phase {
            RelayPhase::Closed => true,
            _ => false,
        }
    }

    /// Takes one event and returns what to do. Frames are passed on as they
    /// came; whichever leg ends first closes both.
    pub fn step(&mut self, ev: RelayEvent) -> (r: RelayAction)
        ensures
            (final(self).phase, r) == next(old(self).phase, ev),
            final(self).route == old(self).route,
            final(self).backend_url == old(self).backend_url,
    {
        let teardown = tears_down(&ev);
        match self.phase {
            RelayPhase::Dialing => {
                if teardown {
                    self.phase = RelayPhase::Closed;
                    RelayAction::CloseClient
                } else {
                    match ev {
                        RelayEvent::DialSucceeded => {
                            self.phase = RelayPhase::Relaying;
                            RelayAction::Nothing
                        },
                        _ => RelayAction::Nothing,
                    }
                }
            },
            RelayPhase::Relaying => {
                if teardown {
                    self.phase = RelayPhase::Closed;
                    RelayAction::CloseBoth
                } else {
                    match ev {
                        RelayEvent::FromClient(LegEvent::Received(f)) => match f {
                            Frame::Close | Frame::Other => RelayAction::Nothing,
                            _ => RelayAction::SendToBackend(f),
                        },
                        RelayEvent::FromBackend(LegEvent::Received(f)) => match f {
                            Frame::Close | Frame::Other => RelayAction::Nothing,
                            _ => RelayAction::SendToClient(f),
                        },
                        _ => RelayAction::Nothing,
                    }
                }
            },
            RelayPhase::Closed => RelayAction::Nothing,
        }
    }
}

/// A marker found in a backend text frame, reported in the logs only.
#[derive(Clone, Debug, PartialEq, Eq)]
pub enum DiagnosticMarker {
    ManifestUpdate,
    TaskProgress,
}

/// The marker a backend text frame carries, if any; a manifest update is
/// reported before task progress.
pub open spec fn marker_of(text: Seq<char>) -> Option<DiagnosticMarker> {
    if occurs_in(text, "manifest_update"@) {
        Some(DiagnosticMarker::ManifestUpdate)
    } else if occurs_in(text, "task_progress"@) {
        Some(DiagnosticMarker::TaskProgress)
    } else {
        None
    }
}

/// Looks for a diagnostic marker in a backend text frame. It reads the text
/// only, so the frame is forwarded as it came.
pub fn diagnostic_marker(text: &str) -> (r: Option<DiagnosticMarker>)
    ensures
        r == marker_of(text@),
{
    if contains(text, "manifest_update") {
        Some(DiagnosticMarker::ManifestUpdate)
    } else if contains(text, "task_progress") {
        Some(DiagnosticMarker::TaskProgress)
    } else {
        None
    }
}

/// A session run over a list of events: its last phase and every action.
pub open spec fn run(p: RelayPhase, evs: Seq<RelayEvent>) -> (RelayPhase, Seq<RelayAction>)
    decreases evs.len(),
{
    if evs.len() == 0 {
        (p, seq![])
    } else {
        let (q, acts) = run(p, evs.drop_last());
        let (q2, a) = next(q, evs.last());
        (q2, acts.push(a))
    }
}

/// An event that hands over a message frame from either leg.
pub open spec fn is_data_event(ev: RelayEvent) -> bool {
    match ev {
        RelayEvent::FromClient(LegEvent::Received(f)) => is_data(f),
        RelayEvent::FromBackend(LegEvent::Received(f)) => is_data(f),
        _ => false,
    }
}

/// The frames the client sent, in order.
pub open spec fn client_frames(evs: Seq<RelayEvent>) -> Seq<Frame>
    decreases evs.len(),
{
    if evs.len() == 0 {
        seq![]
    } else {
        match evs.last() {
            RelayEvent::FromClient(LegEvent::Received(f)) => client_frames(evs.drop_last()).push(f),
            _ => client_frames(evs.drop_last()),
        }
    }
}

/// The frames the backend sent, in order.
pub open spec fn backend_frames(evs: Seq<RelayEvent>) -> Seq<Frame>
    decreases evs.len(),
{
    if evs.len() == 0 {
        seq![]
    } else {
        match evs.last() {
            RelayEvent::FromBackend(LegEvent::Received(f)) => backend_frames(evs.drop_last()).push(f),
            _ => backend_frames(evs.drop_last()),
        }
    }
}

/// The frames sent to the backend, in order.
pub open spec fn sent_to_backend(acts: Seq<RelayAction>) -> Seq<Frame>
    decreases acts.len(),
{
    if acts.len() == 0 {
        seq![]
    } else {
        match acts.last() {
            RelayAction::SendToBackend(f) => sent_to_backend(acts.drop_last()).push(f),
            _ => sent_to_backend(acts.drop_last()),
        }
    }
}

/// The frames sent to the client, in order.
pub open spec fn sent_to_client(acts: Seq<RelayAction>) -> Seq<Frame>
    decreases acts.len(),
{
    if acts.len() == 0 {
        seq![]
    } else {
        match acts.last() {
            RelayAction::SendToClient(f) => sent_to_client(acts.drop_last()).push(f),
            _ => sent_to_client(acts.drop_last()),
        }
    }
}

/// While a session relays, every frame each side sends reaches the other
/// side unchanged and in the order it was sent, whatever the interleaving of
/// the two directions.
pub proof fn lemma_relay_preserves_order(evs: Seq<RelayEvent>)
    requires
        forall|i: int| 0 <= i < evs.len() ==> is_data_event(#[trigger] evs[i]),
    ensures
        run(RelayPhase::Relaying, evs).0 == RelayPhase::Relaying,
        sent_to_backend(run(RelayPhase::Relaying, evs).1) == client_frames(evs),
        sent_to_client(run(RelayPhase::Relaying, evs).1) == backend_frames(evs),
    decreases evs.len(),
{
    if evs.len() > 0 {
        let init = evs.drop_last();
        assert forall|i: int| 0 <= i < init.len() implies is_data_event(#[trigger] init[i]) by {
            assert(init[i] == evs[i]);
        }
        lemma_relay_preserves_order(init);
        assert(is_data_event(evs[evs.len() - 1]));
        let acts = run(RelayPhase::Relaying, init).1;
        let a = next(RelayPhase::Relaying, evs.last()).1;
        assert(acts.push(a).drop_last() =~= acts);
        assert(acts.push(a).last() == a);
    }
}

/// Once closed, a session stays closed and does nothing more.
pub proof fn lemma_closed_is_final(evs: Seq<RelayEvent>)
    ensures
        run(RelayPhase::Closed, evs).0 == RelayPhase::Closed,
        forall|i: int|
            0 <= i < evs.len() ==> #[trigger] run(RelayPhase::Closed, evs).1[i]
                == RelayAction::Nothing,
        run(RelayPhase::Closed, evs).1.len() == evs.len(),
    decreases evs.len(),
{
    if evs.len() > 0 {
        lemma_closed_is_final(evs.drop_last());
    }
}

/// When either leg ends while a session relays, or a send fails, both
/// connections are closed in that same step and none stays open.
pub proof fn lemma_teardown_closes_both(ev: RelayEvent)
    requires
        is_teardown(ev),
    ensures
        next(RelayPhase::Relaying, ev) == (RelayPhase::Closed, RelayAction::CloseBoth),
        next(RelayPhase::Dialing, ev) == (RelayPhase::Closed, RelayAction::CloseClient),
        open_connections(next(RelayPhase::Relaying, ev).0) == 0,
{
}

/// Whether some event of a session tears it down.
pub open spec fn has_teardown(evs: Seq<RelayEvent>) -> bool {
    exists|k: int| 0 <= k < evs.len() && is_teardown(#[trigger] evs[k])
}

/// A session whose events hold a teardown, from whatever phase it started,
/// ends with no connection open.
pub proof fn lemma_session_ends_closed(p: RelayPhase, evs: Seq<RelayEvent>)
    requires
        has_teardown(evs),
    ensures
        run(p, evs).0 == RelayPhase::Closed,
        open_connections(run(p, evs).0) == 0,
    decreases evs.len(),
{
    let k = choose|k: int| 0 <= k < evs.len() && is_teardown(#[trigger] evs[k]);
    let init = evs.drop_last();
    if k == evs.len() - 1 {
        let q = run(p, init).0;
        match q {
            RelayPhase::Closed => {},
            _ => {},
        }
    } else {
        assert(init[k] == evs[k]);
        assert(has_teardown(init));
        lemma_session_ends_closed(p, init);
    }
}

/// Open connections left behind by a series of sessions.
pub open spec fn open_after(sessions: Seq<Seq<RelayEvent>>) -> nat
    decreases sessions.len(),
{
    if sessions.len() == 0 {
        0
    } else {
        open_after(sessions.drop_last()) + open_connections(
            run(RelayPhase::Dialing, sessions.last()).0,
        )
    }
}

/// Any number of sessions opened and torn down one after another leave no
/// connection open.
pub proof fn lemma_no_leaked_connections(sessions: Seq<Seq<RelayEvent>>)
    requires
        forall|i: int| 0 <= i < sessions.len() ==> has_teardown(#[trigger] sessions[i]),
    ensures
        open_after(sessions) == 0,
    decreases sessions.len(),
{
    if sessions.len() > 0 {
        let init = sessions.drop_last();
        assert forall|i: int| 0 <= i < init.len() implies has_teardown(#[trigger] init[i]) by {
            assert(init[i] == sessions[i]);
        }
        lemma_no_leaked_connections(init);
        assert(has_teardown(sessions[sessions.len() - 1]));
        lemma_session_ends_closed(RelayPhase::Dialing, sessions.last());
    }
}

} // verus!
