//! One WebSocket session, from upgrade to close, as a state machine.
//!
//! The transport hands in what happened on the socket, one event at a time;
//! the session answers with what to emit on the host bus. The session never
//! touches the socket or the bus itself, so every rule of the relay is a
//! statement about [`next_state`] and [`emitted`].
//!
//! ```text
//!  Upgrading --(upgraded)--> Active --(stream end | error | close frame)--> Closed
//!  Upgrading --(upgrade failed)--> Closed
//! ```

use vstd::prelude::*;

verus! {

/// One WebSocket message as received.
#[derive(Clone, Debug, PartialEq, Eq)]
pub enum Frame {
    /// A text message; in practice a JPEG data URL, opaque here.
    Text(String),
    /// A binary message.
    Binary(Vec<u8>),
    /// A ping control frame.
    Ping(Vec<u8>),
    /// A pong control frame.
    Pong(Vec<u8>),
    /// A close control frame.
    Close,
}

/// A frame as mathematical values.
pub enum FrameView {
    Text(Seq<char>),
    Binary(Seq<u8>),
    Ping(Seq<u8>),
    Pong(Seq<u8>),
    Close,
}

impl View for Frame {
    type V = FrameView;

    open spec fn view(&self) -> FrameView {
        match self {
            Frame::Text(payload) => FrameView::Text(payload@),
            Frame::Binary(payload) => FrameView::Binary(payload@),
            Frame::Ping(payload) => FrameView::Ping(payload@),
            Frame::Pong(payload) => FrameView::Pong(payload@),
            Frame::Close => FrameView::Close,
        }
    }
}

/// What the transport reports about one connection.
#[derive(Clone, Debug, PartialEq, Eq)]
pub enum SessionEvent {
    /// The WebSocket handshake succeeded.
    Upgraded,
    /// The WebSocket handshake failed.
    UpgradeFailed,
    /// A frame arrived.
    Received(Frame),
    /// The peer's stream ended.
    StreamEnded,
    /// Reading from the socket failed.
    TransportFailed,
}

/// A session event as mathematical values.
pub enum EventView {
    Upgraded,
    UpgradeFailed,
    Received(FrameView),
    StreamEnded,
    TransportFailed,
}

impl View for SessionEvent {
    type V = EventView;

    open spec fn view(&self) -> EventView {
        match self {
            SessionEvent::Upgraded => EventView::Upgraded,
            SessionEvent::UpgradeFailed => EventView::UpgradeFailed,
            SessionEvent::Received(frame) => EventView::Received(frame@),
            SessionEvent::StreamEnded => EventView::StreamEnded,
            SessionEvent::TransportFailed => EventView::TransportFailed,
        }
    }
}

/// One event to emit on the host bus.
#[derive(Clone, Debug, PartialEq, Eq)]
pub enum Emission {
    /// `client-connected`, without payload.
    ClientConnected,
    /// `camera-frame`, with the text of the frame as received.
    CameraFrame(String),
    /// `client-disconnected`, without payload.
    ClientDisconnected,
}

/// An emission as mathematical values.
pub enum EmissionView {
    ClientConnected,
    CameraFrame(Seq<char>),
    ClientDisconnected,
}

impl View for Emission {
    type V = EmissionView;

    open spec fn view(&self) -> EmissionView {
        match self {
            Emission::ClientConnected => EmissionView::ClientConnected,
            Emission::CameraFrame(payload) => EmissionView::CameraFrame(payload@),
            Emission::ClientDisconnected => EmissionView::ClientDisconnected,
        }
    }
}

impl EmissionView {
    /// The name under which the emission goes out on the bus.
    pub open spec fn name(self) -> Seq<char> {
        match self {
            EmissionView::ClientConnected => "client-connected"@,
            EmissionView::CameraFrame(_) => "camera-frame"@,
            EmissionView::ClientDisconnected => "client-disconnected"@,
        }
    }

    /// The payload that goes with it, if it has one.
    pub open spec fn payload(self) -> Option<Seq<char>> {
        match self {
            EmissionView::CameraFrame(text) => Some(text),
            _ => None,
        }
    }
}

impl Emission {
    /// The name under which the emission goes out on the bus.
    pub fn name(&self) -> (name: &'static str)
        ensures
            name@ == self@.name(),
    {
        match self {
            Emission::ClientConnected => "client-connected",
            Emission::CameraFrame(_) => "camera-frame",
            Emission::ClientDisconnected => "client-disconnected",
        }
    }

    /// The payload that goes with it: the frame's text for `camera-frame`,
    /// nothing for the two lifecycle events.
    pub fn payload(&self) -> (payload: Option<&str>)
        ensures
            payload is Some == self@.payload() is Some,
            payload matches Some(text) ==> Some(text@) == self@.payload(),
    {
        match self {
            Emission::CameraFrame(text) => Some(text.as_str()),
            _ => None,
        }
    }
}

/// Where a session stands.
#[derive(Clone, Copy, Debug, PartialEq, Eq, Structural)]
pub enum SessionState {
    /// The handshake has not finished.
    Upgrading,
    /// Frames are being relayed.
    Active,
    /// The session is over.
    Closed,
}

/// Whether the event ends an active session: the stream ended, the
/// transport failed, or the peer sent a close frame.
pub open spec fn ends_session(event: EventView) -> bool {
    event is StreamEnded || event is TransportFailed || event == EventView::Received(
        FrameView::Close,
    )
}

/// The state after `event` is handled in `state`. Events that have no
/// meaning in a state leave it as it is; nothing leaves `Closed`.
pub open spec fn next_state(state: SessionState, event: EventView) -> SessionState {
    match state {
        SessionState::Upgrading => match event {
            EventView::Upgraded => SessionState::Active,
            EventView::UpgradeFailed => SessionState::Closed,
            _ => SessionState::Upgrading,
        },
        SessionState::Active => if ends_session(event) {
            SessionState::Closed
        } else {
            SessionState::Active
        },
        SessionState::Closed => SessionState::Closed,
    }
}

/// What is emitted when `event` is handled in `state`: `client-connected`
/// on entering `Active`, `camera-frame` for a text frame while `Active`,
/// `client-disconnected` on leaving `Active`, and nothing otherwise.
pub open spec fn emitted(state: SessionState, event: EventView) -> Option<EmissionView> {
    match state {
        SessionState::Upgrading => match event {
            EventView::Upgraded => Some(EmissionView::ClientConnected),
            _ => None,
        },
        SessionState::Active => match event {
            EventView::Received(FrameView::Text(text)) => Some(EmissionView::CameraFrame(text)),
            _ => if ends_session(event) {
                Some(EmissionView::ClientDisconnected)
            } else {
                None
            },
        },
        SessionState::Closed => None,
    }
}

/// The state after a run of events, handled in order from `start`.
pub open spec fn state_after(start: SessionState, events: Seq<EventView>) -> SessionState
    decreases events.len(),
{
    if events.len() == 0 {
        start
    } else {
        next_state(state_after(start, events.drop_last()), events.last())
    }
}

/// Everything emitted over a run of events handled in order from `start`.
pub open spec fn trace(start: SessionState, events: Seq<EventView>) -> Seq<EmissionView>
    decreases events.len(),
{
    if events.len() == 0 {
        Seq::empty()
    } else {
        let before = events.drop_last();
        match emitted(state_after(start, before), events.last()) {
            Some(emission) => trace(start, before).push(emission),
            None => trace(start, before),
        }
    }
}

/// The events of a vector, as mathematical values.
pub open spec fn events_view(events: Seq<SessionEvent>) -> Seq<EventView> {
    events.map_values(|event: SessionEvent| event@)
}

/// The emissions of a vector, as mathematical values.
pub open spec fn emissions_view(emissions: Seq<Emission>) -> Seq<EmissionView> {
    emissions.map_values(|emission: Emission| emission@)
}

/// One accepted connection.
pub struct Session {
    state: SessionState,
}

impl View for Session {
    type V = SessionState;

    closed spec fn view(&self) -> SessionState {
        self.state
    }
}

impl Session {
    /// A session whose handshake is under way.
    pub fn new() -> (session: Session)
        ensures
            session@ == SessionState::Upgrading,
    {
        Session { state: SessionState::Upgrading }
    }

    /// Where the session stands.
    pub fn state(&self) -> (state: SessionState)
        ensures
            state == self@,
    {
        self.state
    }

    /// Handles one event: moves the session on and says what to emit.
    pub fn handle(&mut self, event: SessionEvent) -> (emission: Option<Emission>)
        ensures
            final(self)@ == next_state(old(self)@, event@),
            emission is Some == emitted(old(self)@, event@) is Some,
            emission matches Some(e) ==> Some(e@) == emitted(old(self)@, event@),
    {
        match self.state {
            SessionState::Upgrading => match event {
                SessionEvent::Upgraded => {
                    self.state = SessionState::Active;
                    Some(Emission::ClientConnected)
                },
                SessionEvent::UpgradeFailed => {
                    self.state = SessionState::Closed;
                    None
                },
                _ => None,
            },
            SessionState::Active => match event {
                SessionEvent::Received(Frame::Text(text)) => Some(Emission::CameraFrame(text)),
                SessionEvent::Received(Frame::Close)
                | SessionEvent::StreamEnded
                | SessionEvent::TransportFailed => {
                    self.state = SessionState::Closed;
                    Some(Emission::ClientDisconnected)
                },
                _ => None,
            },
            SessionState::Closed => None,
        }
    }
}

impl Session {
    /// Handles a run of events in order and collects what to emit, in the
    /// order in which it is to be emitted.
    pub fn relay(&mut self, events: Vec<SessionEvent>) -> (emissions: Vec<Emission>)
        ensures
            final(self)@ == state_after(old(self)@, events_view(events@)),
            emissions_view(emissions@) == trace(old(self)@, events_view(events@)),
    {
        let ghost start = self@;
        let ghost all = events_view(events@);
        let mut emissions: Vec<Emission> = Vec::new();
        for event in it: events
            invariant
                all == events_view(it.seq()),
                self@ == state_after(start, all.take(it.index() as int)),
                emissions_view(emissions@) == trace(start, all.take(it.index() as int)),
        {
            let ghost done = it.index() as int;
            assert(all.take(done + 1).drop_last() =~= all.take(done));
            if let Some(emission) = self.handle(event) {
                emissions.push(emission);
            }
        }
        assert(all.take(all.len() as int) =~= all);
        emissions
    }
}

/// How many `client-connected` the emissions hold.
pub open spec fn connects(emissions: Seq<EmissionView>) -> nat
    decreases emissions.len(),
{
    if emissions.len() == 0 {
        0
    } else if emissions.last() is ClientConnected {
        connects(emissions.drop_last()) + 1
    } else {
        connects(emissions.drop_last())
    }
}

/// How many `client-disconnected` the emissions hold.
pub open spec fn disconnects(emissions: Seq<EmissionView>) -> nat
    decreases emissions.len(),
{
    if emissions.len() == 0 {
        0
    } else if emissions.last() is ClientDisconnected {
        disconnects(emissions.drop_last()) + 1
    } else {
        disconnects(emissions.drop_last())
    }
}

/// The payloads of the text frames among the events, in order of arrival.
pub open spec fn texts_of(events: Seq<EventView>) -> Seq<Seq<char>>
    decreases events.len(),
{
    if events.len() == 0 {
        Seq::empty()
    } else {
        match events.last() {
            EventView::Received(FrameView::Text(text)) => texts_of(events.drop_last()).push(text),
            _ => texts_of(events.drop_last()),
        }
    }
}

/// One `camera-frame` emission for each payload, in order.
pub open spec fn camera_frames(payloads: Seq<Seq<char>>) -> Seq<EmissionView> {
    payloads.map_values(|text: Seq<char>| EmissionView::CameraFrame(text))
}

/// The payloads of the `camera-frame` emissions, in order.
pub open spec fn payloads_of(emissions: Seq<EmissionView>) -> Seq<Seq<char>>
    decreases emissions.len(),
{
    if emissions.len() == 0 {
        Seq::empty()
    } else {
        match emissions.last() {
            EmissionView::CameraFrame(text) => payloads_of(emissions.drop_last()).push(text),
            _ => payloads_of(emissions.drop_last()),
        }
    }
}

/// Every text frame among the events arrives while the session is active:
/// none before the handshake has succeeded, none after the session has
/// closed.
pub open spec fn texts_arrive_while_active(start: SessionState, events: Seq<EventView>) -> bool {
    forall|i: int|
        0 <= i < events.len() && (#[trigger] events[i] matches EventView::Received(
            FrameView::Text(_),
        )) ==> state_after(start, events.take(i)) == SessionState::Active
}

/// A `camera-frame` is emitted for a text frame received while active, with
/// the frame's own payload, and for nothing else: no binary, ping, pong or
/// close frame, and no event outside `Active`, produces one.
pub proof fn law_only_text_is_forwarded(state: SessionState, event: EventView, text: Seq<char>)
    ensures
        emitted(state, event) == Some(EmissionView::CameraFrame(text)) <==> state
            == SessionState::Active && event == EventView::Received(FrameView::Text(text)),
{
}

/// Handling a run of events is handling its first part and then the rest
/// from where the first part left the session.
pub proof fn law_run_splits(start: SessionState, first: Seq<EventView>, rest: Seq<EventView>)
    ensures
        state_after(start, first + rest) == state_after(state_after(start, first), rest),
        trace(start, first + rest) == trace(start, first) + trace(state_after(start, first), rest),
    decreases rest.len(),
{
    if rest.len() > 0 {
        law_run_splits(start, first, rest.drop_last());
        assert((first + rest).drop_last() =~= first + rest.drop_last());
    }
}

/// A closed session stays closed and emits nothing, whatever arrives.
pub proof fn law_closed_is_silent(events: Seq<EventView>)
    ensures
        state_after(SessionState::Closed, events) == SessionState::Closed,
        trace(SessionState::Closed, events) == Seq::<EmissionView>::empty(),
    decreases events.len(),
{
    if events.len() > 0 {
        law_closed_is_silent(events.drop_last());
    }
}

/// Over any run of events from the handshake on, a session announces at
/// most one connection; it announces no disconnection while it is not
/// closed, and once it is closed it has announced exactly one disconnection
/// for a connection it announced and none otherwise, whatever closed it.
pub proof fn law_one_disconnect_per_connect(events: Seq<EventView>)
    ensures
        ({
            let out = trace(SessionState::Upgrading, events);
            match state_after(SessionState::Upgrading, events) {
                SessionState::Upgrading => connects(out) == 0 && disconnects(out) == 0,
                SessionState::Active => connects(out) == 1 && disconnects(out) == 0,
                SessionState::Closed => connects(out) <= 1 && disconnects(out) == connects(out),
            }
        }),
    decreases events.len(),
{
    if events.len() > 0 {
        law_one_disconnect_per_connect(events.drop_last());
        let before = trace(SessionState::Upgrading, events.drop_last());
        match emitted(state_after(SessionState::Upgrading, events.drop_last()), events.last()) {
            Some(emission) => {
                assert(before.push(emission).drop_last() =~= before);
            },
            None => {},
        }
    }
}

/// Where every text frame arrives while the session is active, the
/// `camera-frame` emissions carry exactly the payloads of the text frames
/// received: one emission per frame, the payload unchanged, in the order of
/// arrival.
pub proof fn law_every_text_frame_once(start: SessionState, events: Seq<EventView>)
    requires
        texts_arrive_while_active(start, events),
    ensures
        payloads_of(trace(start, events)) == texts_of(events),
    decreases events.len(),
{
    if events.len() > 0 {
        let before = events.drop_last();
        assert(texts_arrive_while_active(start, before)) by {
            assert forall|i: int|
                0 <= i < before.len() && (#[trigger] before[i] matches EventView::Received(
                    FrameView::Text(_),
                )) implies state_after(start, before.take(i)) == SessionState::Active by {
                assert(before[i] == events[i]);
                assert(before.take(i) =~= events.take(i));
            }
        }
        law_every_text_frame_once(start, before);
        if let Some(emission) = emitted(state_after(start, before), events.last()) {
            assert(trace(start, before).push(emission).drop_last() =~= trace(start, before));
        }
    }
}

/// While nothing ends the session, an active session stays active and emits
/// exactly one `camera-frame` per text frame received, with the frame's own
/// payload and in the order of arrival, and nothing else.
pub proof fn law_frames_in_order(events: Seq<EventView>)
    requires
        forall|i: int| 0 <= i < events.len() ==> !ends_session(#[trigger] events[i]),
    ensures
        state_after(SessionState::Active, events) == SessionState::Active,
        trace(SessionState::Active, events) == camera_frames(texts_of(events)),
    decreases events.len(),
{
    if events.len() > 0 {
        law_frames_in_order(events.drop_last());
    }
}

/// Handling a single event from `start` is one step of the machine.
pub proof fn law_single_event(start: SessionState, event: EventView)
    ensures
        state_after(start, seq![event]) == next_state(start, event),
        trace(start, seq![event]) == match emitted(start, event) {
            Some(emission) => seq![emission],
            None => Seq::<EmissionView>::empty(),
        },
{
    reveal_with_fuel(state_after, 2);
    reveal_with_fuel(trace, 2);
}

/// A whole session: after a successful handshake, events that do not end
/// the session, then one that does. The bus sees `client-connected`, one
/// `camera-frame` per text frame in order of arrival, and
/// `client-disconnected`, and the session is closed.
pub proof fn law_whole_session(during: Seq<EventView>, last: EventView)
    requires
        forall|i: int| 0 <= i < during.len() ==> !ends_session(#[trigger] during[i]),
        ends_session(last),
    ensures
        state_after(SessionState::Upgrading, seq![EventView::Upgraded] + during + seq![last])
            == SessionState::Closed,
        trace(SessionState::Upgrading, seq![EventView::Upgraded] + during + seq![last]) == seq![
            EmissionView::ClientConnected,
        ] + camera_frames(texts_of(during)) + seq![EmissionView::ClientDisconnected],
{
    let opening = seq![EventView::Upgraded];
    let closing = seq![last];
    law_single_event(SessionState::Upgrading, EventView::Upgraded);
    law_frames_in_order(during);
    law_run_splits(SessionState::Upgrading, opening, during);
    law_single_event(SessionState::Active, last);
    law_run_splits(SessionState::Upgrading, opening + during, closing);
}

} // verus!
