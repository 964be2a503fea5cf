//! The per-subscriber notification session: a state machine that the transport
//! drives with events and that answers with the next thing to do.
use vstd::prelude::*;

use crate::frame::{
    ButtonState, ControllerData, button_mask, default_frame, frame_bytes, get_button_value,
    serialize_controller_data,
};

verus! {

/// Period between two frames of an active session, in milliseconds.
pub const TICK_MILLIS: u64 = 2;

/// Stick value that marks a live stream while no real input is wired.
pub const LIVENESS_MARK: u8 = 255;

/// Where a session stands.
#[derive(Clone, Copy, Debug, PartialEq, Eq, Structural)]
pub enum SessionState {
    Idle,
    Active,
    Stopped,
}

/// What the transport reports to a session.
#[derive(Clone, Copy, Debug, PartialEq, Eq, Structural)]
pub enum SessionEvent {
    /// A central subscribed to the telemetry characteristic.
    Subscribed,
    /// The period elapsed; the switches read now are given.
    Tick(ButtonState),
    /// The last frame handed out was delivered.
    Delivered,
    /// The last frame handed out could not be delivered.
    DeliveryFailed,
    /// The central unsubscribed, or the service is being torn down.
    Unsubscribed,
}

/// What the transport is to do after an event.
#[derive(Debug)]
pub enum SessionAction {
    /// Nothing now: wait for the next event.
    Wait,
    /// Deliver these bytes to the subscriber, then report how it went.
    Send(Vec<u8>),
    /// The session has just ended: cancel its periodic task and drop it.
    Release,
}

/// What a session holds: its state and its sequence counter.
#[derive(Clone, Copy, Debug, PartialEq, Eq, Structural)]
pub struct SessionModel {
    pub state: SessionState,
    pub count: u8,
}

/// One subscriber's session. Only its own methods read or change it.
#[derive(Debug)]
pub struct NotificationSession {
    state: SessionState,
    count: u8,
}

impl View for NotificationSession {
    type V = SessionModel;

    closed spec fn view(&self) -> SessionModel {
        SessionModel { state: self.state, count: self.count }
    }
}

/// The counter after one delivered frame: one more, and back to 0 from 255 on.
pub open spec fn next_count(c: u8) -> u8 {
    if c >= 255 {
        0
    } else {
        (c + 1) as u8
    }
}

/// The frame of a tick: the rest frame with the given switches and counter, and the
/// first stick's vertical axis at its maximum.
pub open spec fn session_frame(count: u8, buttons: ButtonState) -> ControllerData {
    ControllerData {
        j1_y: 255,
        buttons: button_mask(buttons),
        cont_count: count,
        ..default_frame()
    }
}

/// A session that has not been subscribed yet.
pub open spec fn fresh_session() -> SessionModel {
    SessionModel { state: SessionState::Idle, count: 0 }
}

/// The session after an event.
pub open spec fn next_session(s: SessionModel, e: SessionEvent) -> SessionModel {
    match e {
        SessionEvent::Subscribed => if s.state == SessionState::Idle {
            SessionModel { state: SessionState::Active, ..s }
        } else {
            s
        },
        SessionEvent::Tick(_) => s,
        SessionEvent::Delivered => if s.state == SessionState::Active {
            SessionModel { count: next_count(s.count), ..s }
        } else {
            s
        },
        SessionEvent::DeliveryFailed | SessionEvent::Unsubscribed => SessionModel {
            state: SessionState::Stopped,
            ..s
        },
    }
}

/// The bytes that an event has the session send, if any: a frame on each tick of an
/// active session, nothing otherwise.
pub open spec fn sent_frame(s: SessionModel, e: SessionEvent) -> Option<Seq<u8>> {
    match e {
        SessionEvent::Tick(b) => if s.state == SessionState::Active {
            Some(frame_bytes(session_frame(s.count, b)))
        } else {
            None
        },
        _ => None,
    }
}

/// Whether an event ends the session.
pub open spec fn ends_session(s: SessionModel, e: SessionEvent) -> bool {
    s.state != SessionState::Stopped && next_session(s, e).state == SessionState::Stopped
}

/// The session after a run of events.
pub open spec fn run_session(s: SessionModel, events: Seq<SessionEvent>) -> SessionModel
    decreases events.len(),
{
    if events.len() == 0 {
        s
    } else {
        run_session(next_session(s, events[0]), events.drop_first())
    }
}

/// How many frames a run of events has the session send.
pub open spec fn send_count(s: SessionModel, events: Seq<SessionEvent>) -> nat
    decreases events.len(),
{
    if events.len() == 0 {
        0
    } else {
        (if sent_frame(s, events[0]) is Some {
            1nat
        } else {
            0nat
        }) + send_count(next_session(s, events[0]), events.drop_first())
    }
}

/// One period of a healthy stream: a tick, then the delivery of its frame.
pub open spec fn delivery_round(b: ButtonState) -> Seq<SessionEvent> {
    seq![SessionEvent::Tick(b), SessionEvent::Delivered]
}

/// `n` healthy periods in a row.
pub open spec fn delivery_rounds(n: nat, b: ButtonState) -> Seq<SessionEvent>
    decreases n,
{
    if n == 0 {
        Seq::empty()
    } else {
        delivery_rounds((n - 1) as nat, b) + delivery_round(b)
    }
}

/// Builds the frame of a tick.
pub fn session_frame_value(count: u8, buttons: ButtonState) -> (r: ControllerData)
    ensures
        r == session_frame(count, buttons),
{
    ControllerData {
        buttons: get_button_value(buttons),
        cont_count: count,
        j1_y: LIVENESS_MARK,
        ..ControllerData::default()
    }
}

impl NotificationSession {
    /// A session waiting for its subscription.
    pub fn new() -> (r: Self)
        ensures
            r@ == fresh_session(),
    {
        NotificationSession { state: SessionState::Idle, count: 0 }
    }

    /// The session's state.
    pub fn state(&self) -> (r: SessionState)
        ensures
            r == self@.state,
    {
        self.state
    }

    /// The sequence number that the next frame carries.
    pub fn count(&self) -> (r: u8)
        ensures
            r == self@.count,
    {
        self.count
    }

    /// Whether the session still streams or waits for its subscription.
    pub fn is_running(&self) -> (r: bool)
        ensures
            r == (self@.state != SessionState::Stopped),
    {
        self.state != SessionState::Stopped
    }

    /// Takes one event and says what the transport is to do.
    pub fn step(&mut self, event: SessionEvent) -> (r: SessionAction)
        ensures
            final(self)@ == next_session(old(self)@, event),
            sent_frame(old(self)@, event) matches Some(f) ==> r matches SessionAction::Send(v)
                && v@ == f,
            ends_session(old(self)@, event) ==> r is Release,
            sent_frame(old(self)@, event) is None && !ends_session(old(self)@, event) ==> r is Wait,
    {
        match event {
            SessionEvent::Subscribed => {
                if self.state == SessionState::Idle {
                    self.state = SessionState::Active;
                }
                SessionAction::Wait
            },
            SessionEvent::Tick(buttons) => {
                if self.state == SessionState::Active {
                    SessionAction::Send(
                        serialize_controller_data(session_frame_value(self.count, buttons)),
                    )
                } else {
                    SessionAction::Wait
                }
            },
            SessionEvent::Delivered => {
                if self.state == SessionState::Active {
                    // `>=` rather than `==`, so that a corrupted counter still wraps.
                    if self.count >= 255 {
                        self.count = 0;
                    } else {
                        self.count = self.count + 1;
                    }
                }
                SessionAction::Wait
            },
            SessionEvent::DeliveryFailed | SessionEvent::Unsubscribed => {
                self.stop()
            },
        }
    }

    /// Ends the session at once; says `Release` when it was still running.
    pub fn stop(&mut self) -> (r: SessionAction)
        ensures
            final(self)@ == (SessionModel { state: SessionState::Stopped, ..old(self)@ }),
            old(self)@.state != SessionState::Stopped ==> r is Release,
            old(self)@.state == SessionState::Stopped ==> r is Wait,
    {
        if self.state == SessionState::Stopped {
            SessionAction::Wait
        } else {
            self.state = SessionState::Stopped;
            SessionAction::Release
        }
    }
}

proof fn lemma_run_append(s: SessionModel, a: Seq<SessionEvent>, b: Seq<SessionEvent>)
    ensures
        run_session(s, a + b) == run_session(run_session(s, a), b),
        send_count(s, a + b) == send_count(s, a) + send_count(run_session(s, a), b),
    decreases a.len(),
{
    if a.len() == 0 {
        assert(a + b =~= b);
    } else {
        assert((a + b).drop_first() =~= a.drop_first() + b);
        lemma_run_append(next_session(s, a[0]), a.drop_first(), b);
    }
}

/// Once stopped, a session stays stopped and sends nothing, whatever events follow.
pub proof fn lemma_stopped_stays_silent(s: SessionModel, events: Seq<SessionEvent>)
    requires
        s.state == SessionState::Stopped,
    ensures
        run_session(s, events) == s,
        send_count(s, events) == 0,
    decreases events.len(),
{
    if events.len() > 0 {
        lemma_stopped_stays_silent(next_session(s, events[0]), events.drop_first());
    }
}

/// A failed delivery or an unsubscription ends the session: a running session is
/// released at that event, and over any run of events the frames sent are exactly
/// those sent before it.
pub proof fn lemma_no_send_after_stop(
    s: SessionModel,
    before: Seq<SessionEvent>,
    e: SessionEvent,
    after: Seq<SessionEvent>,
)
    requires
        e == SessionEvent::DeliveryFailed || e == SessionEvent::Unsubscribed,
    ensures
        run_session(s, before.push(e)).state == SessionState::Stopped,
        run_session(s, before).state != SessionState::Stopped ==> ends_session(
            run_session(s, before),
            e,
        ),
        send_count(s, before.push(e) + after) == send_count(s, before),
{
    let mid = run_session(s, before);
    let one = seq![e];
    assert(before.push(e) =~= before + one);
    lemma_run_append(s, before, one);
    assert(one.drop_first() =~= Seq::<SessionEvent>::empty());
    assert(one[0] == e);
    assert(run_session(mid, one) == run_session(next_session(mid, e), one.drop_first()));
    assert(send_count(mid, one) == send_count(next_session(mid, e), one.drop_first()));
    lemma_run_append(s, before.push(e), after);
    lemma_stopped_stays_silent(run_session(s, before.push(e)), after);
}

/// A subscribed session whose frames are all delivered numbers them 0, 1, ..., 255,
/// 0, 1, ...: after `n` periods it is still active, its counter is `n` mod 256, and
/// the next frame carries that number.
pub proof fn lemma_counter_wraps(n: nat, b: ButtonState)
    ensures
        run_session(next_session(fresh_session(), SessionEvent::Subscribed), delivery_rounds(n, b))
            == (SessionModel { state: SessionState::Active, count: (n % 256) as u8 }),
        sent_frame(
            run_session(
                next_session(fresh_session(), SessionEvent::Subscribed),
                delivery_rounds(n, b),
            ),
            SessionEvent::Tick(b),
        ) == Some(frame_bytes(session_frame((n % 256) as u8, b))),
    decreases n,
{
    let start = next_session(fresh_session(), SessionEvent::Subscribed);
    if n > 0 {
        let m = (n - 1) as nat;
        lemma_counter_wraps(m, b);
        lemma_run_append(start, delivery_rounds(m, b), delivery_round(b));
        let r = delivery_round(b);
        let x = run_session(start, delivery_rounds(m, b));
        assert(r[0] == SessionEvent::Tick(b));
        assert(r.drop_first()[0] == SessionEvent::Delivered);
        assert(r.drop_first().drop_first() =~= Seq::<SessionEvent>::empty());
        assert(run_session(x, r) == run_session(x, r.drop_first()));
        assert(run_session(x, r.drop_first()) == run_session(
            next_session(x, SessionEvent::Delivered),
            r.drop_first().drop_first(),
        ));
        assert(m % 256 == 255 ==> n % 256 == 0);
        assert(m % 256 < 255 ==> n % 256 == m % 256 + 1);
    }
}

} // verus!
