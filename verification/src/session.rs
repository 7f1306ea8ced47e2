//! One connection attempt as a state machine.
//!
//! A session starts by sending `connection_init` and waits for the server's
//! `connection_ack`. Once acknowledged it sends the one `subscribe` and from
//! then on turns every `next` message into trades, until the server
//! completes the subscription, the transport closes, or an error ends the
//! attempt. The driver owns the connection: it hands every event to
//! [`Session::handle`] and carries out the [`Action`] it gets back.

use crate::envelope::{envelope_of, kind_of, Envelope, EnvelopeView, Kind};
use crate::json::{json_document, optional_view, parse_json, Json, JsonView};
use crate::trade::{feed_trades, trades_in, trades_view, Trade, TradeView};
use crate::wire::{ClientMessage, ClientMessageView};
use vstd::prelude::*;
use vstd::string::*;

verus! {

/// Where a session stands.
#[derive(Clone, Copy, Debug, PartialEq, Eq)]
pub enum Phase {
    /// `connection_init` is out, `connection_ack` has not come.
    AwaitingAck,
    /// The server has acknowledged; the subscription runs.
    Subscribed,
    /// The attempt is over.
    Terminated,
}

/// What the transport hands to the session.
#[derive(Debug, PartialEq)]
pub enum Event {
    /// A text message came in.
    Text(String),
    /// A ping frame came in.
    Ping(Vec<u8>),
    /// A close frame came in.
    Close,
    /// A frame of any other sort came in.
    Other,
    /// The stream ended.
    Ended,
    /// Reading from the transport failed.
    ReceiveFailed { reason: String },
    /// The send that the last action asked for failed.
    SendFailed { reason: String },
}

/// The mathematical value of an [`Event`].
pub enum EventView {
    Text(Seq<char>),
    Ping(Seq<u8>),
    Close,
    Other,
    Ended,
    ReceiveFailed { reason: Seq<char> },
    SendFailed { reason: Seq<char> },
}

impl View for Event {
    type V = EventView;

    open spec fn view(&self) -> EventView {
        match self {
            Event::Text(text) => EventView::Text(text@),
            Event::Ping(data) => EventView::Ping(data@),
            Event::Close => EventView::Close,
            Event::Other => EventView::Other,
            Event::Ended => EventView::Ended,
            Event::ReceiveFailed { reason } => EventView::ReceiveFailed { reason: reason@ },
            Event::SendFailed { reason } => EventView::SendFailed { reason: reason@ },
        }
    }
}

/// What the session wants sent.
#[derive(Debug, PartialEq)]
pub enum Outbound {
    /// A text message that holds this envelope.
    Envelope(ClientMessage),
    /// A pong frame with this data.
    Pong(Vec<u8>),
}

/// The mathematical value of an [`Outbound`].
pub enum OutboundView {
    Envelope(ClientMessageView),
    Pong(Seq<u8>),
}

impl View for Outbound {
    type V = OutboundView;

    open spec fn view(&self) -> OutboundView {
        match self {
            Outbound::Envelope(message) => OutboundView::Envelope(message@),
            Outbound::Pong(data) => OutboundView::Pong(data@),
        }
    }
}

/// Something worth a line in the log that does not end the attempt.
#[derive(Debug, PartialEq)]
pub enum Notice {
    /// A message other than the acknowledgement came before it.
    Unexpected { tag: String },
    /// The server reported an error of the subscription.
    SubscriptionError { payload: Option<Json> },
}

/// The mathematical value of a [`Notice`].
pub enum NoticeView {
    Unexpected { tag: Seq<char> },
    SubscriptionError { payload: Option<JsonView> },
}

impl View for Notice {
    type V = NoticeView;

    open spec fn view(&self) -> NoticeView {
        match self {
            Notice::Unexpected { tag } => NoticeView::Unexpected { tag: tag@ },
            Notice::SubscriptionError { payload } => NoticeView::SubscriptionError {
                payload: optional_view(*payload),
            },
        }
    }
}

/// Why an attempt failed.
#[derive(Debug, PartialEq)]
pub enum Failure {
    /// The server refused the session with `connection_error`.
    Rejected { payload: Option<Json> },
    /// The stream ended before the server acknowledged.
    ClosedBeforeAck,
    /// A text that came before the acknowledgement is no envelope.
    Malformed { text: String },
    /// The transport failed.
    Transport { reason: String },
}

/// The mathematical value of a [`Failure`].
pub enum FailureView {
    Rejected { payload: Option<JsonView> },
    ClosedBeforeAck,
    Malformed { text: Seq<char> },
    Transport { reason: Seq<char> },
}

impl View for Failure {
    type V = FailureView;

    open spec fn view(&self) -> FailureView {
        match self {
            Failure::Rejected { payload } => FailureView::Rejected {
                payload: optional_view(*payload),
            },
            Failure::ClosedBeforeAck => FailureView::ClosedBeforeAck,
            Failure::Malformed { text } => FailureView::Malformed { text: text@ },
            Failure::Transport { reason } => FailureView::Transport { reason: reason@ },
        }
    }
}

/// What the driver does next.
#[derive(Debug, PartialEq)]
pub enum Action {
    /// Nothing: read on.
    Idle,
    /// Log this, then read on.
    Report(Notice),
    /// Send this, then read on; report a failed send as
    /// [`Event::SendFailed`].
    Send(Outbound),
    /// Hand each of these trades to the sink, in order, then read on.
    Deliver(Vec<Trade>),
    /// Stop: the attempt is over, cleanly or with this failure.
    Finish(Result<(), Failure>),
}

/// The mathematical value of an [`Action`].
pub enum ActionView {
    Idle,
    Report(NoticeView),
    Send(OutboundView),
    Deliver(Seq<TradeView>),
    Finish(Result<(), FailureView>),
}

impl View for Action {
    type V = ActionView;

    open spec fn view(&self) -> ActionView {
        match self {
            Action::Idle => ActionView::Idle,
            Action::Report(notice) => ActionView::Report(notice@),
            Action::Send(outbound) => ActionView::Send(outbound@),
            Action::Deliver(trades) => ActionView::Deliver(trades_view(trades@)),
            Action::Finish(Ok(())) => ActionView::Finish(Ok(())),
            Action::Finish(Err(failure)) => ActionView::Finish(Err(failure@)),
        }
    }
}

/// The sum of two counts, held at the largest count a session can keep.
pub open spec fn capped_sum(count: nat, more: nat) -> nat {
    if count + more > u64::MAX {
        u64::MAX as nat
    } else {
        count + more
    }
}

/// The mathematical value of a [`Session`].
pub struct SessionState {
    pub phase: Phase,
    /// How many trades the session has delivered.
    pub delivered: nat,
    /// Whether a failed send ends the attempt: it does until the first
    /// event after the acknowledgement has come in.
    pub strict_send: bool,
}

impl SessionState {
    /// A session that has just sent `connection_init`.
    pub open spec fn initial() -> SessionState {
        SessionState { phase: Phase::AwaitingAck, delivered: 0, strict_send: true }
    }

    /// This session, over.
    pub open spec fn ended(self) -> SessionState {
        SessionState { phase: Phase::Terminated, ..self }
    }

    /// This session after something has come in: once the subscription
    /// runs, a failed send no longer ends the attempt.
    pub open spec fn received(self) -> SessionState {
        match self.phase {
            Phase::Subscribed => SessionState { strict_send: false, ..self },
            _ => self,
        }
    }

    /// What a session that awaits the acknowledgement makes of a text that
    /// reads as `envelope`.
    pub open spec fn on_text_awaiting(self, text: Seq<char>, envelope: Option<EnvelopeView>) -> (
        SessionState,
        ActionView,
    ) {
        match envelope {
            None => (self.ended(), ActionView::Finish(Err(FailureView::Malformed { text }))),
            Some(e) => match kind_of(e.tag) {
                Kind::ConnectionAck => (
                    SessionState { phase: Phase::Subscribed, ..self },
                    ActionView::Send(OutboundView::Envelope(ClientMessageView::Subscribe)),
                ),
                Kind::ConnectionError => (
                    self.ended(),
                    ActionView::Finish(Err(FailureView::Rejected { payload: e.payload })),
                ),
                _ => (self, ActionView::Report(NoticeView::Unexpected { tag: e.tag })),
            },
        }
    }

    /// What a subscribed session makes of a text that reads as `envelope`.
    pub open spec fn on_text_subscribed(self, envelope: Option<EnvelopeView>) -> (
        SessionState,
        ActionView,
    ) {
        let live = self.received();
        match envelope {
            None => (live, ActionView::Idle),
            Some(e) => match kind_of(e.tag) {
                Kind::Next => (
                    SessionState {
                        delivered: capped_sum(self.delivered, feed_trades(e.payload).len()),
                        ..live
                    },
                    ActionView::Deliver(feed_trades(e.payload)),
                ),
                Kind::Ping => (
                    live,
                    ActionView::Send(OutboundView::Envelope(ClientMessageView::Pong)),
                ),
                Kind::Error => (
                    live,
                    ActionView::Report(NoticeView::SubscriptionError { payload: e.payload }),
                ),
                Kind::Complete => (live.ended(), ActionView::Finish(Ok(()))),
                _ => (live, ActionView::Idle),
            },
        }
    }

    /// What the session makes of the text `text`, given the document `doc`
    /// that the text stands for, if it stands for one.
    pub open spec fn on_text(self, text: Seq<char>, doc: Option<JsonView>) -> (
        SessionState,
        ActionView,
    ) {
        let envelope = match doc {
            Some(d) => envelope_of(d),
            None => None,
        };
        match self.phase {
            Phase::AwaitingAck => self.on_text_awaiting(text, envelope),
            Phase::Subscribed => self.on_text_subscribed(envelope),
            Phase::Terminated => (self, ActionView::Idle),
        }
    }

    /// The session after `event`, and what the driver is to do.
    pub open spec fn step(self, event: EventView) -> (SessionState, ActionView) {
        match self.phase {
            Phase::Terminated => (self, ActionView::Idle),
            _ => match event {
                EventView::Text(text) => self.on_text(text, json_document(text)),
                EventView::Ping(data) => (
                    self.received(),
                    ActionView::Send(OutboundView::Pong(data)),
                ),
                EventView::Close => match self.phase {
                    Phase::AwaitingAck => (self, ActionView::Idle),
                    _ => (self.received().ended(), ActionView::Finish(Ok(()))),
                },
                EventView::Other => (self.received(), ActionView::Idle),
                EventView::Ended => match self.phase {
                    Phase::AwaitingAck => (
                        self.ended(),
                        ActionView::Finish(Err(FailureView::ClosedBeforeAck)),
                    ),
                    _ => (self.received().ended(), ActionView::Finish(Ok(()))),
                },
                EventView::ReceiveFailed { reason } => (
                    self.received().ended(),
                    ActionView::Finish(Err(FailureView::Transport { reason })),
                ),
                EventView::SendFailed { reason } => if self.strict_send {
                    (self.ended(), ActionView::Finish(Err(FailureView::Transport { reason })))
                } else {
                    (self, ActionView::Idle)
                },
            },
        }
    }
}

/// One connection attempt.
#[derive(Debug)]
pub struct Session {
    phase: Phase,
    delivered: u64,
    strict_send: bool,
}

impl View for Session {
    type V = SessionState;

    closed spec fn view(&self) -> SessionState {
        SessionState {
            phase: self.phase,
            delivered: self.delivered as nat,
            strict_send: self.strict_send,
        }
    }
}

impl Session {
    /// Opens a session on a fresh connection. The message that comes with
    /// it is the first to send, and a failure to send it ends the attempt.
    pub fn start(token: &str) -> (opening: (Session, ClientMessage))
        ensures
            opening.0@ == SessionState::initial(),
            opening.1@ == (ClientMessageView::ConnectionInit { token: token@ }),
    {
        let session = Session { phase: Phase::AwaitingAck, delivered: 0, strict_send: true };
        (session, ClientMessage::ConnectionInit { token: String::from_str(token) })
    }

    /// Where the session stands.
    pub fn phase(&self) -> (phase: Phase)
        ensures
            phase == self@.phase,
    {
        self.phase
    }

    /// How many trades the session has delivered.
    pub fn delivered(&self) -> (count: u64)
        ensures
            count == self@.delivered,
    {
        self.delivered
    }

    fn end(&mut self)
        ensures
            final(self)@ == old(self)@.ended(),
    {
        self.phase = Phase::Terminated;
    }

    fn note_received(&mut self)
        ensures
            final(self)@ == old(self)@.received(),
    {
        if let Phase::Subscribed = self.phase {
            self.strict_send = false;
        }
    }

    fn count(&mut self, trades: &Vec<Trade>)
        ensures
            final(self)@ == (SessionState {
                delivered: capped_sum(old(self)@.delivered, trades@.len()),
                ..old(self)@
            }),
    {
        let more: u64 = trades.len() as u64;
        self.delivered = if more > u64::MAX - self.delivered {
            u64::MAX
        } else {
            self.delivered + more
        };
    }

    /// Takes in the text message `text`, of which `doc` is the document it
    /// stands for, or `None` if it stands for none.
    pub fn handle_document(&mut self, text: String, doc: Option<Json>) -> (action: Action)
        ensures
            (final(self)@, action@) == old(self)@.on_text(text@, optional_view(doc)),
    {
        let envelope = match doc {
            Some(d) => Envelope::from_json(d),
            None => None,
        };
        match self.phase {
            Phase::Terminated => Action::Idle,
            Phase::AwaitingAck => match envelope {
                None => {
                    self.end();
                    Action::Finish(Err(Failure::Malformed { text }))
                },
                Some(e) => match e.kind() {
                    Kind::ConnectionAck => {
                        self.phase = Phase::Subscribed;
                        Action::Send(Outbound::Envelope(ClientMessage::Subscribe))
                    },
                    Kind::ConnectionError => {
                        self.end();
                        Action::Finish(Err(Failure::Rejected { payload: e.payload }))
                    },
                    _ => Action::Report(Notice::Unexpected { tag: e.tag }),
                },
            },
            Phase::Subscribed => {
                self.note_received();
                match envelope {
                    None => Action::Idle,
                    Some(e) => match e.kind() {
                        Kind::Next => {
                            let trades = trades_in(&e.payload);
                            self.count(&trades);
                            Action::Deliver(trades)
                        },
                        Kind::Ping => Action::Send(Outbound::Envelope(ClientMessage::Pong)),
                        Kind::Error => Action::Report(
                            Notice::SubscriptionError { payload: e.payload },
                        ),
                        Kind::Complete => {
                            self.end();
                            Action::Finish(Ok(()))
                        },
                        _ => Action::Idle,
                    },
                }
            },
        }
    }

    /// Takes in one event and says what to do next. A session that is over
    /// stays as it is and answers [`Action::Idle`].
    pub fn handle(&mut self, event: Event) -> (action: Action)
        ensures
            (final(self)@, action@) == old(self)@.step(event@),
    {
        if let Phase::Terminated = self.phase {
            return Action::Idle;
        }
        match event {
            Event::Text(text) => {
                let doc = parse_json(text.as_str());
                self.handle_document(text, doc)
            },
            Event::Ping(data) => {
                self.note_received();
                Action::Send(Outbound::Pong(data))
            },
            Event::Close => match self.phase {
                Phase::AwaitingAck => Action::Idle,
                _ => {
                    self.note_received();
                    self.end();
                    Action::Finish(Ok(()))
                },
            },
            Event::Other => {
                self.note_received();
                Action::Idle
            },
            Event::Ended => match self.phase {
                Phase::AwaitingAck => {
                    self.end();
                    Action::Finish(Err(Failure::ClosedBeforeAck))
                },
                _ => {
                    self.note_received();
                    self.end();
                    Action::Finish(Ok(()))
                },
            },
            Event::ReceiveFailed { reason } => {
                self.note_received();
                self.end();
                Action::Finish(Err(Failure::Transport { reason }))
            },
            Event::SendFailed { reason } => if self.strict_send {
                self.end();
                Action::Finish(Err(Failure::Transport { reason }))
            } else {
                Action::Idle
            },
        }
    }
}

impl SessionState {
    /// The session after a run of events, oldest first.
    pub open spec fn run(self, events: Seq<EventView>) -> SessionState
        decreases events.len(),
    {
        if events.len() == 0 {
            self
        } else {
            self.run(events.drop_last()).step(events.last()).0
        }
    }

    /// What the session answers to event `i` of a run of events.
    pub open spec fn answer(self, events: Seq<EventView>, i: int) -> ActionView {
        self.run(events.take(i)).step(events[i]).1
    }
}

/// How far a phase is along the way of a session.
pub open spec fn rank(phase: Phase) -> nat {
    match phase {
        Phase::AwaitingAck => 0,
        Phase::Subscribed => 1,
        Phase::Terminated => 2,
    }
}

/// Whether an event is a text message of the kind `kind`.
pub open spec fn carries(event: EventView, kind: Kind) -> bool {
    &&& event matches EventView::Text(text)
    &&& json_document(text) matches Some(doc)
    &&& envelope_of(doc) matches Some(envelope)
    &&& kind_of(envelope.tag) == kind
}

/// Whether an action sends the message `message`.
pub open spec fn sends(action: ActionView, message: ClientMessageView) -> bool {
    action == ActionView::Send(OutboundView::Envelope(message))
}

/// A session sends `subscribe` in answer to the acknowledgement it was
/// waiting for, and to nothing else; having sent it, it is subscribed.
pub proof fn lemma_subscribe_answers_ack(state: SessionState, event: EventView)
    ensures
        sends(state.step(event).1, ClientMessageView::Subscribe) <==> state.phase
            == Phase::AwaitingAck && carries(event, Kind::ConnectionAck),
        sends(state.step(event).1, ClientMessageView::Subscribe) ==> state.step(event).0.phase
            == Phase::Subscribed,
{
}

/// No event makes a session send `connection_init`: that message goes out
/// once, when the session starts, before anything else is sent.
pub proof fn lemma_init_goes_first(state: SessionState, event: EventView, token: Seq<char>)
    ensures
        !sends(state.step(event).1, ClientMessageView::ConnectionInit { token }),
{
}

/// A session never goes back to an earlier phase.
pub proof fn lemma_phase_advances(state: SessionState, event: EventView)
    ensures
        rank(state.phase) <= rank(state.step(event).0.phase),
{
}

/// Over a run of events the phase only advances.
pub proof fn lemma_run_advances(state: SessionState, events: Seq<EventView>)
    ensures
        rank(state.phase) <= rank(state.run(events).phase),
    decreases events.len(),
{
    if events.len() > 0 {
        lemma_run_advances(state, events.drop_last());
        lemma_phase_advances(state.run(events.drop_last()), events.last());
    }
}

/// A run of events splits at any point into what came before and what came
/// after.
pub proof fn lemma_run_splits(state: SessionState, events: Seq<EventView>, i: int)
    requires
        0 <= i <= events.len(),
    ensures
        state.run(events) == state.run(events.take(i)).run(events.skip(i)),
    decreases events.len() - i,
{
    if i == events.len() {
        assert(events.take(i) =~= events);
        assert(events.skip(i) =~= Seq::empty());
    } else {
        let rest = events.skip(i);
        assert(rest.drop_last() =~= events.drop_last().skip(i));
        assert(events.drop_last().take(i) =~= events.take(i));
        lemma_run_splits(state, events.drop_last(), i);
    }
}

/// As long as no acknowledgement has come in, a fresh session sends no
/// `subscribe`.
pub proof fn lemma_no_subscribe_before_ack(events: Seq<EventView>, i: int)
    requires
        0 <= i < events.len(),
        forall|k: int| 0 <= k <= i ==> !carries(events[k], Kind::ConnectionAck),
    ensures
        !sends(SessionState::initial().answer(events, i), ClientMessageView::Subscribe),
{
    lemma_subscribe_answers_ack(SessionState::initial().run(events.take(i)), events[i]);
}

/// A session sends `subscribe` at most once.
pub proof fn lemma_subscribe_once(events: Seq<EventView>, i: int, j: int)
    requires
        0 <= i < j < events.len(),
        sends(SessionState::initial().answer(events, i), ClientMessageView::Subscribe),
    ensures
        !sends(SessionState::initial().answer(events, j), ClientMessageView::Subscribe),
{
    let start = SessionState::initial();
    let before = start.run(events.take(i));
    let after = before.step(events[i]).0;
    lemma_subscribe_answers_ack(before, events[i]);
    assert(after == start.run(events.take(i + 1))) by {
        assert(events.take(i + 1).drop_last() =~= events.take(i));
    }
    let later = events.take(j);
    lemma_run_splits(start, later, i + 1);
    assert(later.take(i + 1) =~= events.take(i + 1));
    lemma_run_advances(after, later.skip(i + 1));
    lemma_subscribe_answers_ack(start.run(later), events[j]);
}

/// A subscribed session answers a `ping` message with exactly one `pong`
/// message; nothing is delivered and the session stays as it is.
pub proof fn lemma_ping_is_answered(state: SessionState, event: EventView)
    requires
        state.phase == Phase::Subscribed,
        carries(event, Kind::Ping),
    ensures
        sends(state.step(event).1, ClientMessageView::Pong),
        state.step(event).0.phase == Phase::Subscribed,
        state.step(event).0.delivered == state.delivered,
{
}

/// A session that is not over answers a ping frame with exactly one pong
/// frame that carries the same data; nothing is delivered.
pub proof fn lemma_ping_frame_is_answered(state: SessionState, data: Seq<u8>)
    requires
        state.phase != Phase::Terminated,
    ensures
        state.step(EventView::Ping(data)).1 == ActionView::Send(OutboundView::Pong(data)),
        state.step(EventView::Ping(data)).0.phase == state.phase,
        state.step(EventView::Ping(data)).0.delivered == state.delivered,
{
}

/// Trades are delivered by a subscribed session in answer to a `next`
/// message and on no other occasion, and they are counted as they go out.
pub proof fn lemma_delivery(state: SessionState, event: EventView)
    ensures
        state.step(event).1 is Deliver ==> state.phase == Phase::Subscribed && carries(
            event,
            Kind::Next,
        ),
        state.step(event).1 matches ActionView::Deliver(trades) ==> state.step(event).0.delivered
            == capped_sum(state.delivered, trades.len()),
        !(state.step(event).1 is Deliver) ==> state.step(event).0.delivered == state.delivered,
{
}

/// The driver is told to stop exactly when the session ends.
pub proof fn lemma_finish_ends(state: SessionState, event: EventView)
    ensures
        state.step(event).1 is Finish <==> state.phase != Phase::Terminated && state.step(
            event,
        ).0.phase == Phase::Terminated,
{
}

/// A session that is over ignores whatever comes.
pub proof fn lemma_terminated_is_final(state: SessionState, event: EventView)
    requires
        state.phase == Phase::Terminated,
    ensures
        state.step(event) == (state, ActionView::Idle),
{
}

} // verus!
