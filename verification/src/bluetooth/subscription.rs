//! Listening to one connected tracker: reading where it lies, subscribing
//! to its notifications, and turning each into an entry that starts or
//! ends.

use crate::app::App;
use crate::app::AppView;
use crate::bluetooth::link::LinkCheck;
use crate::bluetooth::link::LinkEvent;
use crate::bluetooth::link::LinkStage;
use crate::bluetooth::link::LinkVerdict;
use crate::bluetooth::link::CONNECT_TIMEOUT_SECS;
use crate::bluetooth::link::LIVENESS_TIMEOUT_SECS;
use crate::bluetooth::timeout::Failure;
use crate::clock::now;
use crate::clock::Timestamp;
use crate::entry::is_side;
use crate::entry::TimeLog;
use vstd::prelude::*;

verus! {

/// Seconds given to reading the characteristic's value.
pub const READ_TIMEOUT_SECS: u64 = 5;

/// Seconds given to subscribing, and again to opening the stream of
/// notifications.
pub const SUBSCRIBE_TIMEOUT_SECS: u64 = 3;

/// Seconds without a notification after which the connection is checked.
pub const QUIET_TIMEOUT_SECS: u64 = 5;

/// What the tracker says about how it lies: the first byte of a value of
/// its characteristic. One to eight is the face that is up; anything else
/// means that it rests on an edge.
#[derive(Clone, Copy, Debug, PartialEq, Eq, Structural)]
pub enum Reading {
    /// Read when the session began.
    Initial(u8),
    /// Notified by the tracker.
    Changed(u8),
}

/// The first byte of `payload`, if it has any.
pub open spec fn first_byte(payload: Seq<u8>) -> Option<u8> {
    if payload.len() > 0 {
        Some(payload[0])
    } else {
        None
    }
}

impl AppView {
    /// The state once the tracker has reported face `side` at `now`: with
    /// an entry for `side` running nothing changes, else one starts.
    pub open spec fn after_face(self, side: u8, now: Timestamp) -> AppView {
        if self.open_entry_number() == Some(side) {
            self
        } else {
            self.start_entry(side, now)
        }
    }

    /// The state once `reading` has been taken in at `now`.
    ///
    /// A face starts an entry for its category unless one is running
    /// already. An edge ends the running entry when the tracker notifies
    /// it, and changes nothing when it is found at the start of a session.
    pub open spec fn after_reading(self, reading: Reading, now: Timestamp) -> AppView {
        match reading {
            Reading::Initial(value) => if is_side(value) {
                self.after_face(value, now)
            } else {
                self
            },
            Reading::Changed(value) => if is_side(value) {
                self.after_face(value, now)
            } else {
                self.close_entry_if_open(now)
            },
        }
    }

    /// The state once the tracker has notified `value` at each of `times`,
    /// in their order.
    pub open spec fn after_repeated(self, value: u8, times: Seq<Timestamp>) -> AppView
        decreases times.len(),
    {
        if times.len() == 0 {
            self
        } else {
            self.after_repeated(value, times.drop_last()).after_reading(
                Reading::Changed(value),
                times.last(),
            )
        }
    }

    /// Every entry but the last has ended.
    pub open spec fn only_last_may_run(self) -> bool {
        forall|i: int| 0 <= i < self.today.len() - 1 ==> (#[trigger] self.today[i]).end.is_some()
    }
}

impl App {
    /// Takes in what the tracker reported, as of `now`.
    pub fn apply_reading_at(&mut self, reading: Reading, now: Timestamp)
        ensures
            final(self)@ == old(self)@.after_reading(reading, now),
    {
        let (value, notified): (u8, bool) = match reading {
            Reading::Initial(value) => (value, false),
            Reading::Changed(value) => (value, true),
        };
        if 1 <= value && value <= 8 {
            let running: bool = match self.open_entry_number() {
                Some(number) => number == value,
                None => false,
            };
            if !running {
                self.start_entry_at(value, now);
            }
        } else if notified {
            self.close_entry_if_open(now);
        }
    }

    /// Takes in what the tracker reported, as of the moment of the call:
    /// `apply_reading_at` with some reading of the clock.
    pub fn apply_reading(&mut self, reading: Reading)
        ensures
            exists|now: Timestamp| final(self)@ == old(self)@.after_reading(reading, now),
    {
        let at: Timestamp = now();
        self.apply_reading_at(reading, at);
    }
}

/// How a session ended.
#[derive(Clone, Copy, Debug, PartialEq, Eq, Structural)]
pub enum SessionEnd {
    /// The tracker is gone for now, or its notifications have ceased.
    Completed,
    /// An operation failed or ran out of time.
    Failed,
}

/// What a session is waiting for.
#[derive(Clone, Copy, Debug, PartialEq, Eq, Structural)]
pub enum Subscription {
    /// Making sure, before anything else, that the tracker is connected.
    CheckingFirst(LinkStage),
    /// Reading the characteristic's value.
    ReadingInitial,
    /// Subscribing to the characteristic.
    Subscribing,
    /// Opening the stream of notifications.
    OpeningStream,
    /// Waiting for the next notification.
    Waiting,
    /// Nothing came for a while: making sure that the tracker is still
    /// connected.
    CheckingQuiet(LinkStage),
    Ended(SessionEnd),
}

/// What the caller is to do next.
#[derive(Clone, Copy, Debug, PartialEq, Eq, Structural)]
pub enum SessionRequest {
    /// Ask the tracker whether it is connected.
    IsConnected,
    /// Connect to the tracker.
    Connect,
    /// Read the value of the characteristic.
    ReadValue,
    /// Subscribe to the characteristic.
    Subscribe,
    /// Open the stream of notifications.
    OpenStream,
    /// Wait for the next notification.
    NextNotification,
    /// Nothing: the session is over.
    Finish(SessionEnd),
}

/// How waiting for a notification ended.
#[derive(Debug, PartialEq, Eq)]
pub enum Waited {
    /// Nothing came in time.
    Quiet,
    /// The stream has ended: nothing will ever come.
    Closed,
    /// A notification came, with this value.
    Received(Vec<u8>),
}

/// What the caller has to report.
#[derive(Debug, PartialEq, Eq)]
pub enum SessionEvent {
    /// An answer within a check of the connection.
    Link(LinkEvent),
    ValueRead(Result<Vec<u8>, Failure>),
    Subscribed(Result<(), Failure>),
    StreamOpened(Result<(), Failure>),
    Notification(Waited),
}

/// What the session has decided.
#[derive(Clone, Copy, Debug, PartialEq, Eq, Structural)]
pub struct SessionReaction {
    /// What to take into the shared state, first, under its lock.
    pub reading: Option<Reading>,
    /// The operation to perform after that.
    pub next: SessionRequest,
}

/// The session after an event, with the reading that it passes on.
pub struct SessionStep {
    pub session: Subscription,
    pub reading: Option<Reading>,
}

impl SessionRequest {
    /// The seconds within which the operation has to end.
    pub open spec fn bound(self) -> Option<u64> {
        match self {
            SessionRequest::IsConnected => Some(LIVENESS_TIMEOUT_SECS),
            SessionRequest::Connect => Some(CONNECT_TIMEOUT_SECS),
            SessionRequest::ReadValue => Some(READ_TIMEOUT_SECS),
            SessionRequest::Subscribe => Some(SUBSCRIBE_TIMEOUT_SECS),
            SessionRequest::OpenStream => Some(SUBSCRIBE_TIMEOUT_SECS),
            SessionRequest::NextNotification => Some(QUIET_TIMEOUT_SECS),
            SessionRequest::Finish(_) => None,
        }
    }

    /// The seconds within which the operation has to end. Every operation
    /// of a session is bounded.
    pub fn timeout_secs(&self) -> (secs: Option<u64>)
        ensures
            secs == self.bound(),
            secs == match *self {
                SessionRequest::IsConnected => Some(5u64),
                SessionRequest::Connect => Some(10u64),
                SessionRequest::ReadValue => Some(5u64),
                SessionRequest::Subscribe => Some(3u64),
                SessionRequest::OpenStream => Some(3u64),
                SessionRequest::NextNotification => Some(5u64),
                SessionRequest::Finish(_) => None,
            },
    {
        match self {
            SessionRequest::IsConnected => Some(LIVENESS_TIMEOUT_SECS),
            SessionRequest::Connect => Some(CONNECT_TIMEOUT_SECS),
            SessionRequest::ReadValue => Some(READ_TIMEOUT_SECS),
            SessionRequest::Subscribe => Some(SUBSCRIBE_TIMEOUT_SECS),
            SessionRequest::OpenStream => Some(SUBSCRIBE_TIMEOUT_SECS),
            SessionRequest::NextNotification => Some(QUIET_TIMEOUT_SECS),
            SessionRequest::Finish(_) => None,
        }
    }
}

/// The request of a session that stands for the request of a check.
pub open spec fn link_request(stage: LinkStage) -> SessionRequest {
    match stage {
        LinkStage::Probing => SessionRequest::IsConnected,
        LinkStage::Reconnecting => SessionRequest::Connect,
        LinkStage::Confirming => SessionRequest::IsConnected,
    }
}

impl Subscription {
    /// A session that has not been answered yet.
    pub open spec fn initial() -> Subscription {
        Subscription::CheckingFirst(LinkStage::Probing)
    }

    /// The request that the session is waiting on.
    pub open spec fn pending(self) -> SessionRequest {
        match self {
            Subscription::CheckingFirst(stage) => link_request(stage),
            Subscription::ReadingInitial => SessionRequest::ReadValue,
            Subscription::Subscribing => SessionRequest::Subscribe,
            Subscription::OpeningStream => SessionRequest::OpenStream,
            Subscription::Waiting => SessionRequest::NextNotification,
            Subscription::CheckingQuiet(stage) => link_request(stage),
            Subscription::Ended(end) => SessionRequest::Finish(end),
        }
    }

    /// The session in `phase`, with no reading to pass on.
    pub open spec fn quietly(phase: Subscription) -> SessionStep {
        SessionStep { session: phase, reading: None }
    }

    /// The session after a check of the connection has moved to `check`:
    /// it goes `onward` once the tracker is connected, ends without blame
    /// when the tracker is lost, ends as failed when the check failed, and
    /// stays with the check while that is under way.
    pub open spec fn after_check(
        check: LinkCheck,
        first: bool,
        onward: Subscription,
    ) -> Subscription {
        match check {
            LinkCheck::Running(stage) => if first {
                Subscription::CheckingFirst(stage)
            } else {
                Subscription::CheckingQuiet(stage)
            },
            LinkCheck::Done(LinkVerdict::Connected) => onward,
            LinkCheck::Done(LinkVerdict::Lost) => Subscription::Ended(SessionEnd::Completed),
            LinkCheck::Done(LinkVerdict::Failed) => Subscription::Ended(SessionEnd::Failed),
        }
    }

    /// The session after `event`.
    ///
    /// It begins by making sure that the tracker is connected. Then it
    /// reads the value of the characteristic and passes its first byte on,
    /// before any notification can come. Then it subscribes and opens the
    /// stream of notifications. From there each notification passes its
    /// first byte on; a value without a byte passes nothing. When nothing
    /// comes in time the connection is checked and, if it holds, the wait
    /// goes on.
    ///
    /// The session ends as failed when reading, subscribing, opening the
    /// stream or a check fails or runs out of time. It ends without blame
    /// when the tracker stays lost after one reconnect, or when the stream
    /// ends. A session that is over stays over. An event that does not
    /// answer the pending request changes nothing.
    pub open spec fn after(self, event: SessionEvent) -> SessionStep {
        match (self, event) {
            (Subscription::CheckingFirst(stage), SessionEvent::Link(answer)) => Self::quietly(
                Self::after_check(stage.after(answer), true, Subscription::ReadingInitial),
            ),
            (Subscription::ReadingInitial, SessionEvent::ValueRead(Ok(value))) => SessionStep {
                session: Subscription::Subscribing,
                reading: match first_byte(value@) {
                    Some(byte) => Some(Reading::Initial(byte)),
                    None => None,
                },
            },
            (Subscription::ReadingInitial, SessionEvent::ValueRead(Err(_))) => Self::quietly(
                Subscription::Ended(SessionEnd::Failed),
            ),
            (Subscription::Subscribing, SessionEvent::Subscribed(Ok(_))) => Self::quietly(
                Subscription::OpeningStream,
            ),
            (Subscription::Subscribing, SessionEvent::Subscribed(Err(_))) => Self::quietly(
                Subscription::Ended(SessionEnd::Failed),
            ),
            (Subscription::OpeningStream, SessionEvent::StreamOpened(Ok(_))) => Self::quietly(
                Subscription::Waiting,
            ),
            (Subscription::OpeningStream, SessionEvent::StreamOpened(Err(_))) => Self::quietly(
                Subscription::Ended(SessionEnd::Failed),
            ),
            (Subscription::Waiting, SessionEvent::Notification(Waited::Received(value))) => SessionStep {
                session: Subscription::Waiting,
                reading: match first_byte(value@) {
                    Some(byte) => Some(Reading::Changed(byte)),
                    None => None,
                },
            },
            (Subscription::Waiting, SessionEvent::Notification(Waited::Quiet)) => Self::quietly(
                Subscription::CheckingQuiet(LinkStage::Probing),
            ),
            (Subscription::Waiting, SessionEvent::Notification(Waited::Closed)) => Self::quietly(
                Subscription::Ended(SessionEnd::Completed),
            ),
            (Subscription::CheckingQuiet(stage), SessionEvent::Link(answer)) => Self::quietly(
                Self::after_check(stage.after(answer), false, Subscription::Waiting),
            ),
            _ => Self::quietly(self),
        }
    }

    /// A session that has not been answered yet, and its first request.
    pub fn begin() -> (started: (Subscription, SessionRequest))
        ensures
            started.0 == Subscription::initial(),
            started.1 == SessionRequest::IsConnected,
    {
        (Subscription::CheckingFirst(LinkStage::Probing), SessionRequest::IsConnected)
    }

    /// The request that the session is waiting on.
    pub fn request(&self) -> (request: SessionRequest)
        ensures
            request == self.pending(),
    {
        match self {
            Subscription::CheckingFirst(stage) => link_request_of(*stage),
            Subscription::ReadingInitial => SessionRequest::ReadValue,
            Subscription::Subscribing => SessionRequest::Subscribe,
            Subscription::OpeningStream => SessionRequest::OpenStream,
            Subscription::Waiting => SessionRequest::NextNotification,
            Subscription::CheckingQuiet(stage) => link_request_of(*stage),
            Subscription::Ended(end) => SessionRequest::Finish(*end),
        }
    }

    /// Takes in `event` and says what to take into the shared state and
    /// what to do next.
    pub fn advance(&mut self, event: SessionEvent) -> (reaction: SessionReaction)
        ensures
            *final(self) == old(self).after(event).session,
            reaction.reading == old(self).after(event).reading,
            reaction.next == final(self).pending(),
    {
        let mut reading: Option<Reading> = None;
        match (*self, event) {
            (Subscription::CheckingFirst(stage), SessionEvent::Link(answer)) => {
                *self = resume(stage.step(answer), true, Subscription::ReadingInitial);
            },
            (Subscription::ReadingInitial, SessionEvent::ValueRead(read)) => match read {
                Ok(value) => {
                    *self = Subscription::Subscribing;
                    reading = match leading_byte(&value) {
                        Some(byte) => Some(Reading::Initial(byte)),
                        None => None,
                    };
                },
                Err(_) => {
                    *self = Subscription::Ended(SessionEnd::Failed);
                },
            },
            (Subscription::Subscribing, SessionEvent::Subscribed(ended)) => match ended {
                Ok(_) => {
                    *self = Subscription::OpeningStream;
                },
                Err(_) => {
                    *self = Subscription::Ended(SessionEnd::Failed);
                },
            },
            (Subscription::OpeningStream, SessionEvent::StreamOpened(ended)) => match ended {
                Ok(_) => {
                    *self = Subscription::Waiting;
                },
                Err(_) => {
                    *self = Subscription::Ended(SessionEnd::Failed);
                },
            },
            (Subscription::Waiting, SessionEvent::Notification(waited)) => match waited {
                Waited::Received(value) => {
                    reading = match leading_byte(&value) {
                        Some(byte) => Some(Reading::Changed(byte)),
                        None => None,
                    };
                },
                Waited::Quiet => {
                    *self = Subscription::CheckingQuiet(LinkStage::Probing);
                },
                Waited::Closed => {
                    *self = Subscription::Ended(SessionEnd::Completed);
                },
            },
            (Subscription::CheckingQuiet(stage), SessionEvent::Link(answer)) => {
                *self = resume(stage.step(answer), false, Subscription::Waiting);
            },
            _ => {},
        }
        SessionReaction { reading, next: self.request() }
    }
}

/// The first byte of `payload`, if it has any.
pub fn leading_byte(payload: &Vec<u8>) -> (byte: Option<u8>)
    ensures
        byte == first_byte(payload@),
{
    if payload.len() > 0 {
        Some(payload[0])
    } else {
        None
    }
}

/// The request of a session that stands for the request of a check.
fn link_request_of(stage: LinkStage) -> (request: SessionRequest)
    ensures
        request == link_request(stage),
{
    match stage {
        LinkStage::Probing => SessionRequest::IsConnected,
        LinkStage::Reconnecting => SessionRequest::Connect,
        LinkStage::Confirming => SessionRequest::IsConnected,
    }
}

/// Where the session goes after a check of the connection has moved.
fn resume(check: LinkCheck, first: bool, onward: Subscription) -> (session: Subscription)
    ensures
        session == Subscription::after_check(check, first, onward),
{
    match check {
        LinkCheck::Running(stage) => if first {
            Subscription::CheckingFirst(stage)
        } else {
            Subscription::CheckingQuiet(stage)
        },
        LinkCheck::Done(LinkVerdict::Connected) => onward,
        LinkCheck::Done(LinkVerdict::Lost) => Subscription::Ended(SessionEnd::Completed),
        LinkCheck::Done(LinkVerdict::Failed) => Subscription::Ended(SessionEnd::Failed),
    }
}

/// Whether two events differ at most in why an operation failed.
pub open spec fn same_but_for_failure(a: SessionEvent, b: SessionEvent) -> bool {
    match (a, b) {
        (SessionEvent::Link(x), SessionEvent::Link(y)) => crate::bluetooth::link::same_but_for_failure(
            x,
            y,
        ),
        (SessionEvent::ValueRead(Err(_)), SessionEvent::ValueRead(Err(_))) => true,
        (SessionEvent::Subscribed(Err(_)), SessionEvent::Subscribed(Err(_))) => true,
        (SessionEvent::StreamOpened(Err(_)), SessionEvent::StreamOpened(Err(_))) => true,
        _ => a == b,
    }
}

/// An operation that ran out of time moves the session exactly as one that
/// the platform failed.
pub proof fn lemma_session_timeout_is_failure(
    session: Subscription,
    a: SessionEvent,
    b: SessionEvent,
)
    requires
        same_but_for_failure(a, b),
    ensures
        session.after(a) == session.after(b),
{
}

/// A reading is passed on at two points only: when the value of the
/// characteristic has been read at the start, and then it is the first
/// byte of that value, and the session goes on to subscribe; and when a
/// notification has come, and then it is that notification's first byte.
pub proof fn lemma_session_readings(session: Subscription, event: SessionEvent, reading: Reading)
    requires
        session.after(event).reading == Some(reading),
    ensures
        match reading {
            Reading::Initial(value) => {
                &&& session == Subscription::ReadingInitial
                &&& session.after(event).session == Subscription::Subscribing
                &&& event matches SessionEvent::ValueRead(Ok(payload)) && first_byte(payload@)
                    == Some(value)
            },
            Reading::Changed(value) => {
                &&& session == Subscription::Waiting
                &&& session.after(event).session == Subscription::Waiting
                &&& event matches SessionEvent::Notification(Waited::Received(payload))
                    && first_byte(payload@) == Some(value)
            },
        },
{
}

/// Until a session is over, whatever it asks for is bounded in time.
pub proof fn lemma_session_always_bounded(session: Subscription)
    ensures
        session is Ended <==> session.pending() is Finish,
        !(session is Ended) ==> session.pending().bound().is_some(),
{
}

/// Silence alone never ends a session: it starts a check of the
/// connection, and the wait goes on if the tracker says that it is
/// connected, at once or after one reconnect.
pub proof fn lemma_session_survives_silence(verdict_first: bool)
    ensures
        Subscription::Waiting.after(SessionEvent::Notification(Waited::Quiet)).session
            == Subscription::CheckingQuiet(LinkStage::Probing),
        Subscription::CheckingQuiet(LinkStage::Probing).after(
            SessionEvent::Link(LinkEvent::Liveness(Ok(true))),
        ).session == Subscription::Waiting,
        Subscription::CheckingQuiet(LinkStage::Probing).after(
            SessionEvent::Link(LinkEvent::Liveness(Ok(false))),
        ).session == Subscription::CheckingQuiet(LinkStage::Reconnecting),
        Subscription::CheckingQuiet(LinkStage::Reconnecting).after(
            SessionEvent::Link(LinkEvent::Reconnected(Ok(()))),
        ).session == Subscription::CheckingQuiet(LinkStage::Confirming),
        Subscription::CheckingQuiet(LinkStage::Confirming).after(
            SessionEvent::Link(LinkEvent::Liveness(Ok(verdict_first))),
        ).session == (if verdict_first {
            Subscription::Waiting
        } else {
            Subscription::Ended(SessionEnd::Completed)
        }),
{
}

/// A session that is over stays over and passes nothing on.
pub proof fn lemma_session_end_is_final(end: SessionEnd, event: SessionEvent)
    ensures
        Subscription::Ended(end).after(event).session == Subscription::Ended(end),
        Subscription::Ended(end).after(event).reading.is_none(),
{
}

/// A face that the tracker reports leaves an entry for that face running,
/// and adds at most one entry: none if one for that face was running.
pub proof fn lemma_face_starts_at_most_one_entry(app: AppView, side: u8, now: Timestamp)
    requires
        is_side(side),
    ensures
        app.after_reading(Reading::Changed(side), now).open_entry_number() == Some(side),
        app.after_reading(Reading::Initial(side), now) == app.after_reading(
            Reading::Changed(side),
            now,
        ),
        app.open_entry_number() == Some(side) ==> app.after_reading(Reading::Changed(side), now)
            == app,
        app.open_entry_number() != Some(side) ==> app.after_reading(
            Reading::Changed(side),
            now,
        ).today.len() == app.today.len() + 1,
{
}

/// However often the tracker reports the same face in a row, the outcome
/// is that of the first report: one entry is started for it at the time
/// of that report, or none if one was running, and the later
/// reports change nothing.
pub proof fn lemma_repeated_face_counts_once(app: AppView, side: u8, times: Seq<Timestamp>)
    requires
        is_side(side),
        times.len() >= 1,
    ensures
        app.after_repeated(side, times) == app.after_reading(Reading::Changed(side), times[0]),
        app.after_repeated(side, times).today.len() == app.today.len() + (if app.open_entry_number()
            == Some(side) {
            0int
        } else {
            1int
        }),
    decreases times.len(),
{
    lemma_face_starts_at_most_one_entry(app, side, times[0]);
    if times.len() == 1 {
        assert(times.drop_last().len() == 0);
        assert(app.after_repeated(side, times.drop_last()) == app);
    } else {
        let earlier = times.drop_last();
        assert(earlier[0] == times[0]);
        lemma_repeated_face_counts_once(app, side, earlier);
        lemma_face_starts_at_most_one_entry(
            app.after_reading(Reading::Changed(side), times[0]),
            side,
            times.last(),
        );
    }
}

/// When the tracker reports an edge while an entry is running, exactly
/// that entry ends, at the time of the report: no entry is added, none is
/// left running, every other entry and everything else stays as it was.
/// Its end is not before its start if the report is not. With no entry
/// running nothing changes.
pub proof fn lemma_edge_ends_running_entry(app: AppView, value: u8, now: Timestamp)
    requires
        !is_side(value),
    ensures
        app.after_reading(Reading::Changed(value), now) == app.close_entry_if_open(now),
        app.close_entry_if_open(now).today.len() == app.today.len(),
        app.close_entry_if_open(now).open_entry().is_none(),
        forall|i: int|
            0 <= i < app.today.len() - 1 ==> app.close_entry_if_open(now).today[i] == app.today[i],
        match app.open_entry() {
            Some(entry) => {
                &&& app.close_entry_if_open(now).today.last() == (TimeLog {
                    start: entry.start,
                    end: Some(now),
                    number: entry.number,
                })
                &&& entry.start.spec_le(now) ==> entry.start.spec_le(
                    app.close_entry_if_open(now).today.last().end.unwrap(),
                )
                &&& app.close_entry_if_open(now) == (AppView {
                    today: app.close_entry_if_open(now).today,
                    ..app
                })
            },
            None => app.close_entry_if_open(now) == app,
        },
{
}

/// If every entry but the last has ended, that is still so after a
/// reading: the tracker never leaves two entries running.
pub proof fn lemma_reading_keeps_one_running(app: AppView, reading: Reading, now: Timestamp)
    requires
        app.only_last_may_run(),
    ensures
        app.after_reading(reading, now).only_last_may_run(),
{
    let closed = app.close_entry_if_open(now);
    assert(closed.only_last_may_run());
    assert(closed.open_entry().is_none());
    let side: u8 = match reading {
        Reading::Initial(value) => value,
        Reading::Changed(value) => value,
    };
    let started = app.start_entry(side, now);
    assert forall|i: int| 0 <= i < started.today.len() - 1 implies (
    #[trigger] started.today[i]).end.is_some() by {
        assert(started.today[i] == closed.today[i]);
        if i < closed.today.len() - 1 {
            assert(closed.today[i].end.is_some());
        }
    }
}

} // verus!
