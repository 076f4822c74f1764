//! Making sure that the tracker is still connected, with one attempt to
//! reconnect if it is not.

use crate::bluetooth::timeout::Failure;
use vstd::prelude::*;

verus! {

/// Seconds given to asking whether the tracker is connected.
pub const LIVENESS_TIMEOUT_SECS: u64 = 5;

/// Seconds given to connecting to the tracker.
pub const CONNECT_TIMEOUT_SECS: u64 = 10;

/// How a check ended.
#[derive(Clone, Copy, Debug, PartialEq, Eq, Structural)]
pub enum LinkVerdict {
    /// The tracker is connected, at once or after reconnecting.
    Connected,
    /// Reconnecting went through, and still the tracker is not connected.
    Lost,
    /// An operation failed or ran out of time.
    Failed,
}

/// What a check that is under way is waiting for.
#[derive(Clone, Copy, Debug, PartialEq, Eq, Structural)]
pub enum LinkStage {
    /// The answer to whether the tracker is connected.
    Probing,
    /// It was not connected: the end of connecting again.
    Reconnecting,
    /// The answer to the same question, asked again after connecting.
    Confirming,
}

/// Where a check stands.
#[derive(Clone, Copy, Debug, PartialEq, Eq, Structural)]
pub enum LinkCheck {
    Running(LinkStage),
    Done(LinkVerdict),
}

/// What the caller is to do next.
#[derive(Clone, Copy, Debug, PartialEq, Eq, Structural)]
pub enum LinkRequest {
    /// Ask the tracker whether it is connected.
    IsConnected,
    /// Connect to the tracker.
    Connect,
    /// Nothing: the check is over with this verdict.
    Finish(LinkVerdict),
}

/// What the caller has to report.
#[derive(Clone, Copy, Debug, PartialEq, Eq)]
pub enum LinkEvent {
    /// The answer to `IsConnected`.
    Liveness(Result<bool, Failure>),
    /// The end of `Connect`.
    Reconnected(Result<(), Failure>),
}

impl LinkRequest {
    /// The seconds within which the operation has to end.
    pub open spec fn bound(self) -> Option<u64> {
        match self {
            LinkRequest::IsConnected => Some(LIVENESS_TIMEOUT_SECS),
            LinkRequest::Connect => Some(CONNECT_TIMEOUT_SECS),
            LinkRequest::Finish(_) => None,
        }
    }

    /// The seconds within which the operation has to end: five for the
    /// question, ten for connecting.
    pub fn timeout_secs(&self) -> (secs: Option<u64>)
        ensures
            secs == self.bound(),
            secs == match *self {
                LinkRequest::IsConnected => Some(5u64),
                LinkRequest::Connect => Some(10u64),
                LinkRequest::Finish(_) => None,
            },
    {
        match self {
            LinkRequest::IsConnected => Some(LIVENESS_TIMEOUT_SECS),
            LinkRequest::Connect => Some(CONNECT_TIMEOUT_SECS),
            LinkRequest::Finish(_) => None,
        }
    }
}

impl LinkStage {
    /// The request that a check at this stage is waiting on.
    pub open spec fn pending(self) -> LinkRequest {
        match self {
            LinkStage::Probing => LinkRequest::IsConnected,
            LinkStage::Reconnecting => LinkRequest::Connect,
            LinkStage::Confirming => LinkRequest::IsConnected,
        }
    }

    /// Where a check at this stage stands after `event`.
    ///
    /// A tracker found connected ends the check. One found not connected
    /// is connected to once and asked again; what it answers then is
    /// final. Any failure ends the check. An event that does not answer
    /// the pending request changes nothing.
    pub open spec fn after(self, event: LinkEvent) -> LinkCheck {
        match (self, event) {
            (LinkStage::Probing, LinkEvent::Liveness(Ok(true))) => LinkCheck::Done(
                LinkVerdict::Connected,
            ),
            (LinkStage::Probing, LinkEvent::Liveness(Ok(false))) => LinkCheck::Running(
                LinkStage::Reconnecting,
            ),
            (LinkStage::Probing, LinkEvent::Liveness(Err(_))) => LinkCheck::Done(
                LinkVerdict::Failed,
            ),
            (LinkStage::Reconnecting, LinkEvent::Reconnected(Ok(_))) => LinkCheck::Running(
                LinkStage::Confirming,
            ),
            (LinkStage::Reconnecting, LinkEvent::Reconnected(Err(_))) => LinkCheck::Done(
                LinkVerdict::Failed,
            ),
            (LinkStage::Confirming, LinkEvent::Liveness(Ok(true))) => LinkCheck::Done(
                LinkVerdict::Connected,
            ),
            (LinkStage::Confirming, LinkEvent::Liveness(Ok(false))) => LinkCheck::Done(
                LinkVerdict::Lost,
            ),
            (LinkStage::Confirming, LinkEvent::Liveness(Err(_))) => LinkCheck::Done(
                LinkVerdict::Failed,
            ),
            _ => LinkCheck::Running(self),
        }
    }

    /// The request that a check at this stage is waiting on.
    pub fn request(&self) -> (request: LinkRequest)
        ensures
            request == self.pending(),
    {
        match self {
            LinkStage::Probing => LinkRequest::IsConnected,
            LinkStage::Reconnecting => LinkRequest::Connect,
            LinkStage::Confirming => LinkRequest::IsConnected,
        }
    }

    /// Takes in `event` at this stage.
    pub fn step(&self, event: LinkEvent) -> (check: LinkCheck)
        ensures
            check == self.after(event),
    {
        match (*self, event) {
            (LinkStage::Probing, LinkEvent::Liveness(answer)) => match answer {
                Ok(true) => LinkCheck::Done(LinkVerdict::Connected),
                Ok(false) => LinkCheck::Running(LinkStage::Reconnecting),
                Err(_) => LinkCheck::Done(LinkVerdict::Failed),
            },
            (LinkStage::Reconnecting, LinkEvent::Reconnected(ended)) => match ended {
                Ok(_) => LinkCheck::Running(LinkStage::Confirming),
                Err(_) => LinkCheck::Done(LinkVerdict::Failed),
            },
            (LinkStage::Confirming, LinkEvent::Liveness(answer)) => match answer {
                Ok(true) => LinkCheck::Done(LinkVerdict::Connected),
                Ok(false) => LinkCheck::Done(LinkVerdict::Lost),
                Err(_) => LinkCheck::Done(LinkVerdict::Failed),
            },
            (unmoved, _) => LinkCheck::Running(unmoved),
        }
    }
}

impl LinkCheck {
    /// The request that the check is waiting on.
    pub open spec fn pending(self) -> LinkRequest {
        match self {
            LinkCheck::Running(stage) => stage.pending(),
            LinkCheck::Done(verdict) => LinkRequest::Finish(verdict),
        }
    }

    /// Where the check stands after `event`: a check that is over stays
    /// over, one under way moves as its stage says.
    pub open spec fn after(self, event: LinkEvent) -> LinkCheck {
        match self {
            LinkCheck::Running(stage) => stage.after(event),
            LinkCheck::Done(_) => self,
        }
    }

    /// A check that has not been answered yet, and its first request.
    pub fn begin() -> (started: (LinkCheck, LinkRequest))
        ensures
            started.0 == LinkCheck::Running(LinkStage::Probing),
            started.1 == LinkRequest::IsConnected,
    {
        (LinkCheck::Running(LinkStage::Probing), LinkRequest::IsConnected)
    }

    /// The request that the check is waiting on.
    pub fn request(&self) -> (request: LinkRequest)
        ensures
            request == self.pending(),
    {
        match self {
            LinkCheck::Running(stage) => stage.request(),
            LinkCheck::Done(verdict) => LinkRequest::Finish(*verdict),
        }
    }

    /// Takes in `event` and says what to do next.
    pub fn advance(&mut self, event: LinkEvent) -> (next: LinkRequest)
        ensures
            *final(self) == old(self).after(event),
            next == final(self).pending(),
    {
        let moved: LinkCheck = match *self {
            LinkCheck::Running(stage) => stage.step(event),
            LinkCheck::Done(verdict) => LinkCheck::Done(verdict),
        };
        *self = moved;
        self.request()
    }

    /// The verdict, once the check is over: whether the tracker is
    /// connected, or that the check failed.
    pub fn verdict(&self) -> (verdict: Option<LinkVerdict>)
        ensures
            verdict == match *self {
                LinkCheck::Done(v) => Some(v),
                LinkCheck::Running(_) => None,
            },
    {
        match self {
            LinkCheck::Done(v) => Some(*v),
            LinkCheck::Running(_) => None,
        }
    }
}

/// Whether two events differ at most in why an operation failed.
pub open spec fn same_but_for_failure(a: LinkEvent, b: LinkEvent) -> bool {
    match (a, b) {
        (LinkEvent::Liveness(Err(_)), LinkEvent::Liveness(Err(_))) => true,
        (LinkEvent::Reconnected(Err(_)), LinkEvent::Reconnected(Err(_))) => true,
        _ => a == b,
    }
}

/// An operation that ran out of time moves the check exactly as one that
/// the platform failed.
pub proof fn lemma_link_timeout_is_failure(check: LinkCheck, a: LinkEvent, b: LinkEvent)
    requires
        same_but_for_failure(a, b),
    ensures
        check.after(a) == check.after(b),
{
}

/// The tracker is connected to at most once in a check: once the request
/// to connect has been answered, no further event brings it back.
pub proof fn lemma_link_reconnects_once(first: LinkEvent, later: Seq<LinkEvent>)
    requires
        first is Reconnected,
    ensures
        after_all(LinkStage::Reconnecting.after(first), later) is Done || after_all(
            LinkStage::Reconnecting.after(first),
            later,
        ) == LinkCheck::Running(LinkStage::Confirming),
        after_all(LinkStage::Reconnecting.after(first), later).pending() != LinkRequest::Connect,
    decreases later.len(),
{
    if later.len() > 0 {
        lemma_link_reconnects_once(first, later.drop_last());
    }
}

/// Where `check` stands after all of `events`, in their order.
pub open spec fn after_all(check: LinkCheck, events: Seq<LinkEvent>) -> LinkCheck
    decreases events.len(),
{
    if events.len() == 0 {
        check
    } else {
        after_all(check, events.drop_last()).after(events.last())
    }
}

/// The check ends with `Connected` only on the tracker's own word, and with
/// `Lost` only when it said no twice, before and after connecting again.
pub proof fn lemma_link_verdicts(stage: LinkStage, event: LinkEvent)
    ensures
        stage.after(event) == LinkCheck::Done(LinkVerdict::Connected) ==> event
            == LinkEvent::Liveness(Ok(true)),
        stage.after(event) == LinkCheck::Done(LinkVerdict::Lost) ==> stage
            == LinkStage::Confirming && event == LinkEvent::Liveness(Ok(false)),
{
}

} // verus!
