//! Finding the tracker among the peripherals in range, connecting to it,
//! and noticing when it goes away.
//!
//! One attempt of the manager runs from the search for an adapter to the
//! end of the adapter's event stream, or to the first failure that is not
//! the fault of a single peripheral.

use crate::bluetooth::link::CONNECT_TIMEOUT_SECS;
use crate::bluetooth::timeout::Failure;
use crate::bluetooth::CharacteristicId;
use crate::bluetooth::ConnectionState;
use crate::bluetooth::PeripheralId;
use crate::bluetooth::TRACKER_SIDE_CH;
use vstd::prelude::*;

verus! {

/// Seconds given to looking a peripheral up and to reading what it
/// advertises.
pub const IDENTIFY_TIMEOUT_SECS: u64 = 5;

/// Seconds given to discovering a peripheral's services.
pub const DISCOVERY_TIMEOUT_SECS: u64 = 5;

/// Whether `needle` stands somewhere in `text`, whole and unbroken.
pub open spec fn occurs_in(needle: Seq<char>, text: Seq<char>) -> bool {
    exists|at: int|
        0 <= at <= text.len() - needle.len() && #[trigger] text.subrange(
            at,
            at + needle.len(),
        ) == needle
}

/// What a tracker's name has in it.
pub open spec fn tracker_name() -> Seq<char> {
    "Timeular"@
}

/// Whether a peripheral that advertises `name` may be a tracker.
pub open spec fn is_tracker_name(name: Seq<char>) -> bool {
    occurs_in(tracker_name(), name)
}

/// `str::contains` with a string as the pattern: whether `needle` is a
/// substring of `text`. The standard library documents it as true exactly
/// when the pattern matches a sub-slice of the string; here that is said
/// over the characters of both.
#[verifier::external_body]
fn str_contains(text: &str, needle: &str) -> (found: bool)
    ensures
        found == occurs_in(needle@, text@),
{
    text.contains(needle)
}

/// Whether a peripheral that advertises `name` may be a tracker: its name
/// has the product's name in it.
pub fn names_tracker(name: &str) -> (matches: bool)
    ensures
        matches == is_tracker_name(name@),
{
    str_contains(name, "Timeular")
}

/// The first place at which `wanted` stands in `uuids`.
pub open spec fn position_of(uuids: Seq<u128>, wanted: u128) -> Option<usize>
    decreases uuids.len(),
{
    if uuids.len() == 0 {
        None
    } else {
        match position_of(uuids.drop_last(), wanted) {
            Some(found) => Some(found),
            None => if uuids.last() == wanted {
                Some((uuids.len() - 1) as usize)
            } else {
                None
            },
        }
    }
}

/// `position_of` finds `wanted` exactly when it occurs, and then at its
/// first occurrence.
pub proof fn lemma_position_of(uuids: Seq<u128>, wanted: u128)
    requires
        uuids.len() <= usize::MAX,
    ensures
        match position_of(uuids, wanted) {
            Some(found) => {
                &&& found < uuids.len()
                &&& uuids[found as int] == wanted
                &&& forall|i: int| 0 <= i < found ==> uuids[i] != wanted
            },
            None => forall|i: int| 0 <= i < uuids.len() ==> uuids[i] != wanted,
        },
    decreases uuids.len(),
{
    if uuids.len() > 0 {
        let shorter = uuids.drop_last();
        lemma_position_of(shorter, wanted);
        assert(forall|i: int| 0 <= i < shorter.len() ==> shorter[i] == uuids[i]);
        match position_of(shorter, wanted) {
            Some(found) => {
                assert(shorter[found as int] == wanted);
            },
            None => {
                assert(forall|i: int| 0 <= i < shorter.len() ==> uuids[i] != wanted) by {
                    assert(forall|i: int| 0 <= i < shorter.len() ==> shorter[i] != wanted);
                }
            },
        }
    }
}

/// The first place at which `wanted` stands in `uuids`.
pub fn find_characteristic(uuids: &Vec<u128>, wanted: u128) -> (found: Option<usize>)
    ensures
        found == position_of(uuids@, wanted),
{
    let mut i: usize = 0;
    while i < uuids.len()
        invariant
            i <= uuids.len(),
            position_of(uuids@.subrange(0, i as int), wanted).is_none(),
        decreases uuids.len() - i,
    {
        proof {
            let upto = uuids@.subrange(0, i + 1);
            assert(upto.drop_last() == uuids@.subrange(0, i as int));
            assert(upto.last() == uuids@[i as int]);
        }
        if uuids[i] == wanted {
            proof {
                lemma_position_grows(uuids@, i + 1, wanted);
            }
            return Some(i);
        }
        i = i + 1;
    }
    assert(uuids@.subrange(0, i as int) == uuids@);
    None
}

/// What was found among the first `upto` stays found among all.
proof fn lemma_position_grows(uuids: Seq<u128>, upto: int, wanted: u128)
    requires
        0 <= upto <= uuids.len(),
        position_of(uuids.subrange(0, upto), wanted).is_some(),
    ensures
        position_of(uuids, wanted) == position_of(uuids.subrange(0, upto), wanted),
    decreases uuids.len() - upto,
{
    if upto < uuids.len() {
        let longer = uuids.subrange(0, upto + 1);
        assert(longer.drop_last() == uuids.subrange(0, upto));
        lemma_position_grows(uuids, upto + 1, wanted);
    } else {
        assert(uuids.subrange(0, upto) == uuids);
    }
}

/// What the adapter reports about the peripherals around it.
#[derive(Clone, Copy, Debug, PartialEq, Eq, Structural)]
pub enum CentralEvent {
    DeviceDiscovered(PeripheralId),
    DeviceUpdated(PeripheralId),
    DeviceConnected(PeripheralId),
    DeviceDisconnected(PeripheralId),
    ManufacturerDataAdvertisement(PeripheralId),
    ServiceDataAdvertisement(PeripheralId),
    ServicesAdvertisement(PeripheralId),
    /// The adapter itself has changed, not a peripheral.
    StateUpdate,
}

/// How an attempt of the manager ended.
#[derive(Clone, Copy, Debug, PartialEq, Eq, Structural)]
pub enum ManagerEnd {
    /// There is no adapter, or its event stream has ended.
    Completed,
    /// Setting up the adapter, or starting or stopping a scan, failed.
    Failed,
}

/// What the manager is waiting for.
#[derive(Clone, Copy, Debug, PartialEq, Eq, Structural)]
pub enum ManagerPhase {
    FindingAdapter,
    OpeningEvents,
    StartingScan,
    /// Waiting for the adapter's next event.
    Listening,
    /// Looking up a peripheral that was discovered.
    Identifying(PeripheralId),
    ReadingProperties(PeripheralId),
    Connecting(PeripheralId),
    DiscoveringServices(PeripheralId),
    StoppingScan,
    Ended(ManagerEnd),
}

/// One attempt of the manager.
#[derive(Clone, Copy, Debug, PartialEq, Eq, Structural)]
pub struct ConnectionManager {
    pub phase: ManagerPhase,
    /// The peripheral that was found to be the tracker and is connected.
    pub tracker: Option<PeripheralId>,
    /// Whether a scan is running.
    pub scanning: bool,
}

/// What the caller is to do next.
#[derive(Clone, Copy, Debug, PartialEq, Eq, Structural)]
pub enum ManagerRequest {
    /// Take the first adapter there is.
    FindAdapter,
    /// Open the adapter's stream of events.
    OpenEvents,
    StartScan,
    StopScan,
    /// Wait for the next event of the adapter.
    NextEvent,
    /// Look the peripheral up.
    Identify(PeripheralId),
    /// Read what the peripheral advertises.
    ReadProperties(PeripheralId),
    Connect(PeripheralId),
    /// Discover the peripheral's services and list its characteristics.
    DiscoverServices(PeripheralId),
    /// Nothing: the attempt is over.
    Finish(ManagerEnd),
}

/// What the caller has to report.
#[derive(Debug, PartialEq, Eq)]
pub enum ManagerEvent {
    /// Whether there is an adapter.
    AdapterLookup(Result<bool, Failure>),
    EventsOpened(Result<(), Failure>),
    ScanStarted(Result<(), Failure>),
    ScanStopped(Result<(), Failure>),
    /// The adapter's next event; none when its stream has ended.
    Central(Option<CentralEvent>),
    Identified(Result<(), Failure>),
    /// The name that the peripheral advertises, if it is known.
    Properties(Result<Option<String>, Failure>),
    Connected(Result<(), Failure>),
    /// The characteristics of the peripheral, by UUID, in the order in
    /// which it lists them.
    Services(Result<Vec<u128>, Failure>),
}

/// What the manager has decided: what to report and what to do next.
#[derive(Clone, Copy, Debug, PartialEq, Eq, Structural)]
pub struct ManagerReaction {
    /// A change of the connection to send to the coordinator, first.
    pub emit: Option<ConnectionState>,
    /// The new value of the shared "tracker connected" flag, second.
    pub connected: Option<bool>,
    /// The operation to perform, last.
    pub next: ManagerRequest,
}

/// The manager after an event, with what it reports on the way.
pub struct ManagerStep {
    pub manager: ConnectionManager,
    pub emit: Option<ConnectionState>,
    pub connected: Option<bool>,
}

impl ManagerRequest {
    /// The seconds within which the operation has to end, where it is
    /// bounded.
    pub open spec fn bound(self) -> Option<u64> {
        match self {
            ManagerRequest::Identify(_) => Some(IDENTIFY_TIMEOUT_SECS),
            ManagerRequest::ReadProperties(_) => Some(IDENTIFY_TIMEOUT_SECS),
            ManagerRequest::Connect(_) => Some(CONNECT_TIMEOUT_SECS),
            ManagerRequest::DiscoverServices(_) => Some(DISCOVERY_TIMEOUT_SECS),
            _ => None,
        }
    }

    /// The seconds within which the operation has to end, where it is
    /// bounded: everything that is asked of a single peripheral.
    pub fn timeout_secs(&self) -> (secs: Option<u64>)
        ensures
            secs == self.bound(),
            secs == match *self {
                ManagerRequest::Identify(_) => Some(5u64),
                ManagerRequest::ReadProperties(_) => Some(5u64),
                ManagerRequest::Connect(_) => Some(10u64),
                ManagerRequest::DiscoverServices(_) => Some(5u64),
                _ => None,
            },
    {
        match self {
            ManagerRequest::Identify(_) => Some(IDENTIFY_TIMEOUT_SECS),
            ManagerRequest::ReadProperties(_) => Some(IDENTIFY_TIMEOUT_SECS),
            ManagerRequest::Connect(_) => Some(CONNECT_TIMEOUT_SECS),
            ManagerRequest::DiscoverServices(_) => Some(DISCOVERY_TIMEOUT_SECS),
            _ => None,
        }
    }
}

impl ConnectionManager {
    /// The manager at the start of an attempt.
    pub open spec fn initial() -> ConnectionManager {
        ConnectionManager { phase: ManagerPhase::FindingAdapter, tracker: None, scanning: false }
    }

    /// The request that the manager is waiting on.
    pub open spec fn pending(self) -> ManagerRequest {
        match self.phase {
            ManagerPhase::FindingAdapter => ManagerRequest::FindAdapter,
            ManagerPhase::OpeningEvents => ManagerRequest::OpenEvents,
            ManagerPhase::StartingScan => ManagerRequest::StartScan,
            ManagerPhase::Listening => ManagerRequest::NextEvent,
            ManagerPhase::Identifying(id) => ManagerRequest::Identify(id),
            ManagerPhase::ReadingProperties(id) => ManagerRequest::ReadProperties(id),
            ManagerPhase::Connecting(id) => ManagerRequest::Connect(id),
            ManagerPhase::DiscoveringServices(id) => ManagerRequest::DiscoverServices(id),
            ManagerPhase::StoppingScan => ManagerRequest::StopScan,
            ManagerPhase::Ended(end) => ManagerRequest::Finish(end),
        }
    }

    /// The manager in `phase`, with nothing to report.
    pub open spec fn goes_to(self, phase: ManagerPhase) -> ManagerStep {
        ManagerStep {
            manager: ConnectionManager { phase, ..self },
            emit: None,
            connected: None,
        }
    }

    /// The manager after the adapter's event `event`, which arrived while
    /// it was listening.
    ///
    /// A discovery is followed up unless the tracker is already known. The
    /// tracker's disconnection is reported, the tracker is forgotten, and a
    /// scan is started unless one is running. Everything else is passed
    /// over.
    pub open spec fn after_central(self, event: CentralEvent) -> ManagerStep {
        match event {
            CentralEvent::DeviceDiscovered(id) => if self.tracker.is_some() {
                self.goes_to(ManagerPhase::Listening)
            } else {
                self.goes_to(ManagerPhase::Identifying(id))
            },
            CentralEvent::DeviceDisconnected(id) => if self.tracker == Some(id) {
                ManagerStep {
                    manager: ConnectionManager {
                        phase: if self.scanning {
                            ManagerPhase::Listening
                        } else {
                            ManagerPhase::StartingScan
                        },
                        tracker: None,
                        scanning: self.scanning,
                    },
                    emit: Some(ConnectionState::Connecting),
                    connected: Some(false),
                }
            } else {
                self.goes_to(ManagerPhase::Listening)
            },
            _ => self.goes_to(ManagerPhase::Listening),
        }
    }

    /// The manager after the characteristics `uuids` of the peripheral
    /// `id` have been listed.
    ///
    /// With the tracker's characteristic among them, `id` is the tracker:
    /// the connection is reported with the first such characteristic, and
    /// the scan is stopped. Without it the peripheral only had the name of
    /// one, and the manager listens on.
    pub open spec fn after_services(self, id: PeripheralId, uuids: Seq<u128>) -> ManagerStep {
        match position_of(uuids, TRACKER_SIDE_CH) {
            Some(place) => ManagerStep {
                manager: ConnectionManager {
                    phase: ManagerPhase::StoppingScan,
                    tracker: Some(id),
                    scanning: self.scanning,
                },
                emit: Some(ConnectionState::Connected(id, CharacteristicId(place))),
                connected: Some(true),
            },
            None => self.goes_to(ManagerPhase::Listening),
        }
    }

    /// The manager after `event`.
    ///
    /// Setting up: without an adapter the attempt is over and `Stopping` is
    /// reported; with one, `Connecting` is reported, the event stream is
    /// opened and a scan is started. A failure on the way ends the attempt.
    ///
    /// A peripheral that was discovered is looked up, asked for its name,
    /// and, if the name fits, connected to and searched for the tracker's
    /// characteristic. Whatever fails or runs out of time on that way only
    /// ends the interest in that peripheral.
    ///
    /// A scan that cannot be started or stopped ends the attempt, and so
    /// does the end of the event stream. An attempt that is over stays
    /// over. An event that does not answer the pending request changes
    /// nothing.
    pub open spec fn after(self, event: ManagerEvent) -> ManagerStep {
        match (self.phase, event) {
            (ManagerPhase::FindingAdapter, ManagerEvent::AdapterLookup(Ok(true))) => ManagerStep {
                manager: ConnectionManager { phase: ManagerPhase::OpeningEvents, ..self },
                emit: Some(ConnectionState::Connecting),
                connected: None,
            },
            (ManagerPhase::FindingAdapter, ManagerEvent::AdapterLookup(Ok(false))) => ManagerStep {
                manager: ConnectionManager {
                    phase: ManagerPhase::Ended(ManagerEnd::Completed),
                    ..self
                },
                emit: Some(ConnectionState::Stopping),
                connected: None,
            },
            (ManagerPhase::FindingAdapter, ManagerEvent::AdapterLookup(Err(_))) => self.goes_to(
                ManagerPhase::Ended(ManagerEnd::Failed),
            ),
            (ManagerPhase::OpeningEvents, ManagerEvent::EventsOpened(Ok(_))) => self.goes_to(
                ManagerPhase::StartingScan,
            ),
            (ManagerPhase::OpeningEvents, ManagerEvent::EventsOpened(Err(_))) => self.goes_to(
                ManagerPhase::Ended(ManagerEnd::Failed),
            ),
            (ManagerPhase::StartingScan, ManagerEvent::ScanStarted(Ok(_))) => ManagerStep {
                manager: ConnectionManager {
                    phase: ManagerPhase::Listening,
                    scanning: true,
                    ..self
                },
                emit: None,
                connected: None,
            },
            (ManagerPhase::StartingScan, ManagerEvent::ScanStarted(Err(_))) => self.goes_to(
                ManagerPhase::Ended(ManagerEnd::Failed),
            ),
            (ManagerPhase::Listening, ManagerEvent::Central(Some(event))) => self.after_central(
                event,
            ),
            (ManagerPhase::Listening, ManagerEvent::Central(None)) => self.goes_to(
                ManagerPhase::Ended(ManagerEnd::Completed),
            ),
            (ManagerPhase::Identifying(id), ManagerEvent::Identified(Ok(_))) => self.goes_to(
                ManagerPhase::ReadingProperties(id),
            ),
            (ManagerPhase::Identifying(_), ManagerEvent::Identified(Err(_))) => self.goes_to(
                ManagerPhase::Listening,
            ),
            (ManagerPhase::ReadingProperties(id), ManagerEvent::Properties(Ok(Some(name)))) => if is_tracker_name(
                name@,
            ) {
                self.goes_to(ManagerPhase::Connecting(id))
            } else {
                self.goes_to(ManagerPhase::Listening)
            },
            (ManagerPhase::ReadingProperties(_), ManagerEvent::Properties(_)) => self.goes_to(
                ManagerPhase::Listening,
            ),
            (ManagerPhase::Connecting(id), ManagerEvent::Connected(Ok(_))) => self.goes_to(
                ManagerPhase::DiscoveringServices(id),
            ),
            (ManagerPhase::Connecting(_), ManagerEvent::Connected(Err(_))) => self.goes_to(
                ManagerPhase::Listening,
            ),
            (ManagerPhase::DiscoveringServices(id), ManagerEvent::Services(Ok(uuids))) => self.after_services(
                id,
                uuids@,
            ),
            (ManagerPhase::DiscoveringServices(_), ManagerEvent::Services(Err(_))) => self.goes_to(
                ManagerPhase::Listening,
            ),
            (ManagerPhase::StoppingScan, ManagerEvent::ScanStopped(Ok(_))) => ManagerStep {
                manager: ConnectionManager {
                    phase: ManagerPhase::Listening,
                    scanning: false,
                    ..self
                },
                emit: None,
                connected: None,
            },
            (ManagerPhase::StoppingScan, ManagerEvent::ScanStopped(Err(_))) => self.goes_to(
                ManagerPhase::Ended(ManagerEnd::Failed),
            ),
            _ => self.goes_to(self.phase),
        }
    }

    /// A manager at the start of an attempt, and its first request.
    pub fn begin() -> (started: (ConnectionManager, ManagerRequest))
        ensures
            started.0 == ConnectionManager::initial(),
            started.1 == ManagerRequest::FindAdapter,
    {
        (
            ConnectionManager {
                phase: ManagerPhase::FindingAdapter,
                tracker: None,
                scanning: false,
            },
            ManagerRequest::FindAdapter,
        )
    }

    /// The request that the manager is waiting on.
    pub fn request(&self) -> (request: ManagerRequest)
        ensures
            request == self.pending(),
    {
        match self.phase {
            ManagerPhase::FindingAdapter => ManagerRequest::FindAdapter,
            ManagerPhase::OpeningEvents => ManagerRequest::OpenEvents,
            ManagerPhase::StartingScan => ManagerRequest::StartScan,
            ManagerPhase::Listening => ManagerRequest::NextEvent,
            ManagerPhase::Identifying(id) => ManagerRequest::Identify(id),
            ManagerPhase::ReadingProperties(id) => ManagerRequest::ReadProperties(id),
            ManagerPhase::Connecting(id) => ManagerRequest::Connect(id),
            ManagerPhase::DiscoveringServices(id) => ManagerRequest::DiscoverServices(id),
            ManagerPhase::StoppingScan => ManagerRequest::StopScan,
            ManagerPhase::Ended(end) => ManagerRequest::Finish(end),
        }
    }

    /// Takes in the adapter's event `event` while listening.
    fn on_central(&mut self, event: CentralEvent) -> (reported: (
        Option<ConnectionState>,
        Option<bool>,
    ))
        requires
            old(self).phase == ManagerPhase::Listening,
        ensures
            *final(self) == old(self).after_central(event).manager,
            reported.0 == old(self).after_central(event).emit,
            reported.1 == old(self).after_central(event).connected,
    {
        match event {
            CentralEvent::DeviceDiscovered(id) => {
                if self.tracker.is_none() {
                    self.phase = ManagerPhase::Identifying(id);
                }
                (None, None)
            },
            CentralEvent::DeviceDisconnected(id) => {
                let is_tracker: bool = match self.tracker {
                    Some(known) => known == id,
                    None => false,
                };
                if is_tracker {
                    self.tracker = None;
                    if !self.scanning {
                        self.phase = ManagerPhase::StartingScan;
                    }
                    (Some(ConnectionState::Connecting), Some(false))
                } else {
                    (None, None)
                }
            },
            _ => (None, None),
        }
    }

    /// Takes in `event` and says what to report and what to do next.
    pub fn advance(&mut self, event: ManagerEvent) -> (reaction: ManagerReaction)
        ensures
            *final(self) == old(self).after(event).manager,
            reaction.emit == old(self).after(event).emit,
            reaction.connected == old(self).after(event).connected,
            reaction.next == final(self).pending(),
    {
        let mut emit: Option<ConnectionState> = None;
        let mut connected: Option<bool> = None;
        match (self.phase, event) {
            (ManagerPhase::FindingAdapter, ManagerEvent::AdapterLookup(found)) => match found {
                Ok(true) => {
                    self.phase = ManagerPhase::OpeningEvents;
                    emit = Some(ConnectionState::Connecting);
                },
                Ok(false) => {
                    self.phase = ManagerPhase::Ended(ManagerEnd::Completed);
                    emit = Some(ConnectionState::Stopping);
                },
                Err(_) => {
                    self.phase = ManagerPhase::Ended(ManagerEnd::Failed);
                },
            },
            (ManagerPhase::OpeningEvents, ManagerEvent::EventsOpened(opened)) => match opened {
                Ok(_) => {
                    self.phase = ManagerPhase::StartingScan;
                },
                Err(_) => {
                    self.phase = ManagerPhase::Ended(ManagerEnd::Failed);
                },
            },
            (ManagerPhase::StartingScan, ManagerEvent::ScanStarted(started)) => match started {
                Ok(_) => {
                    self.phase = ManagerPhase::Listening;
                    self.scanning = true;
                },
                Err(_) => {
                    self.phase = ManagerPhase::Ended(ManagerEnd::Failed);
                },
            },
            (ManagerPhase::Listening, ManagerEvent::Central(next)) => match next {
                Some(central) => {
                    let reported = self.on_central(central);
                    emit = reported.0;
                    connected = reported.1;
                },
                None => {
                    self.phase = ManagerPhase::Ended(ManagerEnd::Completed);
                },
            },
            (ManagerPhase::Identifying(id), ManagerEvent::Identified(looked_up)) => match looked_up {
                Ok(_) => {
                    self.phase = ManagerPhase::ReadingProperties(id);
                },
                Err(_) => {
                    self.phase = ManagerPhase::Listening;
                },
            },
            (ManagerPhase::ReadingProperties(id), ManagerEvent::Properties(read)) => {
                let fits: bool = match &read {
                    Ok(Some(name)) => names_tracker(name.as_str()),
                    _ => false,
                };
                if fits {
                    self.phase = ManagerPhase::Connecting(id);
                } else {
                    self.phase = ManagerPhase::Listening;
                }
            },
            (ManagerPhase::Connecting(id), ManagerEvent::Connected(ended)) => match ended {
                Ok(_) => {
                    self.phase = ManagerPhase::DiscoveringServices(id);
                },
                Err(_) => {
                    self.phase = ManagerPhase::Listening;
                },
            },
            (ManagerPhase::DiscoveringServices(id), ManagerEvent::Services(listed)) => {
                let place: Option<usize> = match &listed {
                    Ok(uuids) => find_characteristic(uuids, TRACKER_SIDE_CH),
                    Err(_) => None,
                };
                match place {
                    Some(place) => {
                        self.phase = ManagerPhase::StoppingScan;
                        self.tracker = Some(id);
                        emit = Some(ConnectionState::Connected(id, CharacteristicId(place)));
                        connected = Some(true);
                    },
                    None => {
                        self.phase = ManagerPhase::Listening;
                    },
                }
            },
            (ManagerPhase::StoppingScan, ManagerEvent::ScanStopped(stopped)) => match stopped {
                Ok(_) => {
                    self.phase = ManagerPhase::Listening;
                    self.scanning = false;
                },
                Err(_) => {
                    self.phase = ManagerPhase::Ended(ManagerEnd::Failed);
                },
            },
            _ => {},
        }
        ManagerReaction { emit, connected, next: self.request() }
    }
}

impl ConnectionManager {
    /// What holds of a manager at every point of an attempt: the tracker
    /// is known exactly from the moment it is found until it is seen to
    /// disconnect, and a scan runs exactly while the manager listens
    /// without a tracker or follows a discovery up.
    pub open spec fn wf(self) -> bool {
        match self.phase {
            ManagerPhase::FindingAdapter => self.tracker.is_none() && !self.scanning,
            ManagerPhase::OpeningEvents => self.tracker.is_none() && !self.scanning,
            ManagerPhase::StartingScan => self.tracker.is_none() && !self.scanning,
            ManagerPhase::Listening => self.tracker.is_some() <==> !self.scanning,
            ManagerPhase::Identifying(_) => self.tracker.is_none() && self.scanning,
            ManagerPhase::ReadingProperties(_) => self.tracker.is_none() && self.scanning,
            ManagerPhase::Connecting(_) => self.tracker.is_none() && self.scanning,
            ManagerPhase::DiscoveringServices(_) => self.tracker.is_none() && self.scanning,
            ManagerPhase::StoppingScan => self.tracker.is_some() && self.scanning,
            ManagerPhase::Ended(_) => true,
        }
    }

    /// Whether the manager is following up the discovery of `id`.
    pub open spec fn probes(self, id: PeripheralId) -> bool {
        ||| self.phase == ManagerPhase::Identifying(id)
        ||| self.phase == ManagerPhase::ReadingProperties(id)
        ||| self.phase == ManagerPhase::Connecting(id)
        ||| self.phase == ManagerPhase::DiscoveringServices(id)
    }
}

/// Whether two events differ at most in why an operation failed.
pub open spec fn same_but_for_failure(a: ManagerEvent, b: ManagerEvent) -> bool {
    match (a, b) {
        (ManagerEvent::AdapterLookup(Err(_)), ManagerEvent::AdapterLookup(Err(_))) => true,
        (ManagerEvent::EventsOpened(Err(_)), ManagerEvent::EventsOpened(Err(_))) => true,
        (ManagerEvent::ScanStarted(Err(_)), ManagerEvent::ScanStarted(Err(_))) => true,
        (ManagerEvent::ScanStopped(Err(_)), ManagerEvent::ScanStopped(Err(_))) => true,
        (ManagerEvent::Identified(Err(_)), ManagerEvent::Identified(Err(_))) => true,
        (ManagerEvent::Properties(Err(_)), ManagerEvent::Properties(Err(_))) => true,
        (ManagerEvent::Connected(Err(_)), ManagerEvent::Connected(Err(_))) => true,
        (ManagerEvent::Services(Err(_)), ManagerEvent::Services(Err(_))) => true,
        _ => a == b,
    }
}

/// Whether `event` says that the operation asked of a peripheral failed.
pub open spec fn is_probe_failure(event: ManagerEvent) -> bool {
    ||| event matches ManagerEvent::Identified(Err(_))
    ||| event matches ManagerEvent::Properties(Err(_))
    ||| event matches ManagerEvent::Connected(Err(_))
    ||| event matches ManagerEvent::Services(Err(_))
}

/// A new attempt is well-formed, and every event keeps it so.
pub proof fn lemma_manager_wf(manager: ConnectionManager, event: ManagerEvent)
    requires
        manager.wf(),
    ensures
        ConnectionManager::initial().wf(),
        manager.after(event).manager.wf(),
{
}

/// An operation that ran out of time moves the manager exactly as one that
/// the platform failed.
pub proof fn lemma_manager_timeout_is_failure(
    manager: ConnectionManager,
    a: ManagerEvent,
    b: ManagerEvent,
)
    requires
        same_but_for_failure(a, b),
    ensures
        manager.after(a) == manager.after(b),
{
}

/// Whatever fails while a discovered peripheral is followed up never ends
/// the attempt and is never reported: the manager listens on, as it was.
pub proof fn lemma_manager_absorbs_probe_failure(
    manager: ConnectionManager,
    id: PeripheralId,
    event: ManagerEvent,
)
    requires
        manager.probes(id),
        is_probe_failure(event),
    ensures
        manager.after(event).emit.is_none(),
        manager.after(event).connected.is_none(),
        manager.after(event).manager.tracker == manager.tracker,
        manager.after(event).manager.scanning == manager.scanning,
        !(manager.after(event).manager.phase is Ended),
        manager.after(event).manager.phase == manager.phase || manager.after(event).manager.phase
            == ManagerPhase::Listening,
{
}

/// A connection is reported only for a peripheral whose name fitted and
/// which was connected to and searched: at the end of its service
/// discovery, with the first characteristic that has the tracker's UUID.
/// It comes with the flag set, the tracker remembered, and the scan about
/// to be stopped; and, in a well-formed manager, only while no tracker was
/// known.
pub proof fn lemma_manager_connected_means_tracker(
    manager: ConnectionManager,
    event: ManagerEvent,
    id: PeripheralId,
    characteristic: CharacteristicId,
)
    requires
        manager.after(event).emit == Some(ConnectionState::Connected(id, characteristic)),
    ensures
        manager.phase == ManagerPhase::DiscoveringServices(id),
        event matches ManagerEvent::Services(Ok(uuids)) && characteristic.0 < uuids@.len()
            && uuids@[characteristic.0 as int] == TRACKER_SIDE_CH && forall|i: int|
            0 <= i < characteristic.0 ==> uuids@[i] != TRACKER_SIDE_CH,
        manager.after(event).connected == Some(true),
        manager.after(event).manager.tracker == Some(id),
        manager.after(event).manager.pending() == ManagerRequest::StopScan,
        manager.wf() ==> manager.tracker.is_none(),
{
    match event {
        ManagerEvent::Services(Ok(uuids)) => {
            assert(uuids@.len() == uuids.len());
            lemma_position_of(uuids@, TRACKER_SIDE_CH);
        },
        _ => {},
    }
}

/// A peripheral that has the name of a tracker and not its characteristic
/// is passed over: no connection is reported, the flag is left alone, and
/// the manager waits for the adapter's next event.
pub proof fn lemma_manager_passes_over_lookalike(
    manager: ConnectionManager,
    id: PeripheralId,
    uuids: Vec<u128>,
)
    requires
        manager.phase == ManagerPhase::DiscoveringServices(id),
        forall|i: int| 0 <= i < uuids@.len() ==> uuids@[i] != TRACKER_SIDE_CH,
    ensures
        manager.after(ManagerEvent::Services(Ok(uuids))).emit.is_none(),
        manager.after(ManagerEvent::Services(Ok(uuids))).connected.is_none(),
        manager.after(ManagerEvent::Services(Ok(uuids))).manager == (ConnectionManager {
            phase: ManagerPhase::Listening,
            ..manager
        }),
        manager.after(ManagerEvent::Services(Ok(uuids))).manager.pending()
            == ManagerRequest::NextEvent,
{
    assert(uuids@.len() == uuids.len());
    lemma_position_of(uuids@, TRACKER_SIDE_CH);
}

/// When the tracker is seen to disconnect, `Connecting` is reported, the
/// flag is cleared, the tracker is forgotten, and, in a well-formed
/// manager, the scan is started again. The disconnection of any other
/// peripheral changes nothing.
pub proof fn lemma_manager_reports_disconnect(manager: ConnectionManager, id: PeripheralId)
    requires
        manager.phase == ManagerPhase::Listening,
    ensures
        manager.tracker == Some(id) ==> {
            let step = manager.after(
                ManagerEvent::Central(Some(CentralEvent::DeviceDisconnected(id))),
            );
            &&& step.emit == Some(ConnectionState::Connecting)
            &&& step.connected == Some(false)
            &&& step.manager.tracker.is_none()
            &&& !manager.scanning ==> step.manager.pending() == ManagerRequest::StartScan
            &&& manager.wf() ==> step.manager.pending() == ManagerRequest::StartScan
        },
        manager.tracker != Some(id) ==> {
            let step = manager.after(
                ManagerEvent::Central(Some(CentralEvent::DeviceDisconnected(id))),
            );
            &&& step.emit.is_none()
            &&& step.connected.is_none()
            &&& step.manager == manager
        },
{
}

/// While the tracker is known, no discovery is followed up.
pub proof fn lemma_manager_keeps_one_tracker(manager: ConnectionManager, id: PeripheralId)
    requires
        manager.phase == ManagerPhase::Listening,
        manager.tracker.is_some(),
    ensures
        manager.after(ManagerEvent::Central(Some(CentralEvent::DeviceDiscovered(id)))).manager
            == manager,
        manager.after(ManagerEvent::Central(Some(CentralEvent::DeviceDiscovered(id)))).emit.is_none(),
{
}

/// An attempt that is over stays over and reports nothing more.
pub proof fn lemma_manager_end_is_final(
    manager: ConnectionManager,
    end: ManagerEnd,
    event: ManagerEvent,
)
    requires
        manager.phase == ManagerPhase::Ended(end),
    ensures
        manager.after(event).manager == manager,
        manager.after(event).emit.is_none(),
        manager.after(event).connected.is_none(),
{
}

impl ConnectionManager {
    /// The manager after all of `events`, in their order.
    pub open spec fn after_all(self, events: Seq<ManagerEvent>) -> ConnectionManager
        decreases events.len(),
    {
        if events.len() == 0 {
            self
        } else {
            self.after_all(events.drop_last()).after(events.last()).manager
        }
    }

    /// What the manager reports to the coordinator while it takes in
    /// `events`, in the order in which it reports it.
    pub open spec fn emitted(self, events: Seq<ManagerEvent>) -> Seq<ConnectionState>
        decreases events.len(),
    {
        if events.len() == 0 {
            Seq::empty()
        } else {
            match self.after_all(events.drop_last()).after(events.last()).emit {
                Some(state) => self.emitted(events.drop_last()).push(state),
                None => self.emitted(events.drop_last()),
            }
        }
    }
}

/// The peripheral that the last of `reports` says is connected, if the
/// last says so.
pub open spec fn connected_by(reports: Seq<ConnectionState>) -> Option<PeripheralId> {
    if reports.len() > 0 {
        match reports.last() {
            ConnectionState::Connected(id, _) => Some(id),
            _ => None,
        }
    } else {
        None
    }
}

/// Throughout an attempt, whatever happens, the manager knows a tracker
/// exactly while the last thing it has reported is the connection to that
/// tracker. So every connection that it reports is followed by
/// `Connecting` before the next connection is reported.
pub proof fn lemma_manager_reports_what_it_knows(events: Seq<ManagerEvent>)
    ensures
        ConnectionManager::initial().after_all(events).wf(),
        ConnectionManager::initial().after_all(events).tracker == connected_by(
            ConnectionManager::initial().emitted(events),
        ),
    decreases events.len(),
{
    if events.len() > 0 {
        let before = ConnectionManager::initial().after_all(events.drop_last());
        lemma_manager_reports_what_it_knows(events.drop_last());
        lemma_manager_wf(before, events.last());
    }
}

} // verus!
