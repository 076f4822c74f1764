//! Keeping a tracker connected and turning what it reports into entries.
//!
//! Three parts work side by side. The [`manager`] finds the tracker and
//! reports every change of the connection; a [`subscription`] listens to
//! one connected tracker; the [`coordinator`] keeps at most one such
//! listener alive and shuts everything down in order. Each part is a state
//! machine: it is told what happened and answers with what to do next. The
//! waiting itself, on the radio or on a timer, is done by the caller.

use vstd::prelude::*;

pub mod coordinator;
pub mod link;
pub mod manager;
pub mod retry;
pub mod shutdown;
pub mod subscription;
pub mod timeout;

verus! {

/// The characteristic through which the tracker reports the face that is
/// up: c7e70012-c847-11e6-8175-8c89a55d403c.
pub const TRACKER_SIDE_CH: u128 = 0xc7e70012_c847_11e6_8175_8c89a55d403c;

/// Names a peripheral that the radio has seen. Two names are equal exactly
/// when they stand for the same peripheral.
#[derive(Clone, Copy, Debug, PartialEq, Eq, Hash, Structural)]
pub struct PeripheralId(pub u64);

/// Names a characteristic of a peripheral by its place among those that
/// service discovery listed.
#[derive(Clone, Copy, Debug, PartialEq, Eq, Hash, Structural)]
pub struct CharacteristicId(pub usize);

/// A change of the connection, as the manager reports it.
#[derive(Clone, Copy, Debug, PartialEq, Eq, Structural)]
pub enum ConnectionState {
    /// Nothing has happened yet.
    Starting,
    /// Everything is to be torn down.
    Stopping,
    /// There is no connection; the manager is looking for the tracker.
    Connecting,
    /// The tracker is connected, and this is the characteristic to listen
    /// to.
    Connected(PeripheralId, CharacteristicId),
}

} // verus!
