//! Whether state is still on the connection it was built on.
use vstd::prelude::*;

use crate::transport::{ConnectionEpoch, ConnectionState};

verus! {

/// Whether an incarnation is still on its connection.
#[derive(Clone, Copy, Debug, PartialEq, Eq, Structural)]
pub enum EpochVerdict {
    /// The connection is the one the state was built on.
    Current,
    /// The connection is another, broken or gone.
    Superseded,
}

/// The verdict on state built in `built`, over a connection in `now`.
pub open spec fn epoch_verdict(built: ConnectionEpoch, now: ConnectionState) -> EpochVerdict {
    if now == ConnectionState::Connected(built) {
        EpochVerdict::Current
    } else {
        EpochVerdict::Superseded
    }
}

impl EpochVerdict {
    /// The verdict on state built in `built`, over a connection in `now`.
    pub fn of(built: ConnectionEpoch, now: ConnectionState) -> (r: Self)
        ensures
            r == epoch_verdict(built, now),
    {
        match now {
            ConnectionState::Connected(epoch) => {
                if epoch.0 == built.0 {
                    EpochVerdict::Current
                } else {
                    EpochVerdict::Superseded
                }
            },
            _ => EpochVerdict::Superseded,
        }
    }
}

} // verus!
