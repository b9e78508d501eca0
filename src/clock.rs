//! Programming the clock generator: a fixed list of packets written in
//! order, stopping at the first one the device refuses.
use vstd::prelude::*;
use crate::power::SeqError;

verus! {

/// What the clock-configuration run does next.
#[derive(Copy, Clone, Debug, PartialEq, Eq)]
pub enum ClockStep {
    /// Write the packet with this index.
    Write(usize),
    /// The run is over; this is the answer to the request.
    Finish(Result<(), SeqError>),
}

/// Decides the next step of a run over `total` packets of which the first
/// `sent` have been written and accepted. `last_ok` tells whether the last
/// write succeeded (`true` before the first write). The first refusal ends
/// the run with `ClockConfigFailed`, with no retry; otherwise the packets go
/// out in order and the run succeeds after the last.
pub fn clock_config_step(sent: usize, total: usize, last_ok: bool) -> (r: ClockStep)
    requires
        sent <= total,
    ensures
        !last_ok ==> r == ClockStep::Finish(Err(SeqError::ClockConfigFailed)),
        last_ok && sent == total ==> r == ClockStep::Finish(Ok(())),
        last_ok && sent < total ==> r == ClockStep::Write(sent),
{
    if !last_ok {
        ClockStep::Finish(Err(SeqError::ClockConfigFailed))
    } else if sent == total {
        ClockStep::Finish(Ok(()))
    } else {
        ClockStep::Write(sent)
    }
}

} // verus!
