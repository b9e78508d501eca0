//! Cold-start bring-up of the sequencer FPGA's own supply rails.
//!
//! The 1.2 V rail comes up first, then the 3.3 V rail; each is enabled, left
//! to settle, and its power-good input read until it reports good, with no
//! timeout. Nothing is ever turned off here, so a restart while the rails
//! are already up does not glitch them.
use vstd::prelude::*;

verus! {

/// Milliseconds to wait after enabling a rail before trusting its
/// power-good input, and between two reads of that input.
pub const POWER_GOOD_POLL_MS: u64 = 2;

/// Milliseconds to wait once both rails are good: the chained 2.5 V rail has
/// no feedback of its own, and the FPGA needs time to leave power-down.
pub const FINAL_SETTLE_MS: u64 = 1 + 10;

/// The board's enable outputs and power-good inputs, as pin masks.
#[derive(Copy, Clone, Debug, PartialEq, Eq, Structural)]
pub struct RailPins {
    pub enable_v1p2: u16,
    pub enable_v3p3: u16,
    pub pg_v1p2: u16,
    pub pg_v3p3: u16,
}

/// How far the bring-up has come: the work whose outcome it waits for.
#[derive(Copy, Clone, Debug, PartialEq, Eq, Structural)]
pub enum RailStage {
    /// Nothing done yet.
    Off,
    /// The power-good and enable pins are being configured.
    Configuring,
    /// The 1.2 V enable is being driven.
    EnablingV1p2,
    /// Waiting for the 1.2 V rail to report good.
    PollV1p2,
    /// The 3.3 V enable is being driven.
    EnablingV3p3,
    /// Waiting for the 3.3 V rail to report good.
    PollV3p3,
    /// Both rails good; the final settle delay runs.
    Settling,
    /// Bring-up is complete.
    Up,
}

/// A piece of outside work of the bring-up.
#[derive(Copy, Clone, Debug, PartialEq, Eq, Structural)]
pub enum RailWork {
    /// Configure the power-good pins as inputs and the enable pins as
    /// outputs, keeping the level each enable is driven at.
    ConfigurePins,
    /// Drive the enable outputs in this mask high.
    Enable(u16),
    /// Wait `delay_ms` milliseconds, then read the power-good inputs.
    ReadPowerGood { delay_ms: u64 },
    /// Wait this many milliseconds.
    Sleep(u64),
    /// Bring-up is complete.
    Finished,
}

/// The outcome of a piece of bring-up work.
#[derive(Copy, Clone, Debug, PartialEq, Eq, Structural)]
pub enum RailReport {
    /// An enable or a sleep is done.
    Done,
    /// The power-good inputs as read.
    PowerGood(u16),
}

/// The model of a `RailSequencer`.
pub struct RailView {
    pub stage: RailStage,
    pub pins: RailPins,
}

/// The rail bring-up engine.
pub struct RailSequencer {
    stage: RailStage,
    pins: RailPins,
}

impl View for RailSequencer {
    type V = RailView;

    closed spec fn view(&self) -> RailView {
        RailView { stage: self.stage, pins: self.pins }
    }
}

/// Whether the power-good inputs `pg` show the rail of mask `mask` good.
pub open spec fn is_good(pg: u16, mask: u16) -> bool {
    pg & mask != 0
}

/// Whether `r` is an outcome that the work of `stage` can have.
pub open spec fn rail_report_fits(stage: RailStage, r: RailReport) -> bool {
    match stage {
        RailStage::Off | RailStage::Up => false,
        RailStage::PollV1p2 | RailStage::PollV3p3 => r is PowerGood,
        _ => r is Done,
    }
}

/// The bring-up step on outcome `r`: the next stage and work.
pub open spec fn rail_step(v: RailView, r: RailReport) -> (RailStage, RailWork) {
    match v.stage {
        RailStage::Configuring => (RailStage::EnablingV1p2, RailWork::Enable(v.pins.enable_v1p2)),
        RailStage::EnablingV1p2 => (
            RailStage::PollV1p2,
            RailWork::ReadPowerGood { delay_ms: POWER_GOOD_POLL_MS },
        ),
        RailStage::PollV1p2 => if is_good(r->PowerGood_0, v.pins.pg_v1p2) {
            (RailStage::EnablingV3p3, RailWork::Enable(v.pins.enable_v3p3))
        } else {
            (RailStage::PollV1p2, RailWork::ReadPowerGood { delay_ms: POWER_GOOD_POLL_MS })
        },
        RailStage::EnablingV3p3 => (
            RailStage::PollV3p3,
            RailWork::ReadPowerGood { delay_ms: POWER_GOOD_POLL_MS },
        ),
        RailStage::PollV3p3 => if is_good(r->PowerGood_0, v.pins.pg_v3p3) {
            (RailStage::Settling, RailWork::Sleep(FINAL_SETTLE_MS))
        } else {
            (RailStage::PollV3p3, RailWork::ReadPowerGood { delay_ms: POWER_GOOD_POLL_MS })
        },
        RailStage::Settling => (RailStage::Up, RailWork::Finished),
        _ => (v.stage, RailWork::Finished),
    }
}

impl RailSequencer {
    /// A bring-up that has done nothing yet.
    pub fn new(pins: RailPins) -> (r: RailSequencer)
        ensures
            r@.stage == RailStage::Off,
            r@.pins == pins,
    {
        RailSequencer { stage: RailStage::Off, pins }
    }

    /// Starts the bring-up: its first work configures the pins, and the
    /// next enables the 1.2 V rail.
    pub fn start(&mut self) -> (r: RailWork)
        requires
            old(self)@.stage == RailStage::Off,
        ensures
            final(self)@.stage == RailStage::Configuring,
            final(self)@.pins == old(self)@.pins,
            r == RailWork::ConfigurePins,
    {
        self.stage = RailStage::Configuring;
        RailWork::ConfigurePins
    }

    /// Takes the outcome of the last work and returns the next. The 3.3 V
    /// rail is enabled only once the 1.2 V rail has been read good, and the
    /// bring-up ends only once the 3.3 V rail has been read good after that.
    pub fn advance(&mut self, report: RailReport) -> (r: RailWork)
        requires
            rail_report_fits(old(self)@.stage, report),
        ensures
            (final(self)@.stage, r) == rail_step(old(self)@, report),
            final(self)@.pins == old(self)@.pins,
            final(self)@.stage == RailStage::EnablingV3p3 ==> old(self)@.stage
                == RailStage::PollV1p2 && is_good(report->PowerGood_0, old(self)@.pins.pg_v1p2),
            final(self)@.stage == RailStage::Settling ==> old(self)@.stage == RailStage::PollV3p3
                && is_good(report->PowerGood_0, old(self)@.pins.pg_v3p3),
    {
        let pins = self.pins;
        match self.stage {
            RailStage::Configuring => {
                self.stage = RailStage::EnablingV1p2;
                RailWork::Enable(pins.enable_v1p2)
            },
            RailStage::EnablingV1p2 => {
                self.stage = RailStage::PollV1p2;
                RailWork::ReadPowerGood { delay_ms: POWER_GOOD_POLL_MS }
            },
            RailStage::PollV1p2 => {
                let good = match report {
                    RailReport::PowerGood(pg) => pg & pins.pg_v1p2 != 0,
                    RailReport::Done => false,
                };
                if good {
                    self.stage = RailStage::EnablingV3p3;
                    RailWork::Enable(pins.enable_v3p3)
                } else {
                    RailWork::ReadPowerGood { delay_ms: POWER_GOOD_POLL_MS }
                }
            },
            RailStage::EnablingV3p3 => {
                self.stage = RailStage::PollV3p3;
                RailWork::ReadPowerGood { delay_ms: POWER_GOOD_POLL_MS }
            },
            RailStage::PollV3p3 => {
                let good = match report {
                    RailReport::PowerGood(pg) => pg & pins.pg_v3p3 != 0,
                    RailReport::Done => false,
                };
                if good {
                    self.stage = RailStage::Settling;
                    RailWork::Sleep(FINAL_SETTLE_MS)
                } else {
                    RailWork::ReadPowerGood { delay_ms: POWER_GOOD_POLL_MS }
                }
            },
            RailStage::Settling => {
                self.stage = RailStage::Up;
                RailWork::Finished
            },
            _ => RailWork::Finished,
        }
    }
}

} // verus!
