//! Task startup: bring up the FPGA's rails, program the FPGA only when the
//! loaded design does not identify itself, turn the host's core regulators
//! off, and wait for the design's power control to settle before serving
//! requests in the quiescent state.
use vstd::prelude::*;
use crate::loader::{
    BitstreamLoader, LoadReport, LoadStage, LoadWork, LoaderView, load_report_fits, load_step,
    loader_wf,
};
use crate::power::{PowerState, Sequencer, Stage};
use crate::rails::{
    RailPins, RailReport, RailSequencer, RailStage, RailView, RailWork, rail_report_fits, rail_step,
};
use crate::seq_spi::{RegisterMap, ident_of, valid_ident};

verus! {

/// Milliseconds between two reads of power control while it is not clear.
pub const POWER_CTRL_POLL_MS: u64 = 1;

/// Where startup stands: the work whose outcome it waits for.
#[derive(Copy, Clone, Debug, PartialEq, Eq, Structural)]
pub enum StartStage {
    /// The rail bring-up runs.
    Rails,
    /// The pins of the link to the design are being set up.
    Prepare,
    /// The design's identity is being read.
    Probe,
    /// The design is being put into reset before reprogramming.
    HoldDesign,
    /// The loader runs.
    Program,
    /// The design is being let out of reset.
    ReleaseDesign,
    /// The host's core regulators are being turned off.
    CoresOff,
    /// Waiting for power control to read zero.
    PollPowerCtrl,
    /// Startup is done; requests are served.
    Serving,
    /// Programming failed for good.
    Fatal,
}

/// A piece of outside work of startup.
#[derive(Copy, Clone, Debug, PartialEq, Eq, Structural)]
pub enum StartWork {
    /// Work of the rail bring-up.
    Rail(RailWork),
    /// Put the board's design-link pins into their states, and configure
    /// the design reset output, not asserted.
    PrepareDesignLink,
    /// Read the four identity registers.
    ProbeIdent,
    /// Assert the design reset.
    HoldDesignReset,
    /// Work of the loader.
    Load(LoadWork),
    /// Deassert the design reset.
    ReleaseDesignReset,
    /// Turn off the core regulator, then the SoC regulator.
    CoresOff,
    /// Wait `delay_ms` milliseconds, then read power control.
    ReadPowerCtrl { delay_ms: u64 },
    /// Start serving requests; the host is quiescent.
    Serve,
    /// Programming the FPGA failed this many times.
    Fatal { attempts: u32 },
}

/// The outcome of a piece of startup work.
#[derive(Clone, Debug, PartialEq, Eq)]
pub enum StartReport {
    /// Outcome of rail work.
    Rail(RailReport),
    /// Outcome of loader work.
    Load(LoadReport),
    /// Other work is done.
    Done,
    /// The four identity bytes as read.
    Ident(Vec<u8>),
    /// Power control as read.
    PowerCtrl(u8),
}

/// The model of a `Startup`.
pub struct StartView {
    pub stage: StartStage,
    pub rails: RailView,
    pub loader: LoaderView,
    pub regs: RegisterMap,
    /// Whether the identity probe found no valid design.
    pub reprogram: bool,
}

/// The startup engine.
pub struct Startup {
    stage: StartStage,
    rails: RailSequencer,
    loader: BitstreamLoader,
    regs: RegisterMap,
    reprogram: bool,
}

impl View for Startup {
    type V = StartView;

    closed spec fn view(&self) -> StartView {
        StartView {
            stage: self.stage,
            rails: self.rails@,
            loader: self.loader@,
            regs: self.regs,
            reprogram: self.reprogram,
        }
    }
}

/// Startup's invariant: the rail bring-up runs exactly in the first stage
/// and is up afterwards; the loader has not started unless the probe asked
/// for reprogramming and the design was put into reset.
pub open spec fn startup_wf(v: StartView) -> bool {
    &&& loader_wf(v.loader)
    &&& (v.stage == StartStage::Rails) == (v.rails.stage != RailStage::Up)
    &&& v.stage == StartStage::Rails ==> v.rails.stage != RailStage::Off
    &&& (v.stage == StartStage::Rails || v.stage == StartStage::Prepare || v.stage
        == StartStage::Probe) ==> !v.reprogram
    &&& (v.stage == StartStage::Rails || v.stage == StartStage::Prepare || v.stage
        == StartStage::Probe || v.stage == StartStage::HoldDesign) ==> v.loader.stage
        == LoadStage::Ready
    &&& v.stage == StartStage::Program ==> v.loader.stage != LoadStage::Ready && v.loader.stage
        != LoadStage::Loaded && v.loader.stage != LoadStage::Fatal
    &&& (v.loader.stage != LoadStage::Ready || v.stage == StartStage::HoldDesign) ==> v.reprogram
    &&& v.stage == StartStage::Fatal ==> v.loader.stage == LoadStage::Fatal
}

/// Whether `r` is an outcome that the work of `v`'s stage can have.
pub open spec fn start_report_fits(v: StartView, r: StartReport) -> bool {
    match v.stage {
        StartStage::Rails => r is Rail && rail_report_fits(v.rails.stage, r->Rail_0),
        StartStage::Program => r is Load && load_report_fits(v.loader, r->Load_0),
        StartStage::Probe => r is Ident && r->Ident_0@.len() == 4,
        StartStage::PollPowerCtrl => r is PowerCtrl,
        StartStage::Serving | StartStage::Fatal => false,
        _ => r is Done,
    }
}

/// The startup step on outcome `r`: startup afterwards and the next work.
pub open spec fn start_step(v: StartView, r: StartReport) -> (StartView, StartWork) {
    match v.stage {
        StartStage::Rails => {
            let (rs, w) = rail_step(v.rails, r->Rail_0);
            let rails = RailView { stage: rs, ..v.rails };
            if w == RailWork::Finished {
                (StartView { stage: StartStage::Prepare, rails, ..v }, StartWork::PrepareDesignLink)
            } else {
                (StartView { rails, ..v }, StartWork::Rail(w))
            }
        },
        StartStage::Prepare => (StartView { stage: StartStage::Probe, ..v }, StartWork::ProbeIdent),
        StartStage::Probe => if ident_of(r->Ident_0@) == v.regs.expected_ident {
            (StartView { stage: StartStage::CoresOff, ..v }, StartWork::CoresOff)
        } else {
            (
                StartView { stage: StartStage::HoldDesign, reprogram: true, ..v },
                StartWork::HoldDesignReset,
            )
        },
        StartStage::HoldDesign => (
            StartView {
                stage: StartStage::Program,
                loader: LoaderView {
                    stage: LoadStage::Beginning,
                    attempts: 1,
                    input_left: v.loader.image_len,
                    idle: true,
                    ..v.loader
                },
                ..v
            },
            StartWork::Load(LoadWork::Begin),
        ),
        StartStage::Program => {
            let (loader, w) = load_step(v.loader, r->Load_0);
            if w == LoadWork::Loaded {
                (
                    StartView { stage: StartStage::ReleaseDesign, loader, ..v },
                    StartWork::ReleaseDesignReset,
                )
            } else if w is Fatal {
                (
                    StartView { stage: StartStage::Fatal, loader, ..v },
                    StartWork::Fatal { attempts: w->attempts },
                )
            } else {
                (StartView { loader, ..v }, StartWork::Load(w))
            }
        },
        StartStage::ReleaseDesign => (
            StartView { stage: StartStage::CoresOff, ..v },
            StartWork::CoresOff,
        ),
        StartStage::CoresOff => (
            StartView { stage: StartStage::PollPowerCtrl, ..v },
            StartWork::ReadPowerCtrl { delay_ms: 0 },
        ),
        StartStage::PollPowerCtrl => if r->PowerCtrl_0 == 0 {
            (StartView { stage: StartStage::Serving, ..v }, StartWork::Serve)
        } else {
            (v, StartWork::ReadPowerCtrl { delay_ms: POWER_CTRL_POLL_MS })
        },
        _ => (v, StartWork::Serve),
    }
}

/// Startup after the outcomes `rs`, one per step, from `v`.
pub open spec fn start_run(v: StartView, rs: Seq<StartReport>) -> StartView
    decreases rs.len(),
{
    if rs.len() == 0 {
        v
    } else {
        start_run(start_step(v, rs[0]).0, rs.drop_first())
    }
}

/// Whether each outcome of `rs` fits the work it answers, from `v`.
pub open spec fn run_fits(v: StartView, rs: Seq<StartReport>) -> bool
    decreases rs.len(),
{
    rs.len() == 0 || (start_report_fits(v, rs[0]) && run_fits(start_step(v, rs[0]).0, rs.drop_first()))
}

/// Whether some step of the run `rs` from `v` hands out loader work.
pub open spec fn run_loads(v: StartView, rs: Seq<StartReport>) -> bool
    decreases rs.len(),
{
    rs.len() > 0 && (start_step(v, rs[0]).1 is Load || run_loads(start_step(v, rs[0]).0, rs.drop_first()))
}

/// Each startup step keeps the invariant.
pub proof fn lemma_start_step_wf(v: StartView, r: StartReport)
    requires
        startup_wf(v),
        start_report_fits(v, r),
    ensures
        startup_wf(start_step(v, r).0),
        v.stage != StartStage::Probe ==> start_step(v, r).0.reprogram == v.reprogram,
{
}

/// Past the identity probe and with no reprogramming asked for, no run of
/// startup hands out loader work, and the loader stays unstarted.
pub proof fn lemma_no_reprogram_never_loads(v: StartView, rs: Seq<StartReport>)
    requires
        startup_wf(v),
        run_fits(v, rs),
        !v.reprogram,
        v.stage != StartStage::Rails && v.stage != StartStage::Prepare && v.stage != StartStage::Probe,
    ensures
        !run_loads(v, rs),
        start_run(v, rs).loader.stage == LoadStage::Ready,
    decreases rs.len(),
{
    if rs.len() > 0 {
        lemma_start_step_wf(v, rs[0]);
        lemma_no_reprogram_never_loads(start_step(v, rs[0]).0, rs.drop_first());
    }
}

/// When the identity probe reports the expected design, the loader is never
/// invoked: no later step hands out loader work, and the loader stays
/// unstarted for the rest of startup.
pub proof fn lemma_valid_ident_skips_loader(v: StartView, rs: Seq<StartReport>)
    requires
        startup_wf(v),
        v.stage == StartStage::Probe,
        run_fits(v, rs),
        rs.len() > 0,
        rs[0] is Ident && ident_of(rs[0]->Ident_0@) == v.regs.expected_ident,
    ensures
        !run_loads(v, rs),
        start_run(v, rs).loader.stage == LoadStage::Ready,
{
    lemma_start_step_wf(v, rs[0]);
    lemma_no_reprogram_never_loads(start_step(v, rs[0]).0, rs.drop_first());
}

impl Startup {
    /// Startup for a board with rail pins `pins` and a design with register
    /// map `regs`, holding a compressed image of `image_len` bytes. Its
    /// first work configures the rail pins.
    pub fn new(pins: RailPins, regs: RegisterMap, image_len: usize) -> (r: (Startup, StartWork))
        ensures
            r.0@.stage == StartStage::Rails,
            r.0@.rails.stage == RailStage::Configuring,
            r.0@.rails.pins == pins,
            r.0@.loader.stage == LoadStage::Ready,
            r.0@.loader.image_len == image_len,
            r.0@.regs == regs,
            !r.0@.reprogram,
            startup_wf(r.0@),
            r.1 == StartWork::Rail(RailWork::ConfigurePins),
    {
        let mut rails = RailSequencer::new(pins);
        let w = rails.start();
        let loader = BitstreamLoader::new(image_len);
        (Startup { stage: StartStage::Rails, rails, loader, regs, reprogram: false }, StartWork::Rail(w))
    }

    /// Startup's stage.
    pub fn stage(&self) -> (r: StartStage)
        ensures
            r == self@.stage,
    {
        self.stage
    }

    /// Takes the outcome of the last work and returns the next.
    ///
    /// The loader is started only when the identity probe found no valid
    /// design; a valid identity goes straight on to turning the cores off.
    pub fn advance(&mut self, report: StartReport) -> (r: StartWork)
        requires
            startup_wf(old(self)@),
            start_report_fits(old(self)@, report),
        ensures
            (final(self)@, r) == start_step(old(self)@, report),
            startup_wf(final(self)@),
            old(self)@.stage != StartStage::Probe ==> final(self)@.reprogram == old(self)@.reprogram,
            r is Load ==> final(self)@.reprogram,
            !final(self)@.reprogram ==> final(self)@.loader.stage == LoadStage::Ready,
    {
        match self.stage {
            StartStage::Rails => {
                let rr = match report {
                    StartReport::Rail(rr) => rr,
                    _ => RailReport::Done,
                };
                let w = self.rails.advance(rr);
                if let RailWork::Finished = w {
                    self.stage = StartStage::Prepare;
                    StartWork::PrepareDesignLink
                } else {
                    StartWork::Rail(w)
                }
            },
            StartStage::Prepare => {
                self.stage = StartStage::Probe;
                StartWork::ProbeIdent
            },
            StartStage::Probe => {
                let valid = match &report {
                    StartReport::Ident(b) => valid_ident(&self.regs, b.as_slice()),
                    _ => false,
                };
                if valid {
                    self.stage = StartStage::CoresOff;
                    StartWork::CoresOff
                } else {
                    self.stage = StartStage::HoldDesign;
                    self.reprogram = true;
                    StartWork::HoldDesignReset
                }
            },
            StartStage::HoldDesign => {
                self.stage = StartStage::Program;
                StartWork::Load(self.loader.start())
            },
            StartStage::Program => {
                let lr = match report {
                    StartReport::Load(lr) => lr,
                    _ => LoadReport::Failed,
                };
                let w = self.loader.advance(lr);
                match w {
                    LoadWork::Loaded => {
                        self.stage = StartStage::ReleaseDesign;
                        StartWork::ReleaseDesignReset
                    },
                    LoadWork::Fatal { attempts } => {
                        self.stage = StartStage::Fatal;
                        StartWork::Fatal { attempts }
                    },
                    _ => StartWork::Load(w),
                }
            },
            StartStage::ReleaseDesign => {
                self.stage = StartStage::CoresOff;
                StartWork::CoresOff
            },
            StartStage::CoresOff => {
                self.stage = StartStage::PollPowerCtrl;
                StartWork::ReadPowerCtrl { delay_ms: 0 }
            },
            StartStage::PollPowerCtrl => {
                let clear = match report {
                    StartReport::PowerCtrl(s) => s == 0,
                    _ => false,
                };
                if clear {
                    self.stage = StartStage::Serving;
                    StartWork::Serve
                } else {
                    StartWork::ReadPowerCtrl { delay_ms: POWER_CTRL_POLL_MS }
                }
            },
            _ => StartWork::Serve,
        }
    }

    /// The power-state machine that serves requests once startup is done:
    /// quiescent, with no transition in progress.
    pub fn sequencer(&self) -> (r: Sequencer)
        requires
            self@.stage == StartStage::Serving,
        ensures
            r@.state == PowerState::A2,
            r@.stage == Stage::Idle,
            r@.regs == self@.regs,
    {
        Sequencer::new(self.regs)
    }
}

} // verus!
