//! The power-state machine: the two legal transitions between the quiescent
//! (A2) and operating (A0) states, and the fan controls.
//!
//! A transition is a fixed sequence of outside work. `Sequencer::set_state`
//! starts one and returns the first piece of work; the caller performs each
//! piece and hands its outcome to `Sequencer::advance`, which returns the
//! next, until a `Work::Reply` carries the answer to the request.
use vstd::prelude::*;
use crate::hf::HfMuxState;
use crate::seq_spi::{Cmd, RegisterMap, RegisterOp, apply_op, clear_bits, set_bits};

verus! {

/// Status code of the first power group's state machine once it is done.
pub const A1_DONE: u8 = 0x7;

/// Status code of the operating-phase state machine once it is done.
pub const A0_DONE: u8 = 0xc;

/// Milliseconds between two reads of a status register that is not done yet.
pub const STATUS_POLL_MS: u64 = 1;

/// The externally visible power state of the host.
#[derive(Copy, Clone, Debug, PartialEq, Eq, Structural)]
pub enum PowerState {
    /// Quiescent: the host's main rails are off.
    A2,
    /// Operating: the host is powered and running.
    A0,
}

/// Errors returned to the requester of a power-state operation.
#[derive(Copy, Clone, Debug, PartialEq, Eq, Structural)]
pub enum SeqError {
    /// The requested transition is not one of the two legal ones.
    IllegalTransition,
    /// The host flash could not be handed to the host CPU.
    MuxToHostCPUFailed,
    /// The host flash could not be handed back to the service processor.
    MuxToSPFailed,
    /// A clock-generator programming packet was refused.
    ClockConfigFailed,
}

/// Where a transition in progress stands: the piece of work whose outcome
/// the machine waits for.
#[derive(Copy, Clone, Debug, PartialEq, Eq, Structural)]
pub enum Stage {
    /// No transition in progress.
    Idle,
    /// Up: the flash mux is being handed to the host CPU.
    MuxToHost,
    /// Up: the first power group and the sequence start are being enabled.
    EnableA1,
    /// Up: waiting for the first power group's status to be done.
    PollA1,
    /// Up: the core and SoC regulators are being turned on.
    CoresOn,
    /// Up: waiting for the operating-phase status to be done.
    PollA0,
    /// Down: the operating phase is being disabled.
    DisableA0,
    /// Down: the core and SoC regulators are being turned off.
    CoresOff,
    /// Down: the flash mux is being handed back to the service processor.
    MuxToSp,
}

/// A piece of outside work, or the answer to the request.
#[derive(Copy, Clone, Debug, PartialEq, Eq)]
pub enum Work {
    /// Ask the host flash service to move the mux.
    SetMux(HfMuxState),
    /// Send one register command to the sequencer design.
    Register(RegisterOp),
    /// Wait `delay_ms` milliseconds, then read `len` bytes at `addr`.
    ReadStatus { addr: u16, len: usize, delay_ms: u64 },
    /// Turn on the core regulator, then the SoC regulator.
    CoresOn,
    /// Turn off the core regulator, then the SoC regulator.
    CoresOff,
    /// The transition is over; this is the answer to the request.
    Reply(Result<(), SeqError>),
}

/// The outcome of the last piece of work.
#[derive(Clone, Debug, PartialEq, Eq)]
pub enum Report {
    /// The work succeeded.
    Done,
    /// The work failed (only the mux requests can).
    Failed,
    /// The bytes read by a `Work::ReadStatus`.
    Status(Vec<u8>),
}

/// The model of a `Sequencer`.
pub struct SequencerView {
    pub state: PowerState,
    pub stage: Stage,
    pub regs: RegisterMap,
}

/// The service's power-state machine.
pub struct Sequencer {
    state: PowerState,
    stage: Stage,
    regs: RegisterMap,
}

impl View for Sequencer {
    type V = SequencerView;

    closed spec fn view(&self) -> SequencerView {
        SequencerView { state: self.state, stage: self.stage, regs: self.regs }
    }
}

/// The write that enables the first power group together with the start of
/// the operating-phase sequence.
pub open spec fn power_up_op(regs: RegisterMap) -> RegisterOp {
    RegisterOp { cmd: Cmd::Write, addr: regs.pwrctrl, value: regs.a1pwren | regs.a0a_en }
}

/// The write that disables the operating phase.
pub open spec fn power_down_op(regs: RegisterMap) -> RegisterOp {
    RegisterOp { cmd: Cmd::Write, addr: regs.pwrctrl, value: regs.a0c_dis }
}

/// The command that sets the fan enable.
pub open spec fn fans_on_op(regs: RegisterMap) -> RegisterOp {
    RegisterOp { cmd: Cmd::BitSet, addr: regs.early_power_ctrl, value: regs.fanpwren }
}

/// The command that clears the fan enable.
pub open spec fn fans_off_op(regs: RegisterMap) -> RegisterOp {
    RegisterOp { cmd: Cmd::BitClear, addr: regs.early_power_ctrl, value: regs.fanpwren }
}

/// A read of the first power group's status after `delay_ms`.
pub open spec fn read_a1(regs: RegisterMap, delay_ms: u64) -> Work {
    Work::ReadStatus { addr: regs.a1smstatus, len: 2, delay_ms }
}

/// A read of the operating-phase status after `delay_ms`.
pub open spec fn read_a0(regs: RegisterMap, delay_ms: u64) -> Work {
    Work::ReadStatus { addr: regs.a0smstatus, len: 1, delay_ms }
}

/// The same machine at another stage.
pub open spec fn at_stage(v: SequencerView, stage: Stage) -> SequencerView {
    SequencerView { stage, ..v }
}

/// The same machine, idle, in `state`.
pub open spec fn settled(v: SequencerView, state: PowerState) -> SequencerView {
    SequencerView { state, stage: Stage::Idle, ..v }
}

/// A request for `target`: the machine afterwards and the first work.
/// From A2 to A0 it first asks for the flash mux; from A0 to A2 it first
/// disables the operating phase; any other request is refused at once and
/// changes nothing.
pub open spec fn begin(v: SequencerView, target: PowerState) -> (SequencerView, Work) {
    if v.state == PowerState::A2 && target == PowerState::A0 {
        (at_stage(v, Stage::MuxToHost), Work::SetMux(HfMuxState::HostCPU))
    } else if v.state == PowerState::A0 && target == PowerState::A2 {
        (at_stage(v, Stage::DisableA0), Work::Register(power_down_op(v.regs)))
    } else {
        (v, Work::Reply(Err(SeqError::IllegalTransition)))
    }
}

/// Whether `r` is an outcome that the work of `stage` can have.
pub open spec fn report_fits(stage: Stage, r: Report) -> bool {
    match stage {
        Stage::Idle => false,
        Stage::MuxToHost | Stage::MuxToSp => r is Done || r is Failed,
        Stage::PollA1 => r is Status && r->Status_0@.len() == 2,
        Stage::PollA0 => r is Status && r->Status_0@.len() == 1,
        _ => r is Done,
    }
}

/// The step of a transition in progress on outcome `r`: the machine
/// afterwards and the next work.
pub open spec fn step(v: SequencerView, r: Report) -> (SequencerView, Work) {
    match v.stage {
        Stage::MuxToHost => if r is Done {
            (at_stage(v, Stage::EnableA1), Work::Register(power_up_op(v.regs)))
        } else {
            (settled(v, v.state), Work::Reply(Err(SeqError::MuxToHostCPUFailed)))
        },
        Stage::EnableA1 => (at_stage(v, Stage::PollA1), read_a1(v.regs, 0)),
        Stage::PollA1 => if r->Status_0@[1] == A1_DONE {
            (at_stage(v, Stage::CoresOn), Work::CoresOn)
        } else {
            (v, read_a1(v.regs, STATUS_POLL_MS))
        },
        Stage::CoresOn => (at_stage(v, Stage::PollA0), read_a0(v.regs, 0)),
        Stage::PollA0 => if r->Status_0@[0] == A0_DONE {
            (settled(v, PowerState::A0), Work::Reply(Ok(())))
        } else {
            (v, read_a0(v.regs, STATUS_POLL_MS))
        },
        Stage::DisableA0 => (at_stage(v, Stage::CoresOff), Work::CoresOff),
        Stage::CoresOff => (at_stage(v, Stage::MuxToSp), Work::SetMux(HfMuxState::SP)),
        Stage::MuxToSp => if r is Done {
            (settled(v, PowerState::A2), Work::Reply(Ok(())))
        } else {
            (settled(v, v.state), Work::Reply(Err(SeqError::MuxToSPFailed)))
        },
        Stage::Idle => (v, Work::Reply(Err(SeqError::IllegalTransition))),
    }
}

impl Sequencer {
    /// A machine in the quiescent state with no transition in progress.
    pub fn new(regs: RegisterMap) -> (r: Sequencer)
        ensures
            r@.state == PowerState::A2,
            r@.stage == Stage::Idle,
            r@.regs == regs,
    {
        Sequencer { state: PowerState::A2, stage: Stage::Idle, regs }
    }

    /// The current power state.
    pub fn get_state(&self) -> (r: PowerState)
        ensures
            r == self@.state,
    {
        self.state
    }

    /// Whether no transition is in progress.
    pub fn is_idle(&self) -> (r: bool)
        ensures
            r == (self@.stage == Stage::Idle),
    {
        self.stage == Stage::Idle
    }

    /// Starts a transition to `target` and returns its first work; an
    /// illegal request is answered at once with `IllegalTransition` and
    /// leaves the machine as it was.
    pub fn set_state(&mut self, target: PowerState) -> (r: Work)
        requires
            old(self)@.stage == Stage::Idle,
        ensures
            (final(self)@, r) == begin(old(self)@, target),
            !((old(self)@.state == PowerState::A2 && target == PowerState::A0) || (old(
                self,
            )@.state == PowerState::A0 && target == PowerState::A2)) ==> final(self)@
                == old(self)@ && r == Work::Reply(Err(SeqError::IllegalTransition)),
    {
        match (self.state, target) {
            (PowerState::A2, PowerState::A0) => {
                self.stage = Stage::MuxToHost;
                Work::SetMux(HfMuxState::HostCPU)
            },
            (PowerState::A0, PowerState::A2) => {
                self.stage = Stage::DisableA0;
                Work::Register(
                    RegisterOp { cmd: Cmd::Write, addr: self.regs.pwrctrl, value: self.regs.a0c_dis },
                )
            },
            _ => Work::Reply(Err(SeqError::IllegalTransition)),
        }
    }

    /// Takes the outcome of the last work of the transition in progress and
    /// returns the next work.
    pub fn advance(&mut self, report: Report) -> (r: Work)
        requires
            report_fits(old(self)@.stage, report),
        ensures
            (final(self)@, r) == step(old(self)@, report),
    {
        let regs = self.regs;
        match self.stage {
            Stage::MuxToHost => {
                if let Report::Done = report {
                    self.stage = Stage::EnableA1;
                    Work::Register(
                        RegisterOp {
                            cmd: Cmd::Write,
                            addr: regs.pwrctrl,
                            value: regs.a1pwren | regs.a0a_en,
                        },
                    )
                } else {
                    self.stage = Stage::Idle;
                    Work::Reply(Err(SeqError::MuxToHostCPUFailed))
                }
            },
            Stage::EnableA1 => {
                self.stage = Stage::PollA1;
                Work::ReadStatus { addr: regs.a1smstatus, len: 2, delay_ms: 0 }
            },
            Stage::PollA1 => {
                let done = match &report {
                    Report::Status(b) => b[1] == A1_DONE,
                    _ => false,
                };
                if done {
                    self.stage = Stage::CoresOn;
                    Work::CoresOn
                } else {
                    Work::ReadStatus { addr: regs.a1smstatus, len: 2, delay_ms: STATUS_POLL_MS }
                }
            },
            Stage::CoresOn => {
                self.stage = Stage::PollA0;
                Work::ReadStatus { addr: regs.a0smstatus, len: 1, delay_ms: 0 }
            },
            Stage::PollA0 => {
                let done = match &report {
                    Report::Status(b) => b[0] == A0_DONE,
                    _ => false,
                };
                if done {
                    self.stage = Stage::Idle;
                    self.state = PowerState::A0;
                    Work::Reply(Ok(()))
                } else {
                    Work::ReadStatus { addr: regs.a0smstatus, len: 1, delay_ms: STATUS_POLL_MS }
                }
            },
            Stage::DisableA0 => {
                self.stage = Stage::CoresOff;
                Work::CoresOff
            },
            Stage::CoresOff => {
                self.stage = Stage::MuxToSp;
                Work::SetMux(HfMuxState::SP)
            },
            Stage::MuxToSp => {
                self.stage = Stage::Idle;
                if let Report::Done = report {
                    self.state = PowerState::A2;
                    Work::Reply(Ok(()))
                } else {
                    Work::Reply(Err(SeqError::MuxToSPFailed))
                }
            },
            Stage::Idle => Work::Reply(Err(SeqError::IllegalTransition)),
        }
    }

    /// The command that turns the fans on: set the fan enable in early
    /// power control, leaving its other bits alone.
    pub fn fans_on(&self) -> (r: RegisterOp)
        ensures
            r == fans_on_op(self@.regs),
    {
        RegisterOp { cmd: Cmd::BitSet, addr: self.regs.early_power_ctrl, value: self.regs.fanpwren }
    }

    /// The command that turns the fans off: clear the fan enable in early
    /// power control, leaving its other bits alone.
    pub fn fans_off(&self) -> (r: RegisterOp)
        ensures
            r == fans_off_op(self@.regs),
    {
        RegisterOp {
            cmd: Cmd::BitClear,
            addr: self.regs.early_power_ctrl,
            value: self.regs.fanpwren,
        }
    }
}

/// A transition from A2 to A0 in which every piece of work succeeds (each
/// status is done at its first read), followed by a transition back to A2 in
/// which every piece of work succeeds, leaves the machine exactly as it was:
/// idle in A2. Repeating the pair therefore changes nothing further.
pub proof fn lemma_up_then_down(v: SequencerView, a1: Report, a0: Report)
    requires
        v.state == PowerState::A2,
        v.stage == Stage::Idle,
        a1 is Status && a1->Status_0@.len() == 2 && a1->Status_0@[1] == A1_DONE,
        a0 is Status && a0->Status_0@.len() == 1 && a0->Status_0@[0] == A0_DONE,
    ensures
        ({
            let (u0, w0) = begin(v, PowerState::A0);
            let (u1, w1) = step(u0, Report::Done);
            let (u2, w2) = step(u1, Report::Done);
            let (u3, w3) = step(u2, a1);
            let (u4, w4) = step(u3, Report::Done);
            let (up, reply_up) = step(u4, a0);
            let (d0, x0) = begin(up, PowerState::A2);
            let (d1, x1) = step(d0, Report::Done);
            let (d2, x2) = step(d1, Report::Done);
            let (down, reply_down) = step(d2, Report::Done);
            &&& report_fits(u0.stage, Report::Done)
            &&& report_fits(u1.stage, Report::Done)
            &&& report_fits(u2.stage, a1)
            &&& report_fits(u3.stage, Report::Done)
            &&& report_fits(u4.stage, a0)
            &&& up.state == PowerState::A0 && up.stage == Stage::Idle
            &&& reply_up == Work::Reply(Ok(()))
            &&& report_fits(d0.stage, Report::Done)
            &&& report_fits(d1.stage, Report::Done)
            &&& report_fits(d2.stage, Report::Done)
            &&& reply_down == Work::Reply(Ok(()))
            &&& down == v
        }),
{
}

/// Setting and then clearing the fan enable leaves the fan bit clear, every
/// other bit of early power control as it was before, and every other
/// register untouched.
pub proof fn lemma_fans_on_then_off(map: RegisterMap, regs: Map<u16, u8>)
    requires
        regs.dom().contains(map.early_power_ctrl),
    ensures
        ({
            let after = apply_op(apply_op(regs, fans_on_op(map)), fans_off_op(map));
            let a = map.early_power_ctrl;
            let fan = map.fanpwren;
            &&& after.dom() == regs.dom()
            &&& after[a] & fan == 0
            &&& after[a] & !fan == regs[a] & !fan
            &&& forall|b: u16| b != a ==> after[b] == regs[b]
        }),
{
    let a = map.early_power_ctrl;
    let fan = map.fanpwren;
    let v = regs[a];
    let after = apply_op(apply_op(regs, fans_on_op(map)), fans_off_op(map));
    assert(after[a] == clear_bits(set_bits(v, fan), fan));
    assert(clear_bits(set_bits(v, fan), fan) & fan == 0) by (bit_vector);
    assert(clear_bits(set_bits(v, fan), fan) & !fan == v & !fan) by (bit_vector);
    assert(after.dom() =~= regs.dom());
}

} // verus!
