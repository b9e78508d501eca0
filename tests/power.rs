use gimlet_seq::hf::HfMuxState;
use gimlet_seq::power::{PowerState, Report, SeqError, Sequencer, Work, A0_DONE, A1_DONE};
use gimlet_seq::seq_spi::{Cmd, RegisterMap, RegisterOp};

fn power_map() -> RegisterMap {
    RegisterMap {
        ident: 0x0000,
        pwrctrl: 0x0010,
        a1smstatus: 0x0020,
        a0smstatus: 0x0030,
        early_power_ctrl: 0x0040,
        a1pwren: 0x01,
        a0a_en: 0x02,
        a0c_dis: 0x04,
        fanpwren: 0x08,
        expected_ident: 0x1de0_aa55,
    }
}

fn power_up(seq: &mut Sequencer) -> Vec<Work> {
    let mut works = vec![seq.set_state(PowerState::A0)];
    works.push(seq.advance(Report::Done));
    works.push(seq.advance(Report::Done));
    works.push(seq.advance(Report::Status(vec![0, A1_DONE])));
    works.push(seq.advance(Report::Done));
    works.push(seq.advance(Report::Status(vec![A0_DONE])));
    works
}

fn power_down(seq: &mut Sequencer) -> Vec<Work> {
    let mut works = vec![seq.set_state(PowerState::A2)];
    works.push(seq.advance(Report::Done));
    works.push(seq.advance(Report::Done));
    works.push(seq.advance(Report::Done));
    works
}

#[test]
fn illegal_transitions_change_nothing() {
    let mut seq = Sequencer::new(power_map());
    assert_eq!(seq.set_state(PowerState::A2), Work::Reply(Err(SeqError::IllegalTransition)));
    assert_eq!(seq.get_state(), PowerState::A2);
    assert!(seq.is_idle());
    power_up(&mut seq);
    assert_eq!(seq.get_state(), PowerState::A0);
    assert_eq!(seq.set_state(PowerState::A0), Work::Reply(Err(SeqError::IllegalTransition)));
    assert_eq!(seq.get_state(), PowerState::A0);
    assert!(seq.is_idle());
}

#[test]
fn power_up_sequence() {
    let m = power_map();
    let mut seq = Sequencer::new(m);
    let works = power_up(&mut seq);
    assert_eq!(
        works,
        vec![
            Work::SetMux(HfMuxState::HostCPU),
            Work::Register(RegisterOp { cmd: Cmd::Write, addr: 0x0010, value: 0x03 }),
            Work::ReadStatus { addr: 0x0020, len: 2, delay_ms: 0 },
            Work::CoresOn,
            Work::ReadStatus { addr: 0x0030, len: 1, delay_ms: 0 },
            Work::Reply(Ok(())),
        ]
    );
    assert_eq!(seq.get_state(), PowerState::A0);
}

#[test]
fn status_polls_repeat_until_done() {
    let mut seq = Sequencer::new(power_map());
    seq.set_state(PowerState::A0);
    seq.advance(Report::Done);
    assert_eq!(seq.advance(Report::Done), Work::ReadStatus { addr: 0x0020, len: 2, delay_ms: 0 });
    assert_eq!(
        seq.advance(Report::Status(vec![A1_DONE, 0x3])),
        Work::ReadStatus { addr: 0x0020, len: 2, delay_ms: 1 }
    );
    assert_eq!(seq.advance(Report::Status(vec![0, A1_DONE])), Work::CoresOn);
    seq.advance(Report::Done);
    assert_eq!(
        seq.advance(Report::Status(vec![0x7])),
        Work::ReadStatus { addr: 0x0030, len: 1, delay_ms: 1 }
    );
    assert_eq!(seq.get_state(), PowerState::A2);
    assert_eq!(seq.advance(Report::Status(vec![A0_DONE])), Work::Reply(Ok(())));
    assert_eq!(seq.get_state(), PowerState::A0);
}

#[test]
fn power_down_sequence() {
    let mut seq = Sequencer::new(power_map());
    power_up(&mut seq);
    let works = power_down(&mut seq);
    assert_eq!(
        works,
        vec![
            Work::Register(RegisterOp { cmd: Cmd::Write, addr: 0x0010, value: 0x04 }),
            Work::CoresOff,
            Work::SetMux(HfMuxState::SP),
            Work::Reply(Ok(())),
        ]
    );
    assert_eq!(seq.get_state(), PowerState::A2);
}

#[test]
fn up_then_down_twice_returns_to_quiescent() {
    let mut seq = Sequencer::new(power_map());
    let first_up = power_up(&mut seq);
    let first_down = power_down(&mut seq);
    assert_eq!(seq.get_state(), PowerState::A2);
    assert!(seq.is_idle());
    let second_up = power_up(&mut seq);
    let second_down = power_down(&mut seq);
    assert_eq!(seq.get_state(), PowerState::A2);
    assert!(seq.is_idle());
    assert_eq!(first_up, second_up);
    assert_eq!(first_down, second_down);
}

#[test]
fn mux_to_host_failure_keeps_quiescent() {
    let mut seq = Sequencer::new(power_map());
    let first = seq.set_state(PowerState::A0);
    assert_eq!(first, Work::SetMux(HfMuxState::HostCPU));
    let reply = seq.advance(Report::Failed);
    assert_eq!(reply, Work::Reply(Err(SeqError::MuxToHostCPUFailed)));
    assert!(!matches!(first, Work::Register(_)));
    assert_eq!(seq.get_state(), PowerState::A2);
    assert!(seq.is_idle());
}

#[test]
fn mux_to_sp_failure_reports_error_after_rails_off() {
    let mut seq = Sequencer::new(power_map());
    power_up(&mut seq);
    seq.set_state(PowerState::A2);
    assert_eq!(seq.advance(Report::Done), Work::CoresOff);
    assert_eq!(seq.advance(Report::Done), Work::SetMux(HfMuxState::SP));
    assert_eq!(seq.advance(Report::Failed), Work::Reply(Err(SeqError::MuxToSPFailed)));
    assert_eq!(seq.get_state(), PowerState::A0);
    assert!(seq.is_idle());
}

fn apply(op: RegisterOp, v: u8) -> u8 {
    match op.cmd {
        Cmd::Write => op.value,
        Cmd::Read => v,
        Cmd::BitSet => v | op.value,
        Cmd::BitClear => v & !op.value,
    }
}

#[test]
fn fans_on_then_off_touches_only_the_fan_bit() {
    let seq = Sequencer::new(power_map());
    let on = seq.fans_on();
    let off = seq.fans_off();
    assert_eq!(on, RegisterOp { cmd: Cmd::BitSet, addr: 0x0040, value: 0x08 });
    assert_eq!(off, RegisterOp { cmd: Cmd::BitClear, addr: 0x0040, value: 0x08 });
    for before in [0x00u8, 0x08, 0xf7, 0xff, 0xa5] {
        let after = apply(off, apply(on, before));
        assert_eq!(after & 0x08, 0);
        assert_eq!(after & !0x08, before & !0x08);
    }
    assert_eq!(on.frame(), vec![2, 0x00, 0x40, 0x08]);
    assert_eq!(off.frame(), vec![3, 0x00, 0x40, 0x08]);
}
