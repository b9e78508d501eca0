use gimlet_seq::clock::{clock_config_step, ClockStep};
use gimlet_seq::hf::{HfError, HfMuxState};
use gimlet_seq::power::SeqError;
use gimlet_seq::seq_spi::{
    command_frame, read_frame, read_ident, reply_data, valid_ident, Cmd, RegisterMap,
};

fn protocol_map() -> RegisterMap {
    RegisterMap {
        ident: 0x0000,
        pwrctrl: 0x0010,
        a1smstatus: 0x0020,
        a0smstatus: 0x0030,
        early_power_ctrl: 0x0040,
        a1pwren: 0x01,
        a0a_en: 0x02,
        a0c_dis: 0x04,
        fanpwren: 0x08,
        expected_ident: 0x1de0_aa55,
    }
}

#[test]
fn frames_carry_header_then_data() {
    assert_eq!(command_frame(Cmd::Write, 0x1234, &[0xaa, 0xbb]), vec![0, 0x12, 0x34, 0xaa, 0xbb]);
    assert_eq!(command_frame(Cmd::BitClear, 0x00ff, &[]), vec![3, 0x00, 0xff]);
    assert_eq!(read_frame(0x0102, 2), vec![1, 0x01, 0x02, 0, 0]);
    assert_eq!(command_frame(Cmd::Write, 1, &[7; 13]).len(), 16);
}

#[test]
fn reply_data_skips_header() {
    assert_eq!(reply_data(&[9, 9, 9, 0x11, 0x22], 2), Some(vec![0x11, 0x22]));
    assert_eq!(reply_data(&[9, 9, 9, 0x11], 2), None);
    assert_eq!(reply_data(&[9, 9], 0), None);
    assert_eq!(reply_data(&[9, 9, 9], 0), Some(vec![]));
}

#[test]
fn ident_is_big_endian() {
    assert_eq!(read_ident(&[0x1d, 0xe0, 0xaa, 0x55]), 0x1de0_aa55);
    assert!(valid_ident(&protocol_map(), &[0x1d, 0xe0, 0xaa, 0x55]));
    assert!(!valid_ident(&protocol_map(), &[0x55, 0xaa, 0xe0, 0x1d]));
    assert!(!valid_ident(&protocol_map(), &[0, 0, 0, 0]));
}

#[test]
fn clock_config_stops_at_first_refusal() {
    assert_eq!(clock_config_step(0, 3, true), ClockStep::Write(0));
    assert_eq!(clock_config_step(2, 3, true), ClockStep::Write(2));
    assert_eq!(clock_config_step(3, 3, true), ClockStep::Finish(Ok(())));
    assert_eq!(clock_config_step(1, 3, false), ClockStep::Finish(Err(SeqError::ClockConfigFailed)));
    assert_eq!(clock_config_step(0, 0, true), ClockStep::Finish(Ok(())));
}

#[test]
fn hf_error_codes() {
    assert_eq!(u32::from(HfError::WriteEnableFailed), 1);
    assert_eq!(u16::from(HfError::HashNotConfigured), 6);
    assert_eq!(u32::from(HfError::MuxFailed), 3);
    assert_eq!(HfError::try_from(4u32), Ok(HfError::HashBadRange));
    assert_eq!(HfError::try_from(2u32), Ok(HfError::ServerRestarted));
    assert_eq!(HfError::try_from(0u32), Err(()));
    assert_eq!(HfError::try_from(7u32), Err(()));
    for code in 1u32..=6 {
        assert_eq!(HfError::try_from(code).map(u32::from), Ok(code));
    }
}

#[test]
fn mux_codes() {
    assert_eq!(HfMuxState::SP.code(), 1);
    assert_eq!(HfMuxState::HostCPU.code(), 2);
    assert_eq!(HfMuxState::from_code(2), Some(HfMuxState::HostCPU));
    assert_eq!(HfMuxState::from_code(0), None);
}
