use gimlet_seq::loader::{BitstreamLoader, LoadReport, LoadStage, LoadWork, MAX_ATTEMPTS};
use gimlet_seq::power::PowerState;
use gimlet_seq::rails::{RailPins, RailReport, RailSequencer, RailWork, FINAL_SETTLE_MS};
use gimlet_seq::seq_spi::RegisterMap;
use gimlet_seq::startup::{StartReport, StartStage, StartWork, Startup};

const PINS: RailPins = RailPins {
    enable_v1p2: 1 << 15,
    enable_v3p3: 1 << 4,
    pg_v1p2: 1 << 7,
    pg_v3p3: 1 << 6,
};

fn startup_map() -> RegisterMap {
    RegisterMap {
        ident: 0x0000,
        pwrctrl: 0x0010,
        a1smstatus: 0x0020,
        a0smstatus: 0x0030,
        early_power_ctrl: 0x0040,
        a1pwren: 0x01,
        a0a_en: 0x02,
        a0c_dis: 0x04,
        fanpwren: 0x08,
        expected_ident: 0x1de0_aa55,
    }
}

const GOOD_IDENT: [u8; 4] = [0x1d, 0xe0, 0xaa, 0x55];
const BAD_IDENT: [u8; 4] = [0xff, 0xff, 0xff, 0xff];

/// Runs the rail bring-up within startup; returns the reads of the
/// power-good inputs in the order they were reported.
fn bring_up_rails(start: &mut Startup) -> Vec<u16> {
    let mut reads = Vec::new();
    let mut w = start.advance(StartReport::Rail(RailReport::Done));
    assert_eq!(w, StartWork::Rail(RailWork::Enable(PINS.enable_v1p2)));
    w = start.advance(StartReport::Rail(RailReport::Done));
    assert_eq!(w, StartWork::Rail(RailWork::ReadPowerGood { delay_ms: 2 }));
    for pg in [0u16, PINS.pg_v3p3, PINS.pg_v1p2] {
        reads.push(pg);
        w = start.advance(StartReport::Rail(RailReport::PowerGood(pg)));
    }
    assert_eq!(w, StartWork::Rail(RailWork::Enable(PINS.enable_v3p3)));
    w = start.advance(StartReport::Rail(RailReport::Done));
    assert_eq!(w, StartWork::Rail(RailWork::ReadPowerGood { delay_ms: 2 }));
    for pg in [PINS.pg_v1p2, PINS.pg_v1p2 | PINS.pg_v3p3] {
        reads.push(pg);
        w = start.advance(StartReport::Rail(RailReport::PowerGood(pg)));
    }
    assert_eq!(w, StartWork::Rail(RailWork::Sleep(FINAL_SETTLE_MS)));
    assert_eq!(start.advance(StartReport::Rail(RailReport::Done)), StartWork::PrepareDesignLink);
    reads
}

#[test]
fn rails_come_up_in_order() {
    let mut rails = RailSequencer::new(PINS);
    assert_eq!(rails.start(), RailWork::ConfigurePins);
    assert_eq!(rails.advance(RailReport::Done), RailWork::Enable(PINS.enable_v1p2));
    assert_eq!(rails.advance(RailReport::Done), RailWork::ReadPowerGood { delay_ms: 2 });
    // The 3.3 V good signal alone does not move on to the 3.3 V rail.
    assert_eq!(
        rails.advance(RailReport::PowerGood(PINS.pg_v3p3)),
        RailWork::ReadPowerGood { delay_ms: 2 }
    );
    assert_eq!(
        rails.advance(RailReport::PowerGood(PINS.pg_v1p2)),
        RailWork::Enable(PINS.enable_v3p3)
    );
    assert_eq!(rails.advance(RailReport::Done), RailWork::ReadPowerGood { delay_ms: 2 });
    assert_eq!(
        rails.advance(RailReport::PowerGood(PINS.pg_v1p2)),
        RailWork::ReadPowerGood { delay_ms: 2 }
    );
    assert_eq!(rails.advance(RailReport::PowerGood(PINS.pg_v3p3)), RailWork::Sleep(11));
    assert_eq!(rails.advance(RailReport::Done), RailWork::Finished);
}

#[test]
fn failed_probe_one_reprogram_then_quiescent() {
    let (mut start, first) = Startup::new(PINS, startup_map(), 5);
    assert_eq!(first, StartWork::Rail(RailWork::ConfigurePins));
    let reads = bring_up_rails(&mut start);
    let first_v3p3_good = reads.iter().position(|pg| pg & PINS.pg_v3p3 != 0 && pg & PINS.pg_v1p2 != 0);
    let first_v1p2_good = reads.iter().position(|pg| pg & PINS.pg_v1p2 != 0);
    assert!(first_v1p2_good < first_v3p3_good);
    assert_eq!(start.advance(StartReport::Done), StartWork::ProbeIdent);
    assert_eq!(start.advance(StartReport::Ident(BAD_IDENT.to_vec())), StartWork::HoldDesignReset);
    assert_eq!(start.advance(StartReport::Done), StartWork::Load(LoadWork::Begin));
    let ok = StartReport::Load(LoadReport::Succeeded);
    assert_eq!(start.advance(ok.clone()), StartWork::Load(LoadWork::Decompress));
    let step = |produced, input_left, idle| {
        StartReport::Load(LoadReport::Decompressed { produced, input_left, idle })
    };
    assert_eq!(start.advance(step(256, 2, false)), StartWork::Load(LoadWork::Send));
    assert_eq!(start.advance(ok.clone()), StartWork::Load(LoadWork::Decompress));
    assert_eq!(start.advance(step(256, 0, false)), StartWork::Load(LoadWork::Send));
    assert_eq!(start.advance(ok.clone()), StartWork::Load(LoadWork::Decompress));
    assert_eq!(start.advance(step(40, 0, true)), StartWork::Load(LoadWork::Send));
    assert_eq!(start.advance(ok.clone()), StartWork::Load(LoadWork::Finish));
    assert_eq!(start.advance(ok), StartWork::ReleaseDesignReset);
    assert_eq!(start.advance(StartReport::Done), StartWork::CoresOff);
    assert_eq!(start.advance(StartReport::Done), StartWork::ReadPowerCtrl { delay_ms: 0 });
    assert_eq!(start.advance(StartReport::PowerCtrl(0x3)), StartWork::ReadPowerCtrl { delay_ms: 1 });
    assert_eq!(start.advance(StartReport::PowerCtrl(0)), StartWork::Serve);
    assert_eq!(start.stage(), StartStage::Serving);
    let seq = start.sequencer();
    assert_eq!(seq.get_state(), PowerState::A2);
    assert!(seq.is_idle());
}

#[test]
fn valid_ident_skips_loader() {
    let (mut start, _) = Startup::new(PINS, startup_map(), 5);
    bring_up_rails(&mut start);
    assert_eq!(start.advance(StartReport::Done), StartWork::ProbeIdent);
    assert_eq!(start.advance(StartReport::Ident(GOOD_IDENT.to_vec())), StartWork::CoresOff);
    assert_eq!(start.advance(StartReport::Done), StartWork::ReadPowerCtrl { delay_ms: 0 });
    assert_eq!(start.advance(StartReport::PowerCtrl(0)), StartWork::Serve);
}

#[test]
fn three_failed_attempts_are_fatal() {
    let (mut start, _) = Startup::new(PINS, startup_map(), 5);
    bring_up_rails(&mut start);
    start.advance(StartReport::Done);
    start.advance(StartReport::Ident(BAD_IDENT.to_vec()));
    assert_eq!(start.advance(StartReport::Done), StartWork::Load(LoadWork::Begin));
    let failed = StartReport::Load(LoadReport::Failed);
    let released = StartReport::Load(LoadReport::Failed);
    assert_eq!(start.advance(failed.clone()), StartWork::Load(LoadWork::Release));
    assert_eq!(start.advance(released.clone()), StartWork::Load(LoadWork::Begin));
    assert_eq!(start.advance(StartReport::Load(LoadReport::Succeeded)), StartWork::Load(LoadWork::Decompress));
    assert_eq!(
        start.advance(StartReport::Load(LoadReport::Decompressed { produced: 256, input_left: 0, idle: true })),
        StartWork::Load(LoadWork::Send)
    );
    assert_eq!(start.advance(failed.clone()), StartWork::Load(LoadWork::Release));
    assert_eq!(start.advance(StartReport::Load(LoadReport::Succeeded)), StartWork::Load(LoadWork::Begin));
    assert_eq!(start.advance(StartReport::Load(LoadReport::Succeeded)), StartWork::Load(LoadWork::Decompress));
    assert_eq!(
        start.advance(StartReport::Load(LoadReport::Decompressed { produced: 256, input_left: 0, idle: true })),
        StartWork::Load(LoadWork::Send)
    );
    assert_eq!(start.advance(StartReport::Load(LoadReport::Succeeded)), StartWork::Load(LoadWork::Finish));
    assert_eq!(start.advance(failed), StartWork::Load(LoadWork::Release));
    assert_eq!(start.advance(released), StartWork::Fatal { attempts: 3 });
    assert_eq!(start.stage(), StartStage::Fatal);
}

#[test]
fn each_retry_follows_a_release() {
    let mut loader = BitstreamLoader::new(10);
    let mut works = vec![loader.start()];
    for _ in 0..MAX_ATTEMPTS {
        works.push(loader.advance(LoadReport::Failed));
        works.push(loader.advance(LoadReport::Succeeded));
    }
    assert_eq!(
        works,
        vec![
            LoadWork::Begin,
            LoadWork::Release,
            LoadWork::Begin,
            LoadWork::Release,
            LoadWork::Begin,
            LoadWork::Release,
            LoadWork::Fatal { attempts: MAX_ATTEMPTS },
        ]
    );
    assert_eq!(loader.stage(), LoadStage::Fatal);
}

#[test]
fn truncated_image_fails_the_attempt() {
    let mut loader = BitstreamLoader::new(3);
    loader.start();
    assert_eq!(loader.advance(LoadReport::Succeeded), LoadWork::Decompress);
    // The last byte starts a run whose length never arrives.
    assert_eq!(
        loader.advance(LoadReport::Decompressed { produced: 2, input_left: 0, idle: false }),
        LoadWork::Send
    );
    assert_eq!(loader.advance(LoadReport::Succeeded), LoadWork::Decompress);
    assert_eq!(
        loader.advance(LoadReport::Decompressed { produced: 0, input_left: 0, idle: false }),
        LoadWork::Release
    );
    assert_eq!(loader.advance(LoadReport::Succeeded), LoadWork::Begin);
}

#[test]
fn buffered_run_is_flushed_before_finishing() {
    let mut loader = BitstreamLoader::new(3);
    loader.start();
    assert_eq!(loader.advance(LoadReport::Succeeded), LoadWork::Decompress);
    assert_eq!(
        loader.advance(LoadReport::Decompressed { produced: 256, input_left: 0, idle: false }),
        LoadWork::Send
    );
    // Input is used up, but the decompressor still holds part of a run.
    assert_eq!(loader.advance(LoadReport::Succeeded), LoadWork::Decompress);
    assert_eq!(
        loader.advance(LoadReport::Decompressed { produced: 44, input_left: 0, idle: true }),
        LoadWork::Send
    );
    assert_eq!(loader.advance(LoadReport::Succeeded), LoadWork::Finish);
    assert_eq!(loader.advance(LoadReport::Succeeded), LoadWork::Loaded);
    assert_eq!(loader.stage(), LoadStage::Loaded);
}

#[test]
fn empty_image_goes_straight_to_finish() {
    let mut loader = BitstreamLoader::new(0);
    assert_eq!(loader.start(), LoadWork::Begin);
    assert_eq!(loader.advance(LoadReport::Succeeded), LoadWork::Finish);
}
