use iq_dump::config::{Band, GainType, Stage, TestBand};
use iq_dump::protocol::SessionError;
use iq_dump::sweep::{
    band_from_name, capture_name, iteration_gains, next_phase, parse_band, phase_outcome,
    stage_from_name, sweep_range, ConfigError, Phase, Sweep,
};

#[test]
fn capture_names_encode_band_stage_and_value() {
    assert_eq!(capture_name(Band::HB, Stage::Fem, 1), "HB_iq_1_0_00.txt");
    assert_eq!(capture_name(Band::LB, Stage::Lna, 7), "LB_iq_0_7_00.txt");
    assert_eq!(capture_name(Band::HB, Stage::Vga, 5), "HB_iq_0_0_05.txt");
    assert_eq!(capture_name(Band::HB, Stage::Vga, 31), "HB_iq_0_0_31.txt");
    assert_eq!(capture_name(Band::LB, Stage::Vga, 200), "LB_iq_0_0_200.txt");
    assert_eq!(capture_name(Band::LB, Stage::Fem, 0), "LB_iq_0_0_00.txt");
}

#[test]
fn iteration_holds_other_stages_at_zero() {
    assert_eq!(iteration_gains(Stage::Fem, 3), (3, 0, 0));
    assert_eq!(iteration_gains(Stage::Lna, 3), (0, 3, 0));
    assert_eq!(iteration_gains(Stage::Vga, 3), (0, 0, 3));
}

fn run(test: &TestBand, outcomes: &[Result<(), SessionError>]) -> (Vec<u8>, Sweep) {
    let mut s = Sweep::new(test);
    let mut seen = Vec::new();
    let mut k = 0;
    while let Some(v) = s.current() {
        seen.push(v);
        let o = outcomes[k % outcomes.len()];
        k += 1;
        s.finish(o);
    }
    (seen, s)
}

#[test]
fn sweep_runs_every_value_despite_device_errors() {
    let test = TestBand::HB(GainType::Vga(3..8));
    let outcomes = [
        Err(SessionError::Device),
        Ok(()),
        Err(SessionError::TransferIncomplete),
        Err(SessionError::FileIo),
    ];
    let (seen, s) = run(&test, &outcomes);
    assert_eq!(seen, vec![3, 4, 5, 6, 7]);
    assert_eq!(s.attempted(), 5);
    assert_eq!(s.band(), Band::HB);
    assert_eq!(s.stage(), Stage::Vga);
}

#[test]
fn sweep_stops_on_connection_error() {
    let test = TestBand::LB(GainType::Fem(0..10));
    let mut s = Sweep::new(&test);
    assert_eq!(s.current(), Some(0));
    s.finish(Err(SessionError::Device));
    assert_eq!(s.current(), Some(1));
    s.finish(Err(SessionError::Connection));
    assert_eq!(s.current(), None);
    assert_eq!(s.attempted(), 2);
}

#[test]
fn empty_sweep_runs_nothing() {
    let test = TestBand::LB(GainType::Lna(4..4));
    let (seen, s) = run(&test, &[Ok(())]);
    assert!(seen.is_empty());
    assert_eq!(s.attempted(), 0);
}

#[test]
fn iteration_phases() {
    let mut p = Phase::SetGain;
    p = next_phase(p, Ok(true));
    assert_eq!(p, Phase::Capture);
    p = next_phase(p, Ok(true));
    assert_eq!(p, Phase::Transfer);
    p = next_phase(p, Ok(true));
    assert_eq!(p, Phase::Cleanup);
    p = next_phase(p, Ok(false));
    assert_eq!(p, Phase::Done);
    assert_eq!(phase_outcome(p), Some(Ok(())));
    assert_eq!(next_phase(Phase::Capture, Ok(false)), Phase::Failed(SessionError::Device));
    let failed = next_phase(Phase::Transfer, Err(SessionError::TransferIncomplete));
    assert_eq!(phase_outcome(failed), Some(Err(SessionError::TransferIncomplete)));
    assert_eq!(phase_outcome(Phase::Capture), None);
}

#[test]
fn sweep_range_spans_min_to_max() {
    assert_eq!(sweep_range(&vec![9, 2, 5]), Ok((2, 9)));
    assert_eq!(sweep_range(&vec![]), Err(ConfigError::EmptyRange));
    assert_eq!(sweep_range(&vec![0, 255]), Ok((0, 255)));
    assert_eq!(sweep_range(&vec![254]), Ok((254, 254)));
}

#[test]
fn sweep_up_to_255_includes_255() {
    let (lo, hi) = sweep_range(&vec![255, 3]).unwrap();
    let mut s = Sweep::inclusive(Band::HB, Stage::Fem, lo, hi);
    let mut seen = Vec::new();
    while let Some(v) = s.current() {
        seen.push(v);
        s.finish(Err(SessionError::Device));
    }
    let expected: Vec<u8> = (3..=255).collect();
    assert_eq!(seen, expected);
    assert_eq!(s.attempted(), 253);
}

#[test]
fn full_byte_sweep_runs_256_values() {
    let mut s = Sweep::inclusive(Band::LB, Stage::Vga, 0, 255);
    let mut count = 0u32;
    while let Some(_) = s.current() {
        count += 1;
        s.finish(Ok(()));
    }
    assert_eq!(count, 256);
    assert_eq!(s.attempted(), 256);
}

#[test]
fn band_names_parse_strictly() {
    assert_eq!(parse_band(&"HB".to_string()), Some(Band::HB));
    assert_eq!(parse_band(&"LB".to_string()), Some(Band::LB));
    assert_eq!(parse_band(&"hb".to_string()), None);
    assert_eq!(parse_band(&"".to_string()), None);
}

#[test]
fn names_select_band_and_stage() {
    assert_eq!(band_from_name(&"HB".to_string()), Band::HB);
    assert_eq!(band_from_name(&"LB".to_string()), Band::LB);
    assert_eq!(band_from_name(&"hb".to_string()), Band::LB);
    assert_eq!(stage_from_name(&"Fem".to_string()), Some(Stage::Fem));
    assert_eq!(stage_from_name(&"Lna".to_string()), Some(Stage::Lna));
    assert_eq!(stage_from_name(&"Vga".to_string()), Some(Stage::Vga));
    assert_eq!(stage_from_name(&"vga".to_string()), None);
    let t = TestBand::LB(GainType::Lna(1..4));
    assert_eq!(t.get_band(), Band::LB);
    let r = t.traverse();
    assert_eq!((r.start, r.end), (1, 4));
    assert_eq!(t.get_gain_type().get_stage(), Stage::Lna);
}

#[test]
fn gain_types_report_stage_and_range() {
    let g = GainType::Fem(2..6);
    let r = g.return_iter();
    assert_eq!((r.start, r.end), (2, 6));
    let e = g.return_type();
    assert_eq!(e.get_stage(), Stage::Fem);
    let r = e.return_iter();
    assert_eq!((r.start, r.end), (0, 0));
    let t = TestBand::HB(GainType::Vga(1..3));
    assert_eq!(t.return_gain_type().get_stage(), Stage::Vga);
    assert_eq!(Band::HB.name(), "HB");
    assert_eq!(Band::LB.name(), "LB");
}
