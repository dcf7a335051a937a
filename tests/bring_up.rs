use zx_dram::{
    BusOp, DdrTopClk, Dram, DramControl, DramPhy, DramSize, Driver, RegWrite, Step,
    TrainingStatus,
};

#[test]
fn setup_runs_every_stage_in_order() {
    let size = DramSize::Dram32M;
    let d = BusOp::Delay(200000);
    let mut expected = vec![BusOp::DramReset(0x0affe000), d, BusOp::DramReset(0x0affe400), d];
    expected.push(BusOp::SelectClock(DdrTopClk::Clk200m));
    expected.extend(DramPhy::new(size).init());
    expected.extend(DramControl::new(size).init());
    expected.extend(DramPhy::handshake());
    assert_eq!(Dram::new(size).setup(), expected);
    assert_eq!(expected.len(), 4 + 1 + 27 + 84 + 12);
}

#[test]
fn bring_up_converges_and_opens_ports() {
    let dram = Dram::new(DramSize::Dram64M);
    let mut seq = dram.init();
    match seq.advance(&[]) {
        Step::Run { ops, sample } => {
            let mut expected = dram.setup();
            expected.extend(DramPhy::training_pulse());
            assert_eq!(ops, expected);
            assert_eq!(sample.len(), 4);
        }
        Step::Done { .. } => panic!("bring-up ended before training"),
    }
    match seq.advance(&[0x40, 0x41, 0x42, 0x43]) {
        Step::Done { ops, outcome } => {
            assert_eq!(outcome, TrainingStatus::Converged);
            assert_eq!(ops, DramPhy::enable_ports());
            assert_eq!(ops[0], BusOp::Write(RegWrite { addr: 0x150490, value: 1 }));
        }
        Step::Run { .. } => panic!("training should have converged"),
    }
    match seq.advance(&[]) {
        Step::Done { ops, outcome } => {
            assert!(ops.is_empty());
            assert_eq!(outcome, TrainingStatus::Converged);
        }
        Step::Run { .. } => panic!("finished bring-up restarted"),
    }
}

#[test]
fn bring_up_reports_exhausted_training() {
    let mut seq = Dram::new(DramSize::Dram32M).init();
    let mut pulses = 0;
    let mut samples: Vec<usize> = Vec::new();
    let outcome = loop {
        match seq.advance(&samples) {
            Step::Run { ops, sample } => {
                assert!(ops.ends_with(&DramPhy::training_pulse()));
                assert_eq!(sample, vec![0x1543ec, 0x1543f0]);
                pulses += 1;
                samples = vec![0x90, 0x90];
            }
            Step::Done { ops, outcome } => {
                assert_eq!(ops, DramPhy::enable_ports());
                break outcome;
            }
        }
    };
    assert_eq!(pulses, 100);
    assert_eq!(outcome, TrainingStatus::Exhausted);
}
