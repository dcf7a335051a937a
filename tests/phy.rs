use zx_dram::{BusOp, DramPhy, DramSize, Driver, RegWrite};

fn st(addr: usize, value: usize) -> BusOp {
    BusOp::Write(RegWrite { addr, value })
}

fn static_tail() -> Vec<BusOp> {
    vec![
        st(0x154004, 0x7),
        st(0x15402c, 0x80),
        st(0x154030, 0x4),
        st(0x1543b0, 0x10),
        st(0x1543b4, 0x1a),
        st(0x1543b8, 0x22),
        st(0x154044, 0x08),
        st(0x154058, 0x08),
        st(0x154064, 0x08),
        st(0x154068, 0x08),
        st(0x154080, 0x08),
        st(0x154084, 0x04),
        st(0x1540b8, 0x88),
        st(0x1540bc, 0x84),
        st(0x1540c0, 0x88),
        st(0x1540c4, 0x84),
        st(0x1540f8, 0x08),
        st(0x1540fc, 0x04),
        st(0x154100, 0x08),
        st(0x154104, 0x04),
        st(0x154138, 0x88),
        st(0x15413c, 0x84),
        st(0x154140, 0x88),
        st(0x154144, 0x84),
        st(0x154178, 0x08),
        st(0x15417c, 0x24),
    ]
}

#[test]
fn phy_static_config_16bit_bus() {
    let mut expected = vec![st(0x154000, 0x3f)];
    expected.extend(static_tail());
    assert_eq!(DramPhy::new(DramSize::Dram32M).init(), expected);
}

#[test]
fn phy_static_config_32bit_bus() {
    for size in [DramSize::Dram64M, DramSize::Dram128M, DramSize::Dram256M, DramSize::Dram512M] {
        assert_eq!(DramPhy::new(size).init(), static_tail());
    }
}

#[test]
fn phy_training_handshake() {
    let d = BusOp::Delay(200000);
    assert_eq!(
        DramPhy::handshake(),
        vec![
            d,
            BusOp::DramReset(0x0affffc0),
            d,
            st(0x150320, 0),
            d,
            st(0x1543b4, 0x18),
            d,
            st(0x15417c, 0x04),
            d,
            st(0x1501b0, 1),
            d,
            st(0x1501b0, 0),
        ]
    );
}

#[test]
fn phy_training_pulse_and_ports() {
    let d = BusOp::Delay(200000);
    assert_eq!(DramPhy::training_pulse(), vec![st(0x154008, 1), d, st(0x154008, 0), d]);
    assert_eq!(
        DramPhy::enable_ports(),
        vec![st(0x150490, 1), st(0x150540, 1), st(0x1505f0, 1), st(0x1506a0, 1)]
    );
}

#[test]
fn phy_result_registers_follow_bus_width() {
    let phy = DramPhy::new(DramSize::Dram32M);
    assert_eq!(phy.result_registers(), vec![0x1543ec, 0x1543f0]);
    assert_eq!(phy.lanes(), 2);
    assert_eq!(phy.train().lane_count(), 2);
    let phy = DramPhy::new(DramSize::Dram256M);
    assert_eq!(phy.result_registers(), vec![0x1543ec, 0x1543f0, 0x1543f4, 0x1543f8]);
    assert_eq!(phy.train().lane_count(), 4);
}
