use zx_dram::{BusOp, DdrTopClk, DramClk, DramSize, Driver};

#[test]
fn clock_is_200mhz_only_for_32m() {
    for size in [
        DramSize::Dram32M,
        DramSize::Dram64M,
        DramSize::Dram128M,
        DramSize::Dram256M,
        DramSize::Dram512M,
    ] {
        let parent = DramClk::new(size).parent();
        if size == DramSize::Dram32M {
            assert_eq!(parent, DdrTopClk::Clk200m);
            assert_eq!(parent.mhz(), 200);
        } else {
            assert_eq!(parent, DdrTopClk::Clk156m);
            assert_eq!(parent.mhz(), 156);
        }
    }
}

#[test]
fn clock_init_selects_the_parent() {
    let select_200 = vec![BusOp::SelectClock(DdrTopClk::Clk200m)];
    let select_156 = vec![BusOp::SelectClock(DdrTopClk::Clk156m)];
    assert_eq!(DramClk::new(DramSize::Dram32M).init(), select_200);
    assert_eq!(DramClk::new(DramSize::Dram64M).init(), select_156);
}

#[test]
fn mux_update_keeps_other_bits() {
    assert_eq!(DdrTopClk::Clk200m.apply_to(0xf0), 0xf1);
    assert_eq!(DdrTopClk::Clk156m.apply_to(0xf3), 0xf0);
    assert_eq!(DdrTopClk::Clk78m.apply_to(0), 3);
    assert_eq!(DdrTopClk::Clk104m.selector(), 2);
}
