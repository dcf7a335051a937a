use zx_dram::{BusOp, DdrTopClk, DramClk, DramControl, DramSize, Driver};

fn writes(ops: &[BusOp]) -> Vec<(usize, usize)> {
    ops.iter()
        .map(|op| match op {
            BusOp::Write(w) => (w.addr, w.value),
            other => panic!("controller program holds a non-write step: {:?}", other),
        })
        .collect()
}

fn program(size: DramSize) -> Vec<(usize, usize)> {
    writes(&DramControl::new(size).init())
}

fn find(trace: &[(usize, usize)], addr: usize) -> usize {
    trace.iter().find(|(a, _)| *a == addr).map(|(_, v)| *v).expect("register is programmed")
}

#[test]
fn controller_golden_trace_32m() {
    assert_eq!(program(DramSize::Dram32M), golden_dram_32m());
}

#[test]
fn controller_golden_trace_64m() {
    assert_eq!(program(DramSize::Dram64M), golden_dram_64m());
}

#[test]
fn controller_golden_trace_128m() {
    assert_eq!(program(DramSize::Dram128M), golden_dram_128m());
}

#[test]
fn controller_golden_trace_256m() {
    assert_eq!(program(DramSize::Dram256M), golden_dram_256m());
}

#[test]
fn controller_golden_trace_512m() {
    assert_eq!(program(DramSize::Dram512M), golden_dram_512m());
}

#[test]
fn controller_program_is_deterministic() {
    for size in [
        DramSize::Dram32M,
        DramSize::Dram64M,
        DramSize::Dram128M,
        DramSize::Dram256M,
        DramSize::Dram512M,
    ] {
        assert_eq!(program(size), program(size));
        assert_eq!(program(size).len(), 84);
    }
}

#[test]
fn master_and_bank_map_of_32m() {
    assert_eq!(DramClk::new(DramSize::Dram32M).parent(), DdrTopClk::Clk200m);
    let trace = program(DramSize::Dram32M);
    // LPDDR2 | 16BIT | BURST_RDWR | ACTIVE_RANKS
    assert_eq!(trace[0], (0x150000, (1 << 2) | (2 << 11) | (4 << 16) | (1 << 24)));
    assert_eq!(find(&trace, 0x150204), 6 | (6 << 8) | (0x1f << 16));
}

#[test]
fn refresh_and_bank_map_of_512m() {
    let trace = program(DramSize::Dram512M);
    assert_eq!(find(&trace, 0x150064), 0x14 | (0x13 << 16));
    assert_eq!(find(&trace, 0x150204), 8 | (8 << 8) | (8 << 16));
}

#[test]
fn master_register_omits_16bit_flag_on_wide_bus() {
    for size in [DramSize::Dram64M, DramSize::Dram128M, DramSize::Dram256M, DramSize::Dram512M] {
        assert_eq!(program(size)[0], (0x150000, 0x1040004));
    }
}

#[test]
fn refresh_timing_of_small_wide_classes() {
    assert_eq!(find(&program(DramSize::Dram64M), 0x150064), 0x260014);
    assert_eq!(find(&program(DramSize::Dram128M), 0x150064), 0x260014);
    assert_eq!(find(&program(DramSize::Dram256M), 0x150064), 0x130014);
    assert_eq!(find(&program(DramSize::Dram32M), 0x150064), 0x30001a);
}

#[test]
fn row_bit_13_distinguishes_128m_from_256m() {
    assert_eq!(find(&program(DramSize::Dram128M), 0x150218), 0x0f0f0f06);
    assert_eq!(find(&program(DramSize::Dram256M), 0x150218), 0x0f0f0606);
}

fn golden_dram_32m() -> Vec<(usize, usize)> {
    vec![
        (0x150000, 0x1041004),
        (0x150010, 0x30),
        (0x150014, 0x0),
        (0x150020, 0x0),
        (0x150024, 0x800000),
        (0x150030, 0x0),
        (0x150034, 0x52002),
        (0x150038, 0x40003),
        (0x150050, 0x210000),
        (0x150054, 0x0),
        (0x150058, 0x0),
        (0x150060, 0x0),
        (0x150064, 0x30001a),
        (0x1500d0, 0x280001),
        (0x1500d4, 0x0),
        (0x1500d8, 0x605),
        (0x1500dc, 0x830006),
        (0x1500e0, 0x40000),
        (0x1500e4, 0x70002),
        (0x1500f4, 0x66f),
        (0x150100, 0x70a0d08),
        (0x150104, 0x2020d),
        (0x150108, 0x2040607),
        (0x15010c, 0x500100),
        (0x150110, 0x4010205),
        (0x150114, 0x1010303),
        (0x150118, 0x2020003),
        (0x15011c, 0x202),
        (0x150138, 0x1c),
        (0x150180, 0x40480012),
        (0x150184, 0xa00100),
        (0x150188, 0x0),
        (0x150190, 0x4030001),
        (0x150194, 0x20404),
        (0x150198, 0x9001111),
        (0x1501a0, 0x80400003),
        (0x1501a4, 0x0),
        (0x1501a8, 0x80100010),
        (0x1501b0, 0x0),
        (0x150200, 0x1f),
        (0x150204, 0x1f0606),
        (0x150208, 0x0),
        (0x15020c, 0xf0f0000),
        (0x150210, 0xf0f),
        (0x150214, 0x4040404),
        (0x150218, 0xf0f0f04),
        (0x150240, 0x4000400),
        (0x150244, 0x0),
        (0x150250, 0x1805),
        (0x150254, 0x0),
        (0x150400, 0x0),
        (0x150300, 0x0),
        (0x150304, 0x0),
        (0x15030c, 0x0),
        (0x150400, 0x0),
        (0x150404, 0x13ff),
        (0x1504b4, 0x1020),
        (0x150564, 0x1000),
        (0x150614, 0x1004),
        (0x150408, 0x13ff),
        (0x1504b8, 0x10ff),
        (0x150568, 0x103f),
        (0x150618, 0x105f),
        (0x150494, 0x20000e),
        (0x150544, 0x20000e),
        (0x1505f4, 0x20000e),
        (0x1506a4, 0x20000e),
        (0x15049c, 0x0),
        (0x15054c, 0x0),
        (0x1505fc, 0x0),
        (0x1506ac, 0x0),
        (0x150498, 0x0),
        (0x150548, 0x0),
        (0x1505f8, 0x0),
        (0x1506a8, 0x0),
        (0x1504a0, 0x0),
        (0x150550, 0x0),
        (0x150600, 0x0),
        (0x1506b0, 0x0),
        (0x15025c, 0xf000001),
        (0x150264, 0xf00007f),
        (0x15026c, 0xf00007f),
        (0x150274, 0x0),
        (0x150278, 0x0),
    ]
}

fn golden_dram_64m() -> Vec<(usize, usize)> {
    vec![
        (0x150000, 0x1040004),
        (0x150010, 0x30),
        (0x150014, 0x0),
        (0x150020, 0x0),
        (0x150024, 0x800000),
        (0x150030, 0x0),
        (0x150034, 0x52002),
        (0x150038, 0x40003),
        (0x150050, 0x210000),
        (0x150054, 0x0),
        (0x150058, 0x0),
        (0x150060, 0x0),
        (0x150064, 0x260014),
        (0x1500d0, 0x1f0001),
        (0x1500d4, 0x0),
        (0x1500d8, 0x405),
        (0x1500dc, 0x630006),
        (0x1500e0, 0x40000),
        (0x1500e4, 0x50002),
        (0x1500f4, 0x66f),
        (0x150100, 0x6080a07),
        (0x150104, 0x2020a),
        (0x150108, 0x2040606),
        (0x15010c, 0x500100),
        (0x150110, 0x3010204),
        (0x150114, 0x1010303),
        (0x150118, 0x2020003),
        (0x15011c, 0x202),
        (0x150138, 0x16),
        (0x150180, 0x4039000f),
        (0x150184, 0x800100),
        (0x150188, 0x0),
        (0x150190, 0x4030001),
        (0x150194, 0x20404),
        (0x150198, 0x9001111),
        (0x1501a0, 0x80400003),
        (0x1501a4, 0x0),
        (0x1501a8, 0x80100010),
        (0x1501b0, 0x0),
        (0x150200, 0x1f),
        (0x150204, 0x1f0707),
        (0x150208, 0x0),
        (0x15020c, 0xf000000),
        (0x150210, 0xf0f),
        (0x150214, 0x5050505),
        (0x150218, 0xf0f0f05),
        (0x150240, 0x4000400),
        (0x150244, 0x0),
        (0x150250, 0x1805),
        (0x150254, 0x0),
        (0x150400, 0x0),
        (0x150300, 0x0),
        (0x150304, 0x0),
        (0x15030c, 0x0),
        (0x150400, 0x0),
        (0x150404, 0x13ff),
        (0x1504b4, 0x1020),
        (0x150564, 0x1000),
        (0x150614, 0x1004),
        (0x150408, 0x13ff),
        (0x1504b8, 0x10ff),
        (0x150568, 0x103f),
        (0x150618, 0x105f),
        (0x150494, 0x20000e),
        (0x150544, 0x20000e),
        (0x1505f4, 0x20000e),
        (0x1506a4, 0x20000e),
        (0x15049c, 0x0),
        (0x15054c, 0x0),
        (0x1505fc, 0x0),
        (0x1506ac, 0x0),
        (0x150498, 0x0),
        (0x150548, 0x0),
        (0x1505f8, 0x0),
        (0x1506a8, 0x0),
        (0x1504a0, 0x0),
        (0x150550, 0x0),
        (0x150600, 0x0),
        (0x1506b0, 0x0),
        (0x15025c, 0xf000001),
        (0x150264, 0xf00007f),
        (0x15026c, 0xf00007f),
        (0x150274, 0x0),
        (0x150278, 0x0),
    ]
}

fn golden_dram_128m() -> Vec<(usize, usize)> {
    vec![
        (0x150000, 0x1040004),
        (0x150010, 0x30),
        (0x150014, 0x0),
        (0x150020, 0x0),
        (0x150024, 0x800000),
        (0x150030, 0x0),
        (0x150034, 0x52002),
        (0x150038, 0x40003),
        (0x150050, 0x210000),
        (0x150054, 0x0),
        (0x150058, 0x0),
        (0x150060, 0x0),
        (0x150064, 0x260014),
        (0x1500d0, 0x1f0001),
        (0x1500d4, 0x0),
        (0x1500d8, 0x405),
        (0x1500dc, 0x630006),
        (0x1500e0, 0x40000),
        (0x1500e4, 0x50002),
        (0x1500f4, 0x66f),
        (0x150100, 0x6080a07),
        (0x150104, 0x2020a),
        (0x150108, 0x2040606),
        (0x15010c, 0x500100),
        (0x150110, 0x3010204),
        (0x150114, 0x1010303),
        (0x150118, 0x2020003),
        (0x15011c, 0x202),
        (0x150138, 0x16),
        (0x150180, 0x4039000f),
        (0x150184, 0x800100),
        (0x150188, 0x0),
        (0x150190, 0x4030001),
        (0x150194, 0x20404),
        (0x150198, 0x9001111),
        (0x1501a0, 0x80400003),
        (0x1501a4, 0x0),
        (0x1501a8, 0x80100010),
        (0x1501b0, 0x0),
        (0x150200, 0x1f),
        (0x150204, 0x70707),
        (0x150208, 0x0),
        (0x15020c, 0xf000000),
        (0x150210, 0xf0f),
        (0x150214, 0x6060606),
        (0x150218, 0xf0f0f06),
        (0x150240, 0x4000400),
        (0x150244, 0x0),
        (0x150250, 0x1805),
        (0x150254, 0x0),
        (0x150400, 0x0),
        (0x150300, 0x0),
        (0x150304, 0x0),
        (0x15030c, 0x0),
        (0x150400, 0x0),
        (0x150404, 0x13ff),
        (0x1504b4, 0x1020),
        (0x150564, 0x1000),
        (0x150614, 0x1004),
        (0x150408, 0x13ff),
        (0x1504b8, 0x10ff),
        (0x150568, 0x103f),
        (0x150618, 0x105f),
        (0x150494, 0x20000e),
        (0x150544, 0x20000e),
        (0x1505f4, 0x20000e),
        (0x1506a4, 0x20000e),
        (0x15049c, 0x0),
        (0x15054c, 0x0),
        (0x1505fc, 0x0),
        (0x1506ac, 0x0),
        (0x150498, 0x0),
        (0x150548, 0x0),
        (0x1505f8, 0x0),
        (0x1506a8, 0x0),
        (0x1504a0, 0x0),
        (0x150550, 0x0),
        (0x150600, 0x0),
        (0x1506b0, 0x0),
        (0x15025c, 0xf000001),
        (0x150264, 0xf00007f),
        (0x15026c, 0xf00007f),
        (0x150274, 0x0),
        (0x150278, 0x0),
    ]
}

fn golden_dram_256m() -> Vec<(usize, usize)> {
    vec![
        (0x150000, 0x1040004),
        (0x150010, 0x30),
        (0x150014, 0x0),
        (0x150020, 0x0),
        (0x150024, 0x800000),
        (0x150030, 0x0),
        (0x150034, 0x52002),
        (0x150038, 0x40003),
        (0x150050, 0x210000),
        (0x150054, 0x0),
        (0x150058, 0x0),
        (0x150060, 0x0),
        (0x150064, 0x130014),
        (0x1500d0, 0x1f0001),
        (0x1500d4, 0x0),
        (0x1500d8, 0x405),
        (0x1500dc, 0x630006),
        (0x1500e0, 0x40000),
        (0x1500e4, 0x50002),
        (0x1500f4, 0x66f),
        (0x150100, 0x6080a07),
        (0x150104, 0x2020a),
        (0x150108, 0x2040606),
        (0x15010c, 0x500100),
        (0x150110, 0x3010204),
        (0x150114, 0x1010303),
        (0x150118, 0x2020003),
        (0x15011c, 0x202),
        (0x150138, 0x16),
        (0x150180, 0x4039000f),
        (0x150184, 0x800100),
        (0x150188, 0x0),
        (0x150190, 0x4030001),
        (0x150194, 0x20404),
        (0x150198, 0x9001111),
        (0x1501a0, 0x80400003),
        (0x1501a4, 0x0),
        (0x1501a8, 0x80100010),
        (0x1501b0, 0x0),
        (0x150200, 0x1f),
        (0x150204, 0x70707),
        (0x150208, 0x0),
        (0x15020c, 0xf000000),
        (0x150210, 0xf0f),
        (0x150214, 0x6060606),
        (0x150218, 0xf0f0606),
        (0x150240, 0x4000400),
        (0x150244, 0x0),
        (0x150250, 0x1805),
        (0x150254, 0x0),
        (0x150400, 0x0),
        (0x150300, 0x0),
        (0x150304, 0x0),
        (0x15030c, 0x0),
        (0x150400, 0x0),
        (0x150404, 0x13ff),
        (0x1504b4, 0x1020),
        (0x150564, 0x1000),
        (0x150614, 0x1004),
        (0x150408, 0x13ff),
        (0x1504b8, 0x10ff),
        (0x150568, 0x103f),
        (0x150618, 0x105f),
        (0x150494, 0x20000e),
        (0x150544, 0x20000e),
        (0x1505f4, 0x20000e),
        (0x1506a4, 0x20000e),
        (0x15049c, 0x0),
        (0x15054c, 0x0),
        (0x1505fc, 0x0),
        (0x1506ac, 0x0),
        (0x150498, 0x0),
        (0x150548, 0x0),
        (0x1505f8, 0x0),
        (0x1506a8, 0x0),
        (0x1504a0, 0x0),
        (0x150550, 0x0),
        (0x150600, 0x0),
        (0x1506b0, 0x0),
        (0x15025c, 0xf000001),
        (0x150264, 0xf00007f),
        (0x15026c, 0xf00007f),
        (0x150274, 0x0),
        (0x150278, 0x0),
    ]
}

fn golden_dram_512m() -> Vec<(usize, usize)> {
    vec![
        (0x150000, 0x1040004),
        (0x150010, 0x30),
        (0x150014, 0x0),
        (0x150020, 0x0),
        (0x150024, 0x800000),
        (0x150030, 0x0),
        (0x150034, 0x52002),
        (0x150038, 0x40003),
        (0x150050, 0x210000),
        (0x150054, 0x0),
        (0x150058, 0x0),
        (0x150060, 0x0),
        (0x150064, 0x130014),
        (0x1500d0, 0x1f0001),
        (0x1500d4, 0x0),
        (0x1500d8, 0x405),
        (0x1500dc, 0x630006),
        (0x1500e0, 0x40000),
        (0x1500e4, 0x50002),
        (0x1500f4, 0x66f),
        (0x150100, 0x6080a07),
        (0x150104, 0x2020a),
        (0x150108, 0x2040606),
        (0x15010c, 0x500100),
        (0x150110, 0x3010204),
        (0x150114, 0x1010303),
        (0x150118, 0x2020003),
        (0x15011c, 0x202),
        (0x150138, 0x16),
        (0x150180, 0x4039000f),
        (0x150184, 0x800100),
        (0x150188, 0x0),
        (0x150190, 0x4030001),
        (0x150194, 0x20404),
        (0x150198, 0x9001111),
        (0x1501a0, 0x80400003),
        (0x1501a4, 0x0),
        (0x1501a8, 0x80100010),
        (0x1501b0, 0x0),
        (0x150200, 0x1f),
        (0x150204, 0x80808),
        (0x150208, 0x0),
        (0x15020c, 0x0),
        (0x150210, 0xf0f),
        (0x150214, 0x7070707),
        (0x150218, 0xf0f0707),
        (0x150240, 0x4000400),
        (0x150244, 0x0),
        (0x150250, 0x1805),
        (0x150254, 0x0),
        (0x150400, 0x0),
        (0x150300, 0x0),
        (0x150304, 0x0),
        (0x15030c, 0x0),
        (0x150400, 0x0),
        (0x150404, 0x13ff),
        (0x1504b4, 0x1020),
        (0x150564, 0x1000),
        (0x150614, 0x1004),
        (0x150408, 0x13ff),
        (0x1504b8, 0x10ff),
        (0x150568, 0x103f),
        (0x150618, 0x105f),
        (0x150494, 0x20000e),
        (0x150544, 0x20000e),
        (0x1505f4, 0x20000e),
        (0x1506a4, 0x20000e),
        (0x15049c, 0x0),
        (0x15054c, 0x0),
        (0x1505fc, 0x0),
        (0x1506ac, 0x0),
        (0x150498, 0x0),
        (0x150548, 0x0),
        (0x1505f8, 0x0),
        (0x1506a8, 0x0),
        (0x1504a0, 0x0),
        (0x150550, 0x0),
        (0x150600, 0x0),
        (0x1506b0, 0x0),
        (0x15025c, 0xf000001),
        (0x150264, 0xf00007f),
        (0x15026c, 0xf00007f),
        (0x150274, 0x0),
        (0x150278, 0x0),
    ]
}
