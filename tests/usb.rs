use zx_dram::usb::{
    ahb_fixup, in_transfer_done, out_endpoint_disabled, out_endpoint_event, out_transfer_done,
    rx_fifo_ready, soft_reset_fixup, RxWatchdog,
};
use zx_dram::{RegWrite, Usb};

fn rw(addr: usize, value: usize) -> RegWrite {
    RegWrite { addr, value }
}

#[test]
fn new_device_has_nothing_buffered() {
    let mut usb = Usb::new();
    assert_eq!(usb.take_byte(), None);
    assert_eq!(usb.ep_mps(), 0);
}

#[test]
fn configuration_fixups() {
    assert_eq!(ahb_fixup(0x27), Some(rw(0x01500008, 0x07)));
    assert_eq!(ahb_fixup(0x07), None);
    assert_eq!(soft_reset_fixup(0x100), Some(rw(0x01500804, 0x500)));
    assert_eq!(soft_reset_fixup(0x401), Some(rw(0x01500804, 0x501)));
    assert_eq!(soft_reset_fixup(0x2), None);
}

#[test]
fn configure_high_speed_endpoints() {
    let mut usb = Usb::new();
    let writes = usb.configure_endpoints(0);
    assert_eq!(usb.ep_mps(), 512);
    assert_eq!(
        writes,
        vec![
            rw(0x01500b30, 0x80200),
            rw(0x01500b20, 0x84088200),
            rw(0x01500920, 0x04488200),
        ]
    );
}

#[test]
fn configure_full_speed_endpoints() {
    let mut usb = Usb::new();
    let writes = usb.configure_endpoints(0x2);
    assert_eq!(usb.ep_mps(), 64);
    assert_eq!(
        writes,
        vec![
            rw(0x01500b30, 0x80040),
            rw(0x01500b20, 0x84088040),
            rw(0x01500920, 0x04488040),
        ]
    );
}

#[test]
fn status_flags() {
    assert!(rx_fifo_ready(0x10));
    assert!(!rx_fifo_ready(0x80000));
    assert!(out_endpoint_event(0x80000));
    assert!(!out_endpoint_event(0x10));
    assert!(out_endpoint_disabled(0x7fff_ffff));
    assert!(!out_endpoint_disabled(0x8000_0000));
    assert!(in_transfer_done(1));
    assert!(!in_transfer_done(2));
}

#[test]
fn watchdog_fires_after_the_poll_limit() {
    let mut dog = RxWatchdog::new();
    for _ in 0..1_000_000 {
        assert!(!dog.tick());
    }
    assert!(dog.tick());
    assert!(!dog.tick());
}

#[test]
fn received_packet_bytes_come_out_in_order() {
    let mut usb = Usb::new();
    let status = (2 << 17) | (5 << 4);
    assert_eq!(Usb::packet_bytes(status), Some(5));
    usb.accept_packet(status, &[0x44332211, 0x55]);
    for expected in [0x11, 0x22, 0x33, 0x44, 0x55] {
        assert_eq!(usb.take_byte(), Some(expected));
    }
    assert_eq!(usb.take_byte(), None);
}

#[test]
fn setup_packets_are_data_too() {
    let mut usb = Usb::new();
    let status = (6 << 17) | (1 << 4);
    usb.accept_packet(status, &[0xab]);
    assert_eq!(usb.take_byte(), Some(0xab));
}

#[test]
fn non_data_status_keeps_the_buffer() {
    let mut usb = Usb::new();
    usb.accept_packet((2 << 17) | (2 << 4), &[0x0201]);
    assert_eq!(Usb::packet_bytes((3 << 17) | (4 << 4)), None);
    assert_eq!(Usb::packet_bytes(2 << 17), None);
    usb.accept_packet((3 << 17) | (4 << 4), &[]);
    assert_eq!(usb.take_byte(), Some(1));
    assert_eq!(usb.take_byte(), Some(2));
    assert_eq!(usb.take_byte(), None);
}

#[test]
fn oversized_packet_is_cut_at_buffer_capacity() {
    let mut usb = Usb::new();
    let status = (2 << 17) | (0x7ff << 4);
    assert_eq!(Usb::packet_bytes(status), Some(0x7ff));
    let words: Vec<usize> = (0..0x200).map(|i| i & 0xff).collect();
    usb.accept_packet(status, &words);
    let mut n = 0;
    while let Some(b) = usb.take_byte() {
        if n % 4 == 0 {
            assert_eq!(b as usize, (n / 4) & 0xff);
        } else {
            assert_eq!(b, 0);
        }
        n += 1;
    }
    assert_eq!(n, 512);
}

#[test]
fn endpoint_writes() {
    let mut usb = Usb::new();
    usb.configure_endpoints(0);
    assert_eq!(usb.rearm_out(), vec![rw(0x01500b30, 0x80200), rw(0x01500b20, 0x84088200)]);
    assert_eq!(
        usb.transmit(0x5a),
        vec![rw(0x01500930, 0x80001), rw(0x01500920, 0x84088200), rw(0x01502000, 0x5a)]
    );
}

#[test]
fn out_transfer_completion_flags() {
    assert!(out_transfer_done(1));
    assert!(out_transfer_done(8));
    assert!(!out_transfer_done(6));
}
