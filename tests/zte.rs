use zx_dram::zte::{be_u32, decode, Action, Command, Mode};
use zx_dram::{CommandParser, RegWrite, Usb, ZteProtocol};

#[test]
fn decode_commands() {
    assert_eq!(decode(0x5a), Command::Sync);
    assert_eq!(decode(0x7a), Command::Download);
    assert_eq!(decode(0x8a), Command::Run);
    assert_eq!(decode(0x00), Command::Unknown(0));
}

#[test]
fn big_endian_words() {
    assert_eq!(be_u32(0x12, 0x34, 0x56, 0x78), 0x12345678);
    assert_eq!(be_u32(0xff, 0xff, 0xff, 0xff), u32::MAX);
}

#[test]
fn sync_is_acknowledged() {
    let mut p = CommandParser::new();
    assert!(matches!(p.on_byte(0x5a), Action::Reply(0xa5)));
    assert_eq!(p.mode_now(), Mode::Idle);
}

#[test]
fn download_header_is_parsed() {
    let mut p = CommandParser::new();
    assert!(matches!(p.on_byte(0x7a), Action::Wait));
    for b in [0x00, 0x10, 0x00, 0x00, 0x00, 0x00, 0x01] {
        assert!(matches!(p.on_byte(b), Action::Wait));
        assert_eq!(p.mode_now(), Mode::DownloadArgs);
    }
    match p.on_byte(0x00) {
        Action::Download { addr, size } => {
            assert_eq!(addr, 0x100000);
            assert_eq!(size, 0x100);
        }
        _ => panic!("expected a download"),
    }
    assert_eq!(p.mode_now(), Mode::Idle);
}

#[test]
fn run_boots_and_finishes() {
    let mut proto = ZteProtocol::new(Usb::new());
    let p = proto.parser();
    assert!(matches!(p.on_byte(0x8a), Action::Wait));
    for b in [0x21, 0x00, 0x00] {
        assert!(matches!(p.on_byte(b), Action::Wait));
    }
    match p.on_byte(0x00) {
        Action::Boot { writes, ack } => {
            assert_eq!(ack, 0xa8);
            assert_eq!(
                writes,
                vec![
                    RegWrite { addr: 0x100000, value: 0xe59ff000 },
                    RegWrite { addr: 0x100008, value: 0x21000000 },
                    RegWrite { addr: 0x13b138, value: 0xf },
                ]
            );
        }
        _ => panic!("expected a boot"),
    }
    assert_eq!(p.mode_now(), Mode::Finished);
    assert!(matches!(p.on_byte(0x5a), Action::Wait));
    assert_eq!(proto.usb().take_byte(), None);
}

#[test]
fn unknown_bytes_are_reported() {
    let mut p = CommandParser::new();
    assert!(matches!(p.on_byte(0x42), Action::Unknown(0x42)));
    assert_eq!(p.mode_now(), Mode::Idle);
}
