use mycelium::bar::BaseAddress;
use mycelium::class::RawClasses;
use mycelium::device::{
    Header, HeaderType, HeaderTypeReg, Id, IrqPin, PciBridgeDetails, RawIds, StandardDetails,
    SubsystemId,
};
use mycelium::error::UnexpectedValue;
use mycelium::register::{Bist, Command, Status};

fn header(vendor_id: u16, device_id: u16, class: u8, subclass: u8, header_type: u8) -> Header {
    Header {
        id: RawIds { vendor_id, device_id },
        command: Command::from_bits(0),
        status: Status::from_bits(0),
        revision_id: 2,
        prog_if: 0,
        class: RawClasses { subclass, class },
        cache_line_size: 0,
        latency_timer: 0,
        header_type: HeaderTypeReg::from_bits(header_type),
        bist: Bist::from_bits(0),
    }
}

fn standard(base_addrs: [u32; 6], irq_pin: u8) -> StandardDetails {
    StandardDetails {
        base_addrs,
        cardbus_cis_ptr: 0,
        subsystem: SubsystemId { vendor_id: 0, subsystem: 0 },
        exp_rom_base_addr: 0,
        cap_ptr: 0,
        _res0: [0; 7],
        irq_line: 0xff,
        irq_pin,
        min_grant: 0,
        max_latency: 0,
    }
}

#[test]
fn header_type_decodes_each_kind() {
    assert_eq!(HeaderType::try_from_bits(0), Ok(HeaderType::Standard));
    assert_eq!(HeaderType::try_from_bits(1), Ok(HeaderType::PciBridge));
    assert_eq!(HeaderType::try_from_bits(2), Ok(HeaderType::CardBusBridge));
    assert_eq!(
        HeaderType::try_from_bits(3),
        Err(UnexpectedValue { name: None, value: 3 })
    );
}

#[test]
fn header_type_bits_roundtrip() {
    for t in [HeaderType::Standard, HeaderType::PciBridge, HeaderType::CardBusBridge] {
        assert_eq!(HeaderType::try_from_bits(t.into_bits()), Ok(t));
    }
    assert_eq!(HeaderType::CardBusBridge.into_bits(), 2);
}

#[test]
fn header_type_register_fields() {
    let h = header(0x8086, 0x1237, 0x06, 0x00, 0x81);
    assert_eq!(h.header_type(), Ok(HeaderType::PciBridge));
    assert!(h.is_multifunction());

    let h = header(0x8086, 0x1237, 0x06, 0x00, 0x00);
    assert_eq!(h.header_type(), Ok(HeaderType::Standard));
    assert!(!h.is_multifunction());

    // the reserved bits do not matter
    let h = header(0x8086, 0x1237, 0x06, 0x00, 0x7e);
    assert_eq!(h.header_type(), Ok(HeaderType::CardBusBridge));
    assert!(!h.is_multifunction());

    let h = header(0x8086, 0x1237, 0x06, 0x00, 0xff);
    assert_eq!(h.header_type(), Err(UnexpectedValue { name: None, value: 3 }));
    assert!(h.is_multifunction());
}

#[test]
fn header_type_register_with_roundtrip() {
    let reg = HeaderTypeReg::new()
        .with_header_type(HeaderType::CardBusBridge)
        .with_multifunction(true);
    assert_eq!(reg.bits(), 0x82);
    assert_eq!(reg.header_type(), Ok(HeaderType::CardBusBridge));
    assert!(reg.is_multifunction());

    let reg = HeaderTypeReg::from_bits(0x7f).with_header_type(HeaderType::Standard);
    assert_eq!(reg.bits(), 0x7c);
    assert_eq!(reg.header_type(), Ok(HeaderType::Standard));

    let reg = HeaderTypeReg::from_bits(0x81).with_multifunction(false);
    assert_eq!(reg.bits(), 0x01);
    assert_eq!(reg.header_type(), Ok(HeaderType::PciBridge));
    assert!(!reg.is_multifunction());
}

#[test]
fn irq_pin_values() {
    assert_eq!(standard([0; 6], 0).irq_pin(), Ok(None));
    assert_eq!(standard([0; 6], 1).irq_pin(), Ok(Some(IrqPin::IntA)));
    assert_eq!(standard([0; 6], 2).irq_pin(), Ok(Some(IrqPin::IntB)));
    assert_eq!(standard([0; 6], 3).irq_pin(), Ok(Some(IrqPin::IntC)));
    assert_eq!(standard([0; 6], 4).irq_pin(), Ok(Some(IrqPin::IntD)));
    let err = standard([0; 6], 5).irq_pin().unwrap_err();
    assert_eq!(*err.value(), 5);
    assert_eq!(err.name(), Some("IRQ pin"));
    assert_eq!(standard([0; 6], 0xff).irq_pin().unwrap_err().value, 0xff);
}

#[test]
fn irq_pin_bits_roundtrip() {
    for p in [IrqPin::IntA, IrqPin::IntB, IrqPin::IntC, IrqPin::IntD] {
        assert_eq!(standard([0; 6], p.bits()).irq_pin(), Ok(Some(p)));
    }
}

#[test]
fn known_device_resolves() {
    let h = header(0x8086, 0x1237, 0x06, 0x00, 0x00);
    let id = h.id();
    assert!(matches!(id, Id::Known(_)));
    assert_eq!(id.vendor_id(), 0x8086);
    assert_eq!(id.device_id(), 0x1237);
    assert_eq!(id.name(), Some("440FX - 82441FX PMC [Natoma]"));
    let vendor = id.vendor().unwrap();
    assert_eq!(vendor.id(), 0x8086);
    assert_eq!(vendor.name(), "Intel Corporation");
    assert_eq!(id.to_string(), "Intel Corporation 440FX - 82441FX PMC [Natoma]");
    match id {
        Id::Known(k) => {
            assert_eq!(k.id(), 0x1237);
            assert_eq!(k.as_vid_pid(), (0x8086, 0x1237));
            assert_eq!(k.name(), "440FX - 82441FX PMC [Natoma]");
        }
        Id::Unknown(_) => panic!("expected a known device"),
    }
}

#[test]
fn unknown_device_resolves_to_raw_ids() {
    let raw = RawIds { vendor_id: 0xdea1, device_id: 0x0001 };
    let id = raw.resolve();
    assert_eq!(id, Id::Unknown(raw));
    assert_eq!(id.vendor_id(), 0xdea1);
    assert_eq!(id.device_id(), 0x0001);
    assert_eq!(id.name(), None);
    assert!(id.vendor().is_none());
    assert_eq!(id.to_string(), "0xdea1:1");
}

#[test]
fn known_vendor_unknown_device_is_unknown() {
    let raw = RawIds { vendor_id: 0x8086, device_id: 0xfff0 };
    assert_eq!(raw.resolve(), Id::Unknown(raw));
}

#[test]
fn raw_ids_lower_hex() {
    let raw = RawIds { vendor_id: 0x8086, device_id: 0x1237 };
    assert_eq!(raw.to_lower_hex(false), "1237:8086");
    assert_eq!(raw.to_lower_hex(true), "0x1237:8086");
    let raw = RawIds { vendor_id: 0, device_id: 0xabcd };
    assert_eq!(raw.to_lower_hex(false), "abcd:0");
    assert_eq!(format!("{:x}:{:x}", 0xabcdu16, 0u16), raw.to_lower_hex(false));
}

#[test]
fn classes_resolve() {
    let h = header(0x8086, 0x1237, 0x01, 0x06, 0x00);
    let class = h.class().unwrap();
    assert_eq!(class.id(), 0x01);
    assert_eq!(class.name(), "Mass storage controller");
    let subclass = h.subclass().unwrap();
    assert_eq!(subclass.id(), 0x06);
    assert_eq!(subclass.name(), "SATA controller");
    assert_eq!(subclass.as_cid_sid(), (0x01, 0x06));
    assert_eq!(subclass.class(), class);
    let classes = h.classes().unwrap();
    assert_eq!(classes.class(), class);
    assert_eq!(classes.subclass(), subclass);
}

#[test]
fn unlisted_class_codes_are_errors() {
    let h = header(0x8086, 0x1237, 0x30, 0x00, 0x00);
    assert_eq!(h.class(), Err(UnexpectedValue { name: None, value: 0x30 }));
    assert_eq!(h.subclass(), Err(UnexpectedValue { name: None, value: 0x00 }));
    assert_eq!(
        h.classes(),
        Err(UnexpectedValue { name: None, value: RawClasses { subclass: 0x00, class: 0x30 } })
    );

    // a listed class with a subclass it does not list
    let h = header(0x8086, 0x1237, 0x01, 0x42, 0x00);
    assert_eq!(h.class().unwrap().id(), 0x01);
    assert_eq!(h.subclass(), Err(UnexpectedValue { name: None, value: 0x42 }));
    assert!(h.classes().is_err());
}

#[test]
fn standard_bars_decode() {
    let bars = [
        0xfebf_0008, // 32-bit prefetchable memory
        0x0000_c001, // I/O
        0xfe00_000c, // 64-bit prefetchable memory...
        0x0000_0001, // ...whose upper half is 1
        0x0000_0000, // 32-bit memory at 0
        0xe000_0004, // 64-bit memory, upper half 0
    ];
    // the last register is a 64-bit memory BAR with no upper half
    let err = standard(bars, 0).base_addrs().unwrap_err();
    assert_eq!(err.value, 0xe000_0004);
    assert_eq!(err.name, Some("64-bit BAR upper half"));

    let bars = [0xfebf_0008, 0x0000_c001, 0xfe00_000c, 0x0000_0001, 0xe000_0004, 0x0000_0000];
    let decoded = standard(bars, 0).base_addrs().unwrap();
    assert_eq!(
        decoded,
        [
            Some(BaseAddress::Memory32 { prefetchable: true, addr: 0xfebf_0000 }),
            Some(BaseAddress::Io(0x0000_c000)),
            Some(BaseAddress::Memory64 { prefetchable: true, addr: 0x1_fe00_0000 }),
            None,
            Some(BaseAddress::Memory64 { prefetchable: false, addr: 0xe000_0000 }),
            None,
        ]
    );
}

#[test]
fn reserved_memory_type_is_an_error() {
    let bars = [0x0000_c001, 0xfebf_0002, 0, 0, 0, 0];
    let err = standard(bars, 0).base_addrs().unwrap_err();
    assert_eq!(err.value, 0xfebf_0002);
    assert_eq!(err.name, Some("BAR memory type"));
    let bars = [0xfebf_0006, 0, 0, 0, 0, 0];
    assert_eq!(standard(bars, 0).base_addrs().unwrap_err().value, 0xfebf_0006);
}

#[test]
fn io_bar_clears_two_low_bits() {
    let bars = [0xffff_ffff, 0xffff_fff0, 0xffff_fff8, 0, 0, 0];
    let decoded = standard(bars, 0).base_addrs().unwrap();
    assert_eq!(decoded[0], Some(BaseAddress::Io(0xffff_fffc)));
    assert_eq!(decoded[1], Some(BaseAddress::Memory32 { prefetchable: false, addr: 0xffff_fff0 }));
    assert_eq!(decoded[2], Some(BaseAddress::Memory32 { prefetchable: true, addr: 0xffff_fff0 }));
}

#[test]
fn bridge_bars_decode() {
    let bridge = PciBridgeDetails { base_addrs: [0xd000_0004, 0x0000_00ff] };
    assert_eq!(
        bridge.base_addrs().unwrap(),
        [Some(BaseAddress::Memory64 { prefetchable: false, addr: 0xff_d000_0000 }), None]
    );
    let bridge = PciBridgeDetails { base_addrs: [0, 0xd000_0004] };
    assert!(bridge.base_addrs().is_err());
}

#[test]
fn generic_bar_decoding() {
    assert_eq!(BaseAddress::decode_bars::<0>(&[]).unwrap(), []);
    assert_eq!(BaseAddress::decode_bars(&[0x1001u32]).unwrap(), [Some(BaseAddress::Io(0x1000))]);
}

#[test]
fn resolving_twice_gives_equal_identities() {
    let raw = RawIds { vendor_id: 0x8086, device_id: 0x1237 };
    assert_eq!(raw.resolve(), raw.resolve());
    let h = header(0x8086, 0x1237, 0x01, 0x06, 0x00);
    assert_eq!(h.id(), raw.resolve());
    assert_eq!(h.classes().unwrap().class(), h.class().unwrap());
    assert_eq!(h.classes().unwrap().subclass(), h.subclass().unwrap());
}
