use libtypec_rs::codec::BitReader;
use libtypec_rs::codec::BitWriter;
use libtypec_rs::pd::pd3p2::vdo::Dfp;
use libtypec_rs::pd::pd3p2::vdo::DfpHostCapability;
use libtypec_rs::pd::pd3p2::vdo::DfpVersion;
use libtypec_rs::pd::pd3p2::vdo::IdHeader;
use libtypec_rs::pd::pd3p2::vdo::IdHeaderConnectorType;
use libtypec_rs::pd::pd3p2::vdo::SopDfpProductType;
use libtypec_rs::pd::pd3p2::vdo::SopUfpProductType;
use libtypec_rs::pd::pd3p2::vdo::Ufp;
use libtypec_rs::pd::pd3p2::vdo::UfpVersion;
use libtypec_rs::pd::pd3p2::vdo::Vpd;
use libtypec_rs::pd::pd3p2::FastRoleSwap;
use libtypec_rs::pd::Pdo;
use libtypec_rs::ucsi::CableProperty;
use libtypec_rs::ucsi::CablePropertyDirectionality;
use libtypec_rs::ucsi::CablePropertyPlugEndType;
use libtypec_rs::ucsi::CablePropertySpeedExponent;
use libtypec_rs::ucsi::CablePropertyType;
use libtypec_rs::ucsi::Capability;
use libtypec_rs::ucsi::ConnectorCapability;
use libtypec_rs::ucsi::ConnectorCapabilityExtendedOperationMode;
use libtypec_rs::ucsi::ConnectorCapabilityMiscellaneousCapabilities;
use libtypec_rs::ucsi::ConnectorCapabilityOperationMode;
use libtypec_rs::BcdWrapper;
use libtypec_rs::Error;
use libtypec_rs::WireCode;

#[test]
fn reader_reads_little_endian_fields() {
    let bytes = [0b1010_1101u8, 0xff, 0x01];
    let mut r = BitReader::new(&bytes[..]);
    assert_eq!(r.read(1).unwrap(), 1);
    assert_eq!(r.read(3).unwrap(), 0b110);
    assert_eq!(r.read(8).unwrap(), 0xfa);
    assert_eq!(r.read_bit().unwrap(), true);
    r.skip(3).unwrap();
    assert_eq!(r.remaining(), 8);
    assert_eq!(r.read(8).unwrap(), 0x01);
    assert_eq!(r.read(1), Err(Error::UnexpectedEof));
}

#[test]
fn reader_refuses_to_read_past_the_end() {
    let bytes = [0xffu8, 0xff];
    let mut r = BitReader::new(&bytes[..]);
    assert_eq!(r.read(17), Err(Error::UnexpectedEof));
    assert_eq!(r.read(16).unwrap(), 0xffff);
    assert_eq!(r.skip(1), Err(Error::UnexpectedEof));
}

#[test]
fn writer_packs_fields_and_aligns() {
    let mut w = BitWriter::new();
    w.write(3, 5).unwrap();
    w.write(2, 1).unwrap();
    w.byte_align();
    w.write(8, 0xab).unwrap();
    assert_eq!(w.value(), 5 | (1 << 3) | (0xab << 8));
    assert_eq!(w.write(2, 4), Err(Error::ValueOutOfRange { bits: 2, value: 4 }));
    assert_eq!(w.value(), 5 | (1 << 3) | (0xab << 8));
}

#[test]
fn cable_property_fields_are_offset_by_their_widths() {
    let v: u64 = 3
        | (0x123 << 2)
        | (200 << 16)
        | (1 << 24)
        | (1 << 25)
        | (1 << 26)
        | (2 << 27)
        | (1 << 29)
        | (2 << 30)
        | (5 << 32);
    let bytes = v.to_le_bytes();
    let mut r = BitReader::new(&bytes[..5]);
    let c = CableProperty::from_bytes(&mut r).unwrap();
    assert_eq!(c.speed_exponent, CablePropertySpeedExponent::Gbps);
    assert_eq!(c.speed_mantissa, 0x123);
    assert_eq!(c.b_current_capability, 200);
    assert!(c.vbus_in_cable);
    assert_eq!(c.cable_type, CablePropertyType::Active);
    assert_eq!(c.directionality, CablePropertyDirectionality::Fixed);
    assert_eq!(c.plug_end_type, CablePropertyPlugEndType::UsbTypeC);
    assert!(c.mode_support);
    assert_eq!(c.cable_pd_revision, 2);
    assert_eq!(c.latency, 5);
}

#[test]
fn short_cable_property_frame_is_refused() {
    let bytes = [0xffu8; 4];
    let mut r = BitReader::new(&bytes[..]);
    assert_eq!(CableProperty::from_bytes(&mut r), Err(Error::UnexpectedEof));
}

#[test]
fn connector_capability_decodes_and_names_bad_field() {
    let good: u32 = 0b0000_0100 | (1 << 8) | (1 << 9) | (1 << 12) | (2 << 14) | (1 << 22) | (1 << 26) | (3 << 27);
    let bytes = good.to_le_bytes();
    let c = ConnectorCapability::from_bytes(&mut BitReader::new(&bytes[..])).unwrap();
    assert_eq!(c.operation_mode, ConnectorCapabilityOperationMode(ConnectorCapabilityOperationMode::DRP));
    assert!(c.provider && c.consumer && c.swap_to_src);
    assert!(!c.swap_to_dfp && !c.swap_to_ufp && !c.swap_to_snk);
    assert_eq!(c.extended_operation_mode, ConnectorCapabilityExtendedOperationMode::EprSink);
    assert_eq!(c.miscellaneous_capabilities, ConnectorCapabilityMiscellaneousCapabilities::Security);
    assert!(c.reverse_current_protection_support);
    assert_eq!(c.partner_pd_revision, 3);

    let bad: u32 = 7 << 14;
    let bytes = bad.to_le_bytes();
    assert_eq!(
        ConnectorCapability::from_bytes(&mut BitReader::new(&bytes[..])),
        Err(Error::ParseError { field: "extended_operation_mode", value: 7 })
    );
    let bad: u32 = 5 << 22;
    let bytes = bad.to_le_bytes();
    assert_eq!(
        ConnectorCapability::from_bytes(&mut BitReader::new(&bytes[..])),
        Err(Error::ParseError { field: "miscellaneous_capabilities", value: 5 })
    );
}

#[test]
fn capability_decodes_counts_and_versions() {
    let mut v: u128 = 0;
    v |= 1 << 1; // battery charging
    v |= 1 << 2; // power delivery
    v |= 1 << 8; // AC supply
    v |= 2 << 32; // two connectors
    v |= 1 << 44; // PDO details
    v |= 3 << 64; // three alternate modes
    v |= 0x0120 << 80;
    v |= 0x0310 << 96;
    v |= 0x0200 << 112;
    let bytes = v.to_le_bytes();
    let c = Capability::from_bytes(&mut BitReader::new(&bytes[..])).unwrap();
    assert!(c.bm_attributes.battery_charging && c.bm_attributes.usb_power_delivery);
    assert!(!c.bm_attributes.disabled_state_support);
    assert!(c.bm_attributes.bm_power_source.ac_supply);
    assert_eq!(c.num_connectors, 2);
    assert!(c.bm_optional_features.pdo_details_supported);
    assert!(!c.bm_optional_features.set_ccom_supported);
    assert_eq!(c.num_alt_modes, 3);
    assert_eq!(c.bc_version, BcdWrapper(0x0120));
    assert_eq!(c.pd_version, BcdWrapper(0x0310));
    assert_eq!(c.usb_type_c_version, BcdWrapper(0x0200));
    assert_eq!(Capability::from_bytes(&mut BitReader::new(&bytes[..15])), Err(Error::UnexpectedEof));
}

fn pdo_bytes(v: u64) -> [u8; 8] {
    v.to_le_bytes()
}

#[test]
fn fixed_supply_pdo_quantizes_voltage_and_current() {
    let frame = pdo_bytes((100 << 11) | (100 << 21));
    let p = Pdo::from_bytes(&mut BitReader::new(&frame[..]), BcdWrapper(0x310)).unwrap();
    match p {
        Pdo::Pd3p2FixedSupplyPdo(f) => {
            assert_eq!(f.voltage.0, 5000);
            assert_eq!(f.operational_current.0, 1000);
            assert_eq!(f.fast_role_swap, FastRoleSwap::NotSupported);
        }
        _ => panic!("expected a fixed supply PDO"),
    }
    let frame = pdo_bytes((250 << 11) | (100 << 21) | (1 << 4) | (3 << 9));
    match Pdo::from_bytes(&mut BitReader::new(&frame[..]), BcdWrapper(0x310)).unwrap() {
        Pdo::Pd3p2FixedSupplyPdo(f) => {
            assert_eq!(f.voltage.0, 12500);
            assert_eq!(f.operational_current.0, 1000);
            assert!(f.dual_role_power);
            assert_eq!(f.fast_role_swap, FastRoleSwap::ThreeAAtFiveV);
        }
        _ => panic!("expected a fixed supply PDO"),
    }
}

#[test]
fn other_pdo_kinds_use_their_steps() {
    let battery = pdo_bytes(1 | (100 << 4) | (60 << 14) | (40 << 24));
    match Pdo::from_bytes(&mut BitReader::new(&battery[..]), BcdWrapper(0x310)).unwrap() {
        Pdo::Pd3p2BatterySupplyPdo(b) => {
            assert_eq!(b.max_voltage.0, 5000);
            assert_eq!(b.min_voltage.0, 3000);
            assert_eq!(b.operational_power.0, 10000);
        }
        _ => panic!("expected a battery PDO"),
    }
    let variable = pdo_bytes(2 | (240 << 4) | (100 << 14) | (150 << 24));
    match Pdo::from_bytes(&mut BitReader::new(&variable[..]), BcdWrapper(0x310)).unwrap() {
        Pdo::Pd3p2VariableSupplyPdo(v) => {
            assert_eq!(v.max_voltage.0, 12000);
            assert_eq!(v.min_voltage.0, 5000);
            assert_eq!(v.max_current.0, 1500);
        }
        _ => panic!("expected a variable PDO"),
    }
    let pps = pdo_bytes(3 | (110 << 9) | (33 << 18) | (60 << 27));
    match Pdo::from_bytes(&mut BitReader::new(&pps[..]), BcdWrapper(0x310)).unwrap() {
        Pdo::Pd3p2AugmentedPdo(a) => {
            assert_eq!(a.max_voltage.0, 11000);
            assert_eq!(a.min_voltage.0, 3300);
            assert_eq!(a.max_current.0, 3000);
        }
        _ => panic!("expected a programmable PDO"),
    }
}

#[test]
fn pdo_of_other_revision_is_refused() {
    let frame = pdo_bytes((100 << 11) | (100 << 21));
    assert_eq!(
        Pdo::from_bytes(&mut BitReader::new(&frame[..]), BcdWrapper(0x300)),
        Err(Error::UnsupportedUsbRevision { revision: BcdWrapper(0x300) })
    );
    assert_eq!(
        Pdo::from_bytes(&mut BitReader::new(&[][..]), BcdWrapper(0x200)),
        Err(Error::UnsupportedUsbRevision { revision: BcdWrapper(0x200) })
    );
}

#[test]
fn enumerated_codes_round_trip() {
    for code in 0..4 {
        let e = CablePropertySpeedExponent::n(code).unwrap();
        assert_eq!(e.code(), code);
    }
    assert_eq!(CablePropertySpeedExponent::n(4), None);
    assert_eq!(UfpVersion::n(3), Some(UfpVersion::V1_3));
    assert_eq!(UfpVersion::n(1), None);
    assert_eq!(DfpVersion::n(2), Some(DfpVersion::Version12));
    assert_eq!(DfpVersion::Version12.code(), 2);
}

#[test]
fn vdo_records_decode() {
    let vpd: u32 = 3 | (2 << 4) | (1 << 8) | (1 << 11) | (1 << 13) | (10 << 14) | (20 << 20) | (1 << 26);
    let bytes = vpd.to_le_bytes();
    let v = Vpd::from_bytes(&mut BitReader::new(&bytes[..])).unwrap();
    assert_eq!(v.hw_version, 3);
    assert_eq!(v.firmware_version, 2);
    assert_eq!(v.vdo_version, 1);
    assert!(v.charge_through_current_support);
    assert_eq!(v.vbus_impedance.0, 10);
    assert_eq!(v.ground_impedance.0, 20);

    let dfp: u32 = 2 | (1 << 5) | (7 << 10);
    let bytes = dfp.to_le_bytes();
    let d = Dfp::from_bytes(&mut BitReader::new(&bytes[..])).unwrap();
    assert_eq!(d.dfp_vdo_version, DfpVersion::Version12);
    assert_eq!(d.host_capability, DfpHostCapability::Usb32);
    assert_eq!(d.port_number, 7);
    let bad: u32 = 3;
    let bytes = bad.to_le_bytes();
    assert_eq!(
        Dfp::from_bytes(&mut BitReader::new(&bytes[..])),
        Err(Error::ParseError { field: "dfp_vdo_version", value: 3 })
    );

    let ufp: u32 = 3 | (2 << 4) | (6 << 21) | (1 << 25) | (2 << 26);
    let bytes = ufp.to_le_bytes();
    let u = Ufp::from_bytes(&mut BitReader::new(&bytes[..])).unwrap();
    assert_eq!(u.ufp_vdo_version, UfpVersion::V1_3);
    assert!(u.vbus_required && !u.vconn_required);
    let bad: u32 = 3 | (7 << 21);
    let bytes = bad.to_le_bytes();
    assert_eq!(
        Ufp::from_bytes(&mut BitReader::new(&bytes[..])),
        Err(Error::ParseError { field: "vconn_power", value: 7 })
    );
}

#[test]
fn id_header_decodes_and_takes_a_vendor() {
    let v: u32 = 1 | (2 << 2) | (1 << 5) | (2 << 6) | (3 << 9) | (0x18d1 << 16);
    let bytes = v.to_le_bytes();
    let mut h = IdHeader::from_bytes(&mut BitReader::new(&bytes[..])).unwrap();
    assert!(h.usb_host_capability && !h.usb_device_capability);
    assert_eq!(h.sop_product_type_ufp, SopUfpProductType::PdUsbPeripheral);
    assert!(h.modal_operation_supported);
    assert_eq!(h.sop_product_type_dfp, SopDfpProductType::PdUsbHost);
    assert_eq!(h.connector_type, IdHeaderConnectorType::TypecPlug);
    assert_eq!(h.usb_vendor_id, 0x18d1);
    assert_eq!(h.vendor, "Unknown");
    h.set_vendor(Some("Google Inc.".to_string()));
    assert_eq!(h.vendor, "Google Inc.");
    h.set_vendor(None);
    assert_eq!(h.vendor, "Unknown");

    let bad: u32 = 5 << 6;
    let bytes = bad.to_le_bytes();
    assert_eq!(
        IdHeader::from_bytes(&mut BitReader::new(&bytes[..])),
        Err(Error::ParseError { field: "sop_product_type_dfp", value: 5 })
    );
}
