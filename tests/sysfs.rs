use libtypec_rs::backends::sysfs::negotiated_power_level;
use libtypec_rs::backends::sysfs::AttributeDir;
use libtypec_rs::backends::sysfs::IdentitySource;
use libtypec_rs::pd::MessageRecipient;
use libtypec_rs::pd::MessageResponseType;
use libtypec_rs::backends::sysfs::TreeEntry;
use libtypec_rs::backends::sysfs::SysfsAlternateModeScan;
use libtypec_rs::backends::sysfs::SysfsReader;
use libtypec_rs::codec::BitReader;
use libtypec_rs::pd::pd3p2::vdo::ProductType;
use libtypec_rs::pd::pd3p2::FastRoleSwap;
use libtypec_rs::pd::Pdo;
use libtypec_rs::typec::OsBackends;
use libtypec_rs::ucsi::AlternateMode;
use libtypec_rs::ucsi::CablePropertyPlugEndType;
use libtypec_rs::ucsi::CablePropertyType;
use libtypec_rs::ucsi::ConnectorCapabilityOperationMode;
use libtypec_rs::ucsi::GetAlternateModesRecipient;
use libtypec_rs::ucsi::PdoType;
use libtypec_rs::BcdWrapper;
use libtypec_rs::Error;

fn dir(entries: &[(&str, &str)]) -> AttributeDir {
    AttributeDir {
        entries: entries
            .iter()
            .map(|(n, t)| (n.to_string(), t.to_string()))
            .collect(),
    }
}

fn string_error(field: &'static str, value: &str) -> Error {
    Error::ParseStringError { field, value: value.to_string() }
}

#[test]
fn bcd_revisions() {
    let r = SysfsReader::new().unwrap();
    assert_eq!(r.read_bcd("3.1\n"), Ok(BcdWrapper(0x301)));
    assert_eq!(r.read_bcd("2\n"), Ok(BcdWrapper(0x200)));
    assert_eq!(r.read_bcd("2"), Err(string_error("bcd", "2")));
    assert_eq!(r.read_bcd("x.1"), Err(string_error("bcd", "x.1")));
}

#[test]
fn power_roles() {
    let r = SysfsReader::new().unwrap();
    let drp = ConnectorCapabilityOperationMode(ConnectorCapabilityOperationMode::DRP);
    assert_eq!(r.read_opr("[source] sink\n"), Ok(drp));
    let rp = ConnectorCapabilityOperationMode(ConnectorCapabilityOperationMode::RP_ONLY);
    assert_eq!(r.read_opr("[source]\n"), Ok(rp));
    let rd = ConnectorCapabilityOperationMode(ConnectorCapabilityOperationMode::RD_ONLY);
    assert_eq!(r.read_opr("[sink]\n"), Ok(rd));
    let cap = r.connector_capability("source sink", None).unwrap();
    assert!(cap.provider && cap.consumer);
    let cap = r.connector_capability("sink", Some("3.0\n")).unwrap();
    assert!(!cap.provider && cap.consumer);
    assert_eq!(cap.partner_pd_revision, 0x30);
    let cap = r.connector_capability("source", None).unwrap();
    assert!(cap.provider && !cap.consumer);
}

#[test]
fn numbers_in_attribute_text() {
    let r = SysfsReader::new().unwrap();
    assert_eq!(r.read_pd_revision("3.0"), Ok(0x30));
    assert_eq!(r.read_pd_revision("3"), Err(string_error("pd_revision", "3")));
    assert_eq!(r.read_hex_u32("0xff01\n"), Ok(0xff01));
    assert_eq!(r.read_hex_u32("  1C46 "), Ok(0x1c46));
    assert_eq!(r.read_hex_u32("0x\n"), Err(string_error("hex_u32", "0x\n")));
    assert_eq!(r.read_hex_u32("0x123456789"), Err(string_error("hex_u32", "0x123456789")));
    assert_eq!(r.read_u32("5000mV\n"), Ok(5000));
    assert_eq!(r.read_u32("4294967295"), Ok(u32::MAX));
    assert_eq!(r.read_u32("4294967296"), Err(string_error("u32", "4294967296")));
    assert_eq!(r.read_u32("mV"), Err(string_error("u32", "mV")));
    assert_eq!(r.read_bit("true\n"), Ok(true));
    assert_eq!(r.read_bit(" false"), Ok(false));
    assert_eq!(r.read_bit("1"), Err(string_error("bool", "1")));
}

#[test]
fn cable_attributes() {
    let r = SysfsReader::new().unwrap();
    assert_eq!(r.read_cable_plug_type("type-c\n"), Ok(CablePropertyPlugEndType::UsbTypeC));
    assert_eq!(r.read_cable_plug_type("type-a"), Ok(CablePropertyPlugEndType::UsbTypeA));
    assert_eq!(r.read_cable_plug_type("type-b"), Ok(CablePropertyPlugEndType::UsbTypeB));
    assert_eq!(r.read_cable_plug_type("captive"), Ok(CablePropertyPlugEndType::OtherNotUsb));
    assert_eq!(r.read_cable_type("active\n"), Ok(CablePropertyType::Active));
    assert_eq!(r.read_cable_type("passive\n"), Ok(CablePropertyType::Passive));
    assert_eq!(r.read_cable_type("optical"), Err(string_error("cable_type", "optical")));
    assert_eq!(r.read_cable_mode_support("0\n"), Ok(false));
    assert_eq!(r.read_cable_mode_support("2\n"), Ok(true));
    assert_eq!(r.read_cable_mode_support(""), Err(string_error("cable_mode_support", "")));
    let c = r.cable_property("type-c", "passive", "1").unwrap();
    assert_eq!(c.plug_end_type, CablePropertyPlugEndType::UsbTypeC);
    assert_eq!(c.cable_type, CablePropertyType::Passive);
    assert!(c.mode_support);
}

fn fixed_source_dir(voltage: &str) -> AttributeDir {
    dir(&[
        ("dual_role_power", "true"),
        ("higher_capability", "false"),
        ("unconstrained_power", "true"),
        ("usb_communication_capable", "true"),
        ("dual_role_data", "false"),
        ("fast_role_swap", "2"),
        ("voltage", voltage),
        ("maximum_current", "3000mA"),
    ])
}

#[test]
fn fixed_supply_pdo_from_attributes() {
    let r = SysfsReader::new().unwrap();
    let p = r.read_fixed_supply_pdo(&fixed_source_dir("5040mV"), PdoType::Source).unwrap();
    assert!(p.dual_role_power && !p.higher_capability && p.unconstrained_power);
    assert!(p.usb_communications_capable && !p.dual_role_data);
    assert_eq!(p.fast_role_swap, FastRoleSwap::OnePointFiveAAtFiveV);
    assert_eq!(p.voltage.0, 5000);
    assert_eq!(p.operational_current.0, 3000);
    // a sink names its fast role swap and current attributes otherwise
    assert_eq!(
        r.read_fixed_supply_pdo(&fixed_source_dir("5000mV"), PdoType::Sink),
        Err(Error::NotSupported)
    );
}

#[test]
fn other_pdos_from_attributes() {
    let r = SysfsReader::new().unwrap();
    let d = dir(&[
        ("maximum_voltage", "21000mV"),
        ("minimum_voltage", "3350mV"),
        ("maximum_current", "3025mA"),
        ("operational_power", "15100mW"),
    ]);
    let p = r.read_programmable_supply_pdo(&d, PdoType::Source).unwrap();
    assert_eq!((p.max_voltage.0, p.min_voltage.0, p.max_current.0), (21000, 3300, 3000));
    let b = r.read_battery_supply_pdo(&d, PdoType::Sink).unwrap();
    assert_eq!((b.max_voltage.0, b.min_voltage.0, b.operational_power.0), (21000, 3350, 15000));
    let v = r.read_variable_supply_pdo(&d, PdoType::Source).unwrap();
    assert_eq!((v.max_voltage.0, v.min_voltage.0, v.max_current.0), (21000, 3350, 3020));
    assert!(matches!(r.read_pdo("2:programmable_supply", &d, PdoType::Source), Ok(Some(Pdo::Pd3p2AugmentedPdo(_)))));
    assert!(matches!(r.read_pdo("3:variable_supply", &d, PdoType::Source), Ok(Some(Pdo::Pd3p2VariableSupplyPdo(_)))));
    assert_eq!(r.read_pdo("uevent", &d, PdoType::Source), Ok(None));
}

#[test]
fn power_level_fields_match_the_bit_layout() {
    // 1.5 A at 5 V now: 30 units of 250 mW; 3 A at 20 V at most: 240 units
    let level = negotiated_power_level(1_500_000, 5_000_000, 3_000_000, 20_000_000);
    assert_eq!(level, (30 << 10) | 240);
    let bytes = level.to_le_bytes();
    let mut reader = BitReader::new(&bytes[..]);
    assert_eq!(reader.read(10).unwrap(), 240);
    assert_eq!(reader.read(10).unwrap(), 30);
}

#[test]
fn connector_status_from_supply() {
    let r = SysfsReader::new().unwrap();
    let supply = dir(&[
        ("current_now", "1500000"),
        ("voltage_now", "5000000"),
        ("current_max", "3000000"),
        ("voltage_max", "20000000"),
    ]);
    let s = r.connector_status(true, "1\n", &supply).unwrap();
    assert!(s.connect_status);
    assert_eq!(s.negotiated_power_level, (30 << 10) | 240);
    let s = r.connector_status(false, "0\n", &dir(&[])).unwrap();
    assert!(!s.connect_status);
    assert_eq!(s.negotiated_power_level, 0);
    assert_eq!(r.connector_status(true, "1", &dir(&[])), Err(Error::NotSupported));
}

#[test]
fn identity_from_attribute_numbers() {
    let r = SysfsReader::new().unwrap();
    let id_header: u32 = 1 | (2 << 2) | (0x18d1 << 16);
    let id_text = id_header.to_string();
    let d = dir(&[
        ("cert_stat", "1234"),
        ("id_header", &id_text),
        ("product", "1376059392"),
        ("product_type_vdo1", "0"),
        ("product_type_vdo2", "3"),
        ("product_type_vdo3", "4"),
    ]);
    let resp = r.read_identity(&d).unwrap();
    assert_eq!(resp.cert_stat.xid, 1234);
    assert_eq!(resp.id_header_vdo.usb_vendor_id, 0x18d1);
    assert!(resp.id_header_vdo.usb_host_capability);
    assert_eq!(resp.product_vdo.product_id, 1376059392 & 0xffff);
    assert_eq!(resp.product_vdo.device, BcdWrapper(1376059392 >> 16));
    assert_eq!(
        resp.product_type_vdo,
        [ProductType::PassiveCableVdo, ProductType::UfpVdo, ProductType::DfpVdo]
    );
    let bad = dir(&[
        ("cert_stat", "0"),
        ("id_header", "0"),
        ("product", "0"),
        ("product_type_vdo1", "9"),
        ("product_type_vdo2", "0"),
        ("product_type_vdo3", "0"),
    ]);
    assert_eq!(r.read_identity(&bad), Err(Error::ParseError { field: "product_type_vdo", value: 9 }));
}

#[test]
fn sysfs_alternate_modes_stop_at_first_missing_file() {
    let r = SysfsReader::new().unwrap();
    let entries = [
        (Some("0xff01\n"), Some("0x1c46\n")),
        (Some("0x8087\n"), Some("0x1\n")),
        (Some("0x1234\n"), None),
        (Some("0x5678\n"), Some("0x2\n")),
    ];
    let mut scan = SysfsAlternateModeScan::new(GetAlternateModesRecipient::Connector, 0).unwrap();
    let mut indices = vec![];
    while let Some(i) = scan.next_index() {
        indices.push(i);
        let (svid, vdo) = entries[i];
        scan.on_entry(&r, svid, vdo).unwrap();
    }
    assert_eq!(indices, vec![0, 1, 2]);
    assert_eq!(
        scan.into_modes(),
        vec![
            AlternateMode { svid: [0xff01, 0], vdo: [0x1c46, 0] },
            AlternateMode { svid: [0x8087, 0], vdo: [0x1, 0] },
        ]
    );
    assert!(matches!(
        SysfsAlternateModeScan::new(GetAlternateModesRecipient::SopDoublePrime, 0),
        Err(Error::NotSupported)
    ));
}

#[test]
fn backend_names() {
    assert_eq!(OsBackends::from_name("SysFS"), Ok(OsBackends::Sysfs));
    assert_eq!(OsBackends::from_name("ucsi_debugfs"), Ok(OsBackends::UcsiDebugfs));
    assert_eq!(OsBackends::from_name("acpi"), Err(Error::NotSupported));
}

#[test]
fn port_entry_names() {
    let r = SysfsReader::new().unwrap();
    assert!(r.is_port_entry("port0"));
    assert!(r.is_port_entry("port12"));
    assert!(!r.is_port_entry("port"));
    assert!(!r.is_port_entry("port0-partner"));
    assert!(!r.is_port_entry("port0.1"));
    assert!(!r.is_port_entry("typec"));
}

fn entry(name: &str, names: &[&str], pd: Option<&str>, typec: Option<&str>) -> TreeEntry {
    TreeEntry {
        name: name.to_string(),
        entry_names: names.iter().map(|n| n.to_string()).collect(),
        pd_revision: pd.map(|s| s.to_string()),
        typec_revision: typec.map(|s| s.to_string()),
    }
}

#[test]
fn capabilities_count_ports_and_alternate_modes() {
    let r = SysfsReader::new().unwrap();
    let entries = vec![
        entry("typec", &["typec", "port0", "port1"], None, None),
        entry("port0", &["port0", "port0.0", "port0.1", "port0-partner", "power_role"], Some("3.0\n"), Some("2.0\n")),
        entry("port0-partner", &["port0-partner", "port0-partner.0"], None, None),
        entry("port1", &["port1", "port1.0", "port1.10"], Some("3.1\n"), Some("2.1\n")),
    ];
    let c = r.capabilities(&entries).unwrap();
    assert_eq!(c.num_connectors, 2);
    assert_eq!(c.num_alt_modes, 3);
    assert_eq!(c.pd_version, BcdWrapper(0x301));
    assert_eq!(c.usb_type_c_version, BcdWrapper(0x201));
    assert_eq!(c.bc_version, BcdWrapper(0));
    assert!(!c.bm_attributes.usb_power_delivery);
    let empty = r.capabilities(&vec![]).unwrap();
    assert_eq!(empty.num_connectors, 0);
    assert_eq!(empty.pd_version, BcdWrapper(0));
    let bad = vec![entry("port0", &["port0"], Some("x"), Some("2.0"))];
    assert_eq!(r.capabilities(&bad), Err(string_error("bcd", "x")));
    let missing = vec![entry("port0", &["port0"], Some("3.0"), None)];
    assert_eq!(r.capabilities(&missing), Err(Error::NotSupported));
}

#[test]
fn fixed_supply_pdo_errors_name_their_cause() {
    let r = SysfsReader::new().unwrap();
    let mut d = fixed_source_dir("5000mV");
    for e in d.entries.iter_mut() {
        if e.0 == "fast_role_swap" {
            e.1 = "4".to_string();
        }
    }
    assert_eq!(
        r.read_fixed_supply_pdo(&d, PdoType::Source),
        Err(Error::ParseError { field: "fast_role_swap", value: 4 })
    );
    let mut d = fixed_source_dir("5000mV");
    for e in d.entries.iter_mut() {
        if e.0 == "higher_capability" {
            e.1 = "yes".to_string();
        }
    }
    assert_eq!(r.read_fixed_supply_pdo(&d, PdoType::Source), Err(string_error("bool", "yes")));
    let mut d = fixed_source_dir("5000mV");
    d.entries.retain(|e| e.0 != "voltage");
    assert_eq!(r.read_fixed_supply_pdo(&d, PdoType::Source), Err(Error::NotSupported));
    let d = fixed_source_dir("volts");
    assert_eq!(r.read_fixed_supply_pdo(&d, PdoType::Source), Err(string_error("u32", "volts")));
}

#[test]
fn pdos_of_a_capability_directory() {
    let r = SysfsReader::new().unwrap();
    let pps = dir(&[
        ("maximum_voltage", "21000mV"),
        ("minimum_voltage", "3300mV"),
        ("maximum_current", "3000mA"),
    ]);
    let children = vec![
        ("1:fixed_supply".to_string(), fixed_source_dir("5000mV")),
        ("uevent".to_string(), dir(&[])),
        ("2:programmable_supply".to_string(), pps),
    ];
    let pdos = r.read_pdos(&children, PdoType::Source).unwrap();
    assert_eq!(pdos.len(), 2);
    assert!(matches!(pdos[0], Pdo::Pd3p2FixedSupplyPdo(_)));
    assert!(matches!(pdos[1], Pdo::Pd3p2AugmentedPdo(_)));
    let bad = vec![("3:battery".to_string(), dir(&[("maximum_voltage", "5000")]))];
    assert_eq!(r.read_pdos(&bad, PdoType::Sink), Err(Error::NotSupported));
}

#[test]
fn attribute_text_is_read_by_character() {
    let r = SysfsReader::new().unwrap();
    assert_eq!(r.read_bcd("3é"), Ok(BcdWrapper(0x300)));
    assert_eq!(r.read_pd_revision("3é0"), Ok(0x30));
    assert_eq!(r.read_bit("true\u{a0}"), Ok(true));
    assert_eq!(r.read_hex_u32("0x0000000001"), Ok(1));
    assert_eq!(r.read_hex_u32("+ff"), Ok(0xff));
    assert_eq!(r.read_hex_u32("f0xf"), Ok(0xff));
    assert_eq!(r.read_hex_u32("0x1ffffffff"), Err(string_error("hex_u32", "0x1ffffffff")));
    assert_eq!(r.read_hex_u32("+"), Err(string_error("hex_u32", "+")));
    assert_eq!(r.read_hex_u32("-1"), Err(string_error("hex_u32", "-1")));
}

#[test]
fn connector_status_errors_name_their_cause() {
    let r = SysfsReader::new().unwrap();
    assert_eq!(r.connector_status(true, "on", &dir(&[])), Err(string_error("hex_u32", "on")));
    let supply = dir(&[("current_now", "1500000"), ("voltage_now", "high")]);
    assert_eq!(r.connector_status(true, "1", &supply), Err(string_error("u32", "high")));
}

#[test]
fn identity_header_and_bad_id_header() {
    let r = SysfsReader::new().unwrap();
    let d = dir(&[
        ("cert_stat", "0"),
        ("id_header", "320"),
        ("product", "0"),
        ("product_type_vdo1", "0"),
        ("product_type_vdo2", "0"),
        ("product_type_vdo3", "0"),
    ]);
    // 320 = 5 << 6: a DFP product type outside its table
    assert_eq!(r.read_identity(&d), Err(Error::ParseError { field: "sop_product_type_dfp", value: 5 }));
    let d = dir(&[
        ("cert_stat", "0"),
        ("id_header", "0"),
        ("product", "0"),
        ("product_type_vdo1", "0"),
        ("product_type_vdo2", "0"),
        ("product_type_vdo3", "0"),
    ]);
    let resp = r.read_identity(&d).unwrap();
    assert!(!resp.header.structured);
    assert_eq!(resp.header.object_position, 0);
}

#[test]
fn sysfs_alternate_mode_entry_error() {
    let r = SysfsReader::new().unwrap();
    let mut scan = SysfsAlternateModeScan::new(GetAlternateModesRecipient::Sop, 0).unwrap();
    assert_eq!(scan.on_entry(&r, Some("0xff01"), Some("zz")), Err(string_error("hex_u32", "zz")));
}

#[test]
fn identity_source_of_pd_message_requests() {
    let r = SysfsReader::new().unwrap();
    let id = MessageResponseType::DiscoverIdentity;
    assert_eq!(r.identity_source(MessageRecipient::Sop, id), Ok(IdentitySource::Partner));
    assert_eq!(r.identity_source(MessageRecipient::SopPrime, id), Ok(IdentitySource::Cable));
    assert_eq!(r.identity_source(MessageRecipient::Connector, id), Err(Error::NotSupported));
    assert_eq!(r.identity_source(MessageRecipient::SopDoublePrime, id), Err(Error::NotSupported));
    assert_eq!(
        r.identity_source(MessageRecipient::Sop, MessageResponseType::Revision),
        Err(Error::NotSupported)
    );
}

#[test]
fn port_names_with_non_ascii_decimal_digits() {
    let r = SysfsReader::new().unwrap();
    // U+0661 ARABIC-INDIC DIGIT ONE is a decimal digit to the port pattern
    assert!(r.is_port_entry("port\u{661}"));
    assert!(!r.is_port_entry("portx"));
}
