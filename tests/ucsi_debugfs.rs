use libtypec_rs::backends::ucsi_debugfs::AlternateModeScan;
use libtypec_rs::backends::ucsi_debugfs::PdoQuery;
use libtypec_rs::backends::ucsi_debugfs::PdoScan;
use libtypec_rs::backends::ucsi_debugfs::UcsiDebugfsBackend;
use libtypec_rs::pd::Pdo;
use libtypec_rs::ucsi::AlternateMode;
use libtypec_rs::ucsi::Command;
use libtypec_rs::ucsi::GetAlternateModesRecipient;
use libtypec_rs::ucsi::PdoSourceCapabilitiesType;
use libtypec_rs::ucsi::PdoType;
use libtypec_rs::BcdWrapper;
use libtypec_rs::Error;

#[test]
fn test_stringify_command_val() {
    let val = 12345u64;
    let result = UcsiDebugfsBackend::stringify_command_val(val).unwrap();
    let expected = format!("{}\0", val).into_bytes();

    assert_eq!(result, expected);
}

#[test]
fn test_build_command_value_get_connector_capability() {
    let command = Command::GetConnectorCapability { connector_nr: 0 };
    let result = UcsiDebugfsBackend::build_command_value(&command).unwrap();
    let expected = 0x10007;

    assert_eq!(result, expected);
}

#[test]
fn stringify_gives_ascii_digits_and_nul() {
    let result = UcsiDebugfsBackend::stringify_command_val(12345).unwrap();
    assert_eq!(result, b"12345\0".to_vec());
    let zero = UcsiDebugfsBackend::stringify_command_val(0).unwrap();
    assert_eq!(zero, b"0\0".to_vec());
    let max = UcsiDebugfsBackend::stringify_command_val(u64::MAX).unwrap();
    assert_eq!(max, b"18446744073709551615\0".to_vec());
}

#[test]
fn command_text_of_connector_capability() {
    let text = UcsiDebugfsBackend::command_text(&Command::GetConnectorCapability { connector_nr: 0 }).unwrap();
    assert_eq!(text, b"65543\0".to_vec());
}

#[test]
fn command_values_of_each_variant() {
    assert_eq!(UcsiDebugfsBackend::build_command_value(&Command::GetCapability).unwrap(), 0x06);
    assert_eq!(
        UcsiDebugfsBackend::build_command_value(&Command::GetConnectorStatus { connector_nr: 2 }).unwrap(),
        0x12 | (3 << 16)
    );
    assert_eq!(
        UcsiDebugfsBackend::build_command_value(&Command::GetCableProperty { connector_nr: 1 }).unwrap(),
        0x11 | (2 << 16)
    );
    let alt = Command::GetAlternateModes {
        recipient: GetAlternateModesRecipient::Sop,
        connector_nr: 1,
        offset: 2,
    };
    assert_eq!(
        UcsiDebugfsBackend::build_command_value(&alt).unwrap(),
        0x0c | (1 << 16) | (2 << 24) | (2 << 32)
    );
    let pdos = Command::GetPdos {
        connector_nr: 0,
        partner_pdo: true,
        pdo_offset: 3,
        nr_pdos: 2,
        pdo_type: PdoType::Source,
        source_capabilities_type: PdoSourceCapabilitiesType::MaximumSupportedSourceCapabilities,
    };
    assert_eq!(
        UcsiDebugfsBackend::build_command_value(&pdos).unwrap(),
        0x10 | (1 << 16) | (1 << 23) | (3 << 24) | (2 << 32) | (1 << 34) | (2 << 35)
    );
}

#[test]
fn connector_number_that_does_not_fit_is_refused() {
    let command = Command::GetConnectorCapability { connector_nr: 127 };
    assert_eq!(
        UcsiDebugfsBackend::build_command_value(&command),
        Err(Error::ValueOutOfRange { bits: 7, value: 128 })
    );
    let command = Command::GetConnectorCapability { connector_nr: 126 };
    assert_eq!(UcsiDebugfsBackend::build_command_value(&command).unwrap(), 0x07 | (127 << 16));
}

#[test]
fn pdo_count_that_does_not_fit_is_refused() {
    let pdos = Command::GetPdos {
        connector_nr: 0,
        partner_pdo: false,
        pdo_offset: 0,
        nr_pdos: 4,
        pdo_type: PdoType::Sink,
        source_capabilities_type: PdoSourceCapabilitiesType::CurrentSupportedSourceCapabilities,
    };
    assert_eq!(
        UcsiDebugfsBackend::build_command_value(&pdos),
        Err(Error::ValueOutOfRange { bits: 2, value: 4 })
    );
}

#[test]
fn parse_response_orders_low_word_first() {
    let bytes = UcsiDebugfsBackend::parse_response(b"0x00000000000000010000000000000002\n").unwrap();
    assert_eq!(bytes.len(), 16);
    assert_eq!(&bytes[0..8], &2u64.to_le_bytes()[..]);
    assert_eq!(&bytes[8..16], &1u64.to_le_bytes()[..]);
}

#[test]
fn parse_response_reads_hex_digits_of_either_case() {
    let bytes = UcsiDebugfsBackend::parse_response(b"0x0123456789abcdefFEDCBA9876543210").unwrap();
    assert_eq!(&bytes[0..8], &0xFEDCBA9876543210u64.to_le_bytes()[..]);
    assert_eq!(&bytes[8..16], &0x0123456789abcdefu64.to_le_bytes()[..]);
}

#[test]
fn malformed_response_is_refused() {
    assert_eq!(
        UcsiDebugfsBackend::parse_response(b"0x12\n"),
        Err(Error::ParseError { field: "response", value: 5 })
    );
    assert_eq!(
        UcsiDebugfsBackend::parse_response(b"0x0000000000000001000000000000000g\n"),
        Err(Error::ParseError { field: "response", value: 35 })
    );
    assert_eq!(
        UcsiDebugfsBackend::parse_response(b"1x00000000000000010000000000000002\n"),
        Err(Error::ParseError { field: "response", value: 35 })
    );
}

fn mode_frame(svid0: u16, vdo0: u32, svid1: u16, vdo1: u32) -> Vec<u8> {
    let mut v: u128 = svid0 as u128;
    v |= (vdo0 as u128) << 16;
    v |= (svid1 as u128) << 48;
    v |= (vdo1 as u128) << 64;
    v.to_le_bytes().to_vec()
}

#[test]
fn alternate_mode_scan_stops_at_first_null_response() {
    let mut scan = AlternateModeScan::new(GetAlternateModesRecipient::Connector, 0);
    let responses = vec![
        mode_frame(0xff01, 0x1c46, 0, 0),
        mode_frame(0x8087, 0x1, 0, 0),
        vec![0u8; 16],
        mode_frame(0x1234, 0x5, 0, 0),
    ];
    let mut offsets = vec![];
    let mut next = 0;
    while let Some(cmd) = scan.next_command() {
        match cmd {
            Command::GetAlternateModes { offset, .. } => offsets.push(offset),
            _ => panic!("unexpected command"),
        }
        scan.on_response(&responses[next]).unwrap();
        next += 1;
    }
    assert_eq!(offsets, vec![0, 1, 2]);
    let modes = scan.into_modes();
    assert_eq!(
        modes,
        vec![
            AlternateMode { svid: [0xff01, 0], vdo: [0x1c46, 0] },
            AlternateMode { svid: [0x8087, 0], vdo: [0x1, 0] },
        ]
    );
}

#[test]
fn alternate_mode_scan_ends_at_once_on_null_response() {
    let mut scan = AlternateModeScan::new(GetAlternateModesRecipient::Sop, 1);
    assert!(scan.next_command().is_some());
    scan.on_response(&[0u8; 16]).unwrap();
    assert!(scan.next_command().is_none());
    assert!(scan.into_modes().is_empty());
}

#[test]
fn alternate_mode_scan_reports_short_response() {
    let mut scan = AlternateModeScan::new(GetAlternateModesRecipient::Sop, 1);
    assert_eq!(scan.on_response(&[1u8, 0, 0]), Err(Error::UnexpectedEof));
}

fn fixed_pdo_frame(voltage_raw: u32, current_raw: u32) -> Vec<u8> {
    // type tag 0, then the fixed supply record from bit 2
    let v: u32 = (voltage_raw << 11) | (current_raw << 21);
    v.to_le_bytes().to_vec()
}

#[test]
fn pdo_scan_stops_at_requested_count() {
    let query = PdoQuery {
        connector_nr: 0,
        partner_pdo: false,
        pdo_offset: 0,
        nr_pdos: 2,
        pdo_type: PdoType::Source,
        source_capabilities_type: PdoSourceCapabilitiesType::CurrentSupportedSourceCapabilities,
        revision: BcdWrapper(0x310),
    };
    let mut scan = PdoScan::new(query);
    let mut offsets = vec![];
    while let Some(cmd) = scan.next_command() {
        match cmd {
            Command::GetPdos { pdo_offset, .. } => offsets.push(pdo_offset),
            _ => panic!("unexpected command"),
        }
        scan.on_response(&fixed_pdo_frame(100, 300)).unwrap();
    }
    assert_eq!(offsets, vec![0, 1]);
    let pdos = scan.into_pdos();
    assert_eq!(pdos.len(), 2);
    match pdos[0] {
        Pdo::Pd3p2FixedSupplyPdo(p) => {
            assert_eq!(p.voltage.0, 5000);
            assert_eq!(p.operational_current.0, 3000);
        }
        _ => panic!("expected a fixed supply PDO"),
    }
}

#[test]
fn pdo_scan_stops_at_null_response_without_count() {
    let query = PdoQuery {
        connector_nr: 0,
        partner_pdo: true,
        pdo_offset: 1,
        nr_pdos: 0,
        pdo_type: PdoType::Sink,
        source_capabilities_type: PdoSourceCapabilitiesType::CurrentSupportedSourceCapabilities,
        revision: BcdWrapper(0x310),
    };
    let mut scan = PdoScan::new(query);
    let responses = vec![fixed_pdo_frame(100, 100), vec![0u8; 16]];
    let mut offsets = vec![];
    let mut next = 0;
    while let Some(cmd) = scan.next_command() {
        if let Command::GetPdos { pdo_offset, .. } = cmd {
            offsets.push(pdo_offset);
        }
        scan.on_response(&responses[next]).unwrap();
        next += 1;
    }
    assert_eq!(offsets, vec![1, 2]);
    assert_eq!(scan.into_pdos().len(), 1);
}

#[test]
fn parse_response_of_any_two_words() {
    for &(hi, lo) in &[(0u64, 0u64), (u64::MAX, 1), (0x0123_4567_89ab_cdef, 0xfedc_ba98_7654_3210)] {
        let text = format!("0x{:016x}{:016x}\n", hi, lo).into_bytes();
        let bytes = UcsiDebugfsBackend::parse_response(&text).unwrap();
        assert_eq!(&bytes[0..8], &lo.to_le_bytes()[..]);
        assert_eq!(&bytes[8..16], &hi.to_le_bytes()[..]);
    }
}
