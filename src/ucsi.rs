//! UCSI data structures and commands.
use vstd::arithmetic::power2::*;
use vstd::prelude::*;

use crate::codec::field;
use crate::codec::has_bits;
use crate::codec::lemma_field_bound;
use crate::codec::BitReader;
use crate::codec::BitWriter;
use crate::pd::MessageRecipient;
use crate::pd::MessageResponseType;
use crate::BcdWrapper;
use crate::Error;
use crate::Result;
use crate::WireCode;

verus! {

/// The largest number of alternate modes a PPM reports.
pub const UCSI_MAX_NUM_ALT_MODE: usize = 128;

/// The recipient of a GET_ALTERNATE_MODES command.
#[derive(Clone, Copy, Debug, PartialEq, Eq, Structural)]
pub enum GetAlternateModesRecipient {
    /// The connector itself.
    Connector,
    /// The port partner (SOP).
    Sop,
    /// The cable plug (SOP').
    SopPrime,
    /// The second cable plug (SOP'').
    SopDoublePrime,
}

impl WireCode for GetAlternateModesRecipient {
    open spec fn spec_from_code(v: u32) -> Option<Self> {
        if v == 0 {
            Some(Self::Connector)
        } else if v == 1 {
            Some(Self::Sop)
        } else if v == 2 {
            Some(Self::SopPrime)
        } else if v == 3 {
            Some(Self::SopDoublePrime)
        } else {
            None
        }
    }

    open spec fn spec_code(self) -> u32 {
        match self {
            Self::Connector => 0,
            Self::Sop => 1,
            Self::SopPrime => 2,
            Self::SopDoublePrime => 3,
        }
    }

    fn n(v: u32) -> (r: Option<Self>) {
        match v {
            0 => Some(Self::Connector),
            1 => Some(Self::Sop),
            2 => Some(Self::SopPrime),
            3 => Some(Self::SopDoublePrime),
            _ => None,
        }
    }

    fn code(&self) -> (r: u32) {
        match self {
            Self::Connector => 0,
            Self::Sop => 1,
            Self::SopPrime => 2,
            Self::SopDoublePrime => 3,
        }
    }

    proof fn lemma_code_round_trip(self) {
    }

    proof fn lemma_decoded_code(v: u32) {
    }
}

/// Whether sink or source PDOs are requested.
#[derive(Clone, Copy, Debug, PartialEq, Eq, Structural)]
pub enum PdoType {
    Sink,
    Source,
}

impl WireCode for PdoType {
    open spec fn spec_from_code(v: u32) -> Option<Self> {
        if v == 0 {
            Some(Self::Sink)
        } else if v == 1 {
            Some(Self::Source)
        } else {
            None
        }
    }

    open spec fn spec_code(self) -> u32 {
        match self {
            Self::Sink => 0,
            Self::Source => 1,
        }
    }

    fn n(v: u32) -> (r: Option<Self>) {
        match v {
            0 => Some(Self::Sink),
            1 => Some(Self::Source),
            _ => None,
        }
    }

    fn code(&self) -> (r: u32) {
        match self {
            Self::Sink => 0,
            Self::Source => 1,
        }
    }

    proof fn lemma_code_round_trip(self) {
    }

    proof fn lemma_decoded_code(v: u32) {
    }
}

/// The kind of source capabilities requested.
#[derive(Clone, Copy, Debug, PartialEq, Eq, Structural)]
pub enum PdoSourceCapabilitiesType {
    CurrentSupportedSourceCapabilities,
    AdvertisedCapabilities,
    MaximumSupportedSourceCapabilities,
}

impl WireCode for PdoSourceCapabilitiesType {
    open spec fn spec_from_code(v: u32) -> Option<Self> {
        if v == 0 {
            Some(Self::CurrentSupportedSourceCapabilities)
        } else if v == 1 {
            Some(Self::AdvertisedCapabilities)
        } else if v == 2 {
            Some(Self::MaximumSupportedSourceCapabilities)
        } else {
            None
        }
    }

    open spec fn spec_code(self) -> u32 {
        match self {
            Self::CurrentSupportedSourceCapabilities => 0,
            Self::AdvertisedCapabilities => 1,
            Self::MaximumSupportedSourceCapabilities => 2,
        }
    }

    fn n(v: u32) -> (r: Option<Self>) {
        match v {
            0 => Some(Self::CurrentSupportedSourceCapabilities),
            1 => Some(Self::AdvertisedCapabilities),
            2 => Some(Self::MaximumSupportedSourceCapabilities),
            _ => None,
        }
    }

    fn code(&self) -> (r: u32) {
        match self {
            Self::CurrentSupportedSourceCapabilities => 0,
            Self::AdvertisedCapabilities => 1,
            Self::MaximumSupportedSourceCapabilities => 2,
        }
    }

    proof fn lemma_code_round_trip(self) {
    }

    proof fn lemma_decoded_code(v: u32) {
    }
}

/// A UCSI read command and its parameters. Connector numbers are zero-based.
#[derive(Clone, Copy, Debug)]
pub enum Command {
    /// Gets the PPM capabilities.
    GetCapability,
    /// Gets the capabilities of a connector.
    GetConnectorCapability { connector_nr: usize },
    /// Gets the alternate modes of the connector, cable or attached device,
    /// one per offset.
    GetAlternateModes { recipient: GetAlternateModesRecipient, connector_nr: usize, offset: usize },
    /// Gets the alternate modes that the connector supports now.
    GetCamSupported { connector_nr: usize },
    /// Gets the alternate modes that the connector operates in.
    GetCurrentCam { connector_nr: usize },
    /// Gets the sink or source PDOs of the connector or of its partner.
    GetPdos {
        connector_nr: usize,
        partner_pdo: bool,
        pdo_offset: u32,
        nr_pdos: usize,
        pdo_type: PdoType,
        source_capabilities_type: PdoSourceCapabilitiesType,
    },
    /// Gets the properties of the cable on the connector.
    GetCableProperty { connector_nr: usize },
    /// Gets the status of the connector.
    GetConnectorStatus { connector_nr: usize },
    /// Gets a PD message from the connector.
    GetPdMessage { connector_nr: u32, recipient: MessageRecipient, message_type: MessageResponseType },
}

/// The wire value of a zero-based connector number: one more (saturating).
pub open spec fn spec_wire_index(n: u64) -> u64 {
    if n == u64::MAX {
        n
    } else {
        (n + 1) as u64
    }
}

pub fn wire_index(n: u64) -> (r: u64)
    ensures
        r == spec_wire_index(n),
{
    if n == u64::MAX {
        n
    } else {
        n + 1
    }
}

/// A frame made of an opcode, a zero data length and a 7-bit connector
/// field.
pub open spec fn connector_frame(opcode: nat, connector_nr: u64) -> Result<nat> {
    let w = spec_wire_index(connector_nr);
    if w >= 128 {
        Err(Error::ValueOutOfRange { bits: 7, value: w })
    } else {
        Ok((opcode + w * 0x10000) as nat)
    }
}

impl Command {
    pub open spec fn spec_cmd_number(&self) -> u32 {
        match self {
            Command::GetCapability => 0x06,
            Command::GetConnectorCapability { .. } => 0x07,
            Command::GetAlternateModes { .. } => 0x0c,
            Command::GetCamSupported { .. } => 0x0d,
            Command::GetCurrentCam { .. } => 0x0e,
            Command::GetPdos { .. } => 0x10,
            Command::GetCableProperty { .. } => 0x11,
            Command::GetConnectorStatus { .. } => 0x12,
            Command::GetPdMessage { .. } => 0x15,
        }
    }

    /// The opcode of the command.
    pub fn cmd_number(&self) -> (r: u32)
        ensures
            r == self.spec_cmd_number(),
    {
        match self {
            Command::GetCapability => 0x06,
            Command::GetConnectorCapability { .. } => 0x07,
            Command::GetAlternateModes { .. } => 0x0c,
            Command::GetCamSupported { .. } => 0x0d,
            Command::GetCurrentCam { .. } => 0x0e,
            Command::GetPdos { .. } => 0x10,
            Command::GetCableProperty { .. } => 0x11,
            Command::GetConnectorStatus { .. } => 0x12,
            Command::GetPdMessage { .. } => 0x15,
        }
    }

    /// The command frame as an integer (bit 0 is the frame's first bit), or
    /// the first parameter that does not fit its field.
    pub open spec fn spec_encode(&self) -> Result<nat> {
        let op = self.spec_cmd_number() as nat;
        match *self {
            Command::GetCapability => Ok(op),
            Command::GetConnectorCapability { connector_nr } => connector_frame(op, connector_nr as u64),
            Command::GetCamSupported { connector_nr } => connector_frame(op, connector_nr as u64),
            Command::GetCurrentCam { connector_nr } => connector_frame(op, connector_nr as u64),
            Command::GetCableProperty { connector_nr } => connector_frame(op, connector_nr as u64),
            Command::GetConnectorStatus { connector_nr } => connector_frame(op, connector_nr as u64),
            Command::GetAlternateModes { recipient, connector_nr, offset } => {
                let w = spec_wire_index(connector_nr as u64);
                if w >= 128 {
                    Err(Error::ValueOutOfRange { bits: 7, value: w })
                } else if offset >= 256 {
                    Err(Error::ValueOutOfRange { bits: 8, value: offset as u64 })
                } else {
                    Ok((op + recipient.spec_code() * 0x10000 + w * 0x100_0000 + offset * 0x1_0000_0000) as nat)
                }
            },
            Command::GetPdos {
                connector_nr,
                partner_pdo,
                pdo_offset,
                nr_pdos,
                pdo_type,
                source_capabilities_type,
            } => {
                let w = spec_wire_index(connector_nr as u64);
                if w >= 128 {
                    Err(Error::ValueOutOfRange { bits: 7, value: w })
                } else if pdo_offset >= 256 {
                    Err(Error::ValueOutOfRange { bits: 8, value: pdo_offset as u64 })
                } else if nr_pdos >= 4 {
                    Err(Error::ValueOutOfRange { bits: 2, value: nr_pdos as u64 })
                } else {
                    Ok((op + w * 0x10000 + (if partner_pdo { 1nat } else { 0nat }) * 0x80_0000
                        + pdo_offset * 0x100_0000 + nr_pdos * 0x1_0000_0000
                        + pdo_type.spec_code() * 0x4_0000_0000
                        + source_capabilities_type.spec_code() * 0x8_0000_0000) as nat)
                }
            },
            Command::GetPdMessage { connector_nr, recipient, message_type } => {
                let w = spec_wire_index(connector_nr as u64);
                if w >= 128 {
                    Err(Error::ValueOutOfRange { bits: 7, value: w })
                } else {
                    Ok((op + w * 0x10000 + recipient.spec_code() * 0x80_0000
                        + message_type.spec_code() * 0x400_0000_0000) as nat)
                }
            },
        }
    }

    /// Writes the command frame: the opcode, a zero data length, the
    /// parameters, and zero padding to a whole byte.
    pub fn to_bytes(&self, bw: &mut BitWriter) -> (r: Result<()>)
        requires
            old(bw).wf(),
            old(bw).len() == 0,
            old(bw).bits() == 0,
        ensures
            final(bw).wf(),
            match self.spec_encode() {
                Ok(f) => r == Ok::<(), Error>(()) && final(bw).bits() == f && final(bw).len() % 8
                    == 0,
                Err(e) => r == Err::<(), Error>(e),
            },
    {
        proof {
            lemma2_to64();
            lemma2_to64_rest();
        }
        bw.write(8, self.cmd_number() as u64)?;
        match self {
            Command::GetCapability => {},
            Command::GetConnectorCapability { connector_nr }
            | Command::GetCamSupported { connector_nr }
            | Command::GetCurrentCam { connector_nr }
            | Command::GetCableProperty { connector_nr }
            | Command::GetConnectorStatus { connector_nr } => {
                bw.write(8, 0)?;
                bw.write(7, wire_index(*connector_nr as u64))?;
            },
            Command::GetAlternateModes { recipient, connector_nr, offset } => {
                bw.write(8, 0)?;
                bw.write(3, recipient.code() as u64)?;
                bw.write(5, 0)?;
                bw.write(7, wire_index(*connector_nr as u64))?;
                bw.write(1, 0)?;
                bw.write(8, *offset as u64)?;
            },
            Command::GetPdos {
                connector_nr,
                partner_pdo,
                pdo_offset,
                nr_pdos,
                pdo_type,
                source_capabilities_type,
            } => {
                bw.write(8, 0)?;
                bw.write(7, wire_index(*connector_nr as u64))?;
                bw.write(1, if *partner_pdo { 1 } else { 0 })?;
                bw.write(8, *pdo_offset as u64)?;
                bw.write(2, *nr_pdos as u64)?;
                bw.write(1, pdo_type.code() as u64)?;
                bw.write(2, source_capabilities_type.code() as u64)?;
            },
            Command::GetPdMessage { connector_nr, recipient, message_type } => {
                bw.write(8, 0)?;
                bw.write(7, wire_index(*connector_nr as u64))?;
                bw.write(3, recipient.code() as u64)?;
                bw.write(16, 0)?;
                bw.write(6, message_type.code() as u64)?;
            },
        }
        bw.byte_align();
        Ok(())
    }
}

/// The GET_CONNECTOR_STATUS data.
#[derive(Clone, Debug, PartialEq, Eq, Structural)]
pub struct ConnectorStatus {
    /// The types of status change that occurred on the connector.
    pub connector_status_change: ConnectorStatusChange,
    /// The current power operation mode of the connector.
    pub power_operation_mode: PowerOperationMode,
    /// Whether something is connected.
    pub connect_status: bool,
    /// Whether the connector is a consumer or a provider.
    pub power_direction: PowerDirection,
    /// The mode the connector operates in; valid when connected.
    pub connector_partner_flags: u32,
    /// The type of connector partner detected.
    pub connector_partner_type: ConnectorPartnerType,
    /// The negotiated power level: the operating power in bits 10..20 and
    /// the maximum power in bits 0..10, both in 250 mW units.
    pub negotiated_power_level: u32,
    /// Valid only while the connector operates as a sink.
    pub battery_charging_capability_status: BatteryChargingCapabilityStatus,
    /// Why the provider capabilities of the connector are limited.
    pub provider_capabilities_limited_reason: u32,
    /// The PD revision used during an explicit contract.
    pub pd_version_operation_mode: u32,
    /// Zero in the direct orientation.
    pub orientation: ConnectorOrientation,
    /// The status of the sink path.
    pub sink_path_status: SinkPathStatus,
    /// Set when reverse current protection happened.
    pub reverse_current_protection_status: bool,
    /// Set when the power reading is valid.
    pub power_reading_ready: bool,
    /// The current resolution.
    pub scale_current: u32,
    /// A peak current measurement.
    pub peak_current: u32,
    /// The moving average of the current.
    pub average_current: u32,
    /// The voltage resolution.
    pub scale_voltage: u32,
    /// The most recent VBUS voltage measurement.
    pub voltage_reading: u32,
}

/// The status change bits of GET_CONNECTOR_STATUS.
#[derive(Clone, Copy, Debug, PartialEq, Eq, Structural)]
pub struct ConnectorStatusChange {
    pub reserved1: bool,
    pub external_supply_change: bool,
    pub power_operation_mode_change: bool,
    pub attention: bool,
    pub reserved2: bool,
    pub supported_provider_capabilities_change: bool,
    pub negotiated_power_level_change: bool,
    pub pd_reset_complete: bool,
    pub supported_cam_change: bool,
    pub battery_charging_status_change: bool,
    pub reserved3: bool,
    pub connector_partner_changed: bool,
}

#[derive(Clone, Copy, Debug, PartialEq, Eq, Structural)]
pub enum ConnectorOrientation {
    /// The connection is in the normal orientation.
    Normal,
    /// The connection is in the reverse orientation.
    Reverse,
}

#[derive(Clone, Copy, Debug, PartialEq, Eq, Structural)]
pub enum SinkPathStatus {
    /// The Sink Path is not ready.
    NotReady,
    /// The Sink Path is ready.
    Ready,
}

#[derive(Clone, Copy, Debug, PartialEq, Eq, Structural)]
pub enum PowerOperationMode {
    Reserved,
    UsbDefaultOperation,
    BatteryCharging,
    PowerDelivery,
    UsbTypeCCurrent1_5A,
    UsbTypeCCurrent3A,
    UsbTypeCCurrent5A,
    Reserved2,
}

#[derive(Clone, Copy, Debug, PartialEq, Eq, Structural)]
pub enum PowerDirection {
    Consumer,
    Provider,
}

#[derive(Clone, Copy, Debug, PartialEq, Eq, Structural)]
pub enum ConnectorPartnerType {
    Reserved,
    DfpAttached,
    UfpAttached,
    PoweredCableNoUfpAttached,
    PoweredCableUfpAttached,
    DebugAccessoryAttached,
    AudioAdapterAccessoryAttached,
    Reserved2,
}

#[derive(Clone, Copy, Debug, PartialEq, Eq, Structural)]
pub enum BatteryChargingCapabilityStatus {
    NotCharging,
    NominalChargingRate,
    SlowChargingRate,
    VerySlowChargingRate,
}

/// The base-10 exponent, times 3, applied to the speed mantissa.
#[derive(Clone, Copy, Debug, PartialEq, Eq, Structural)]
pub enum CablePropertySpeedExponent {
    Bps,
    Kbps,
    Mbps,
    Gbps,
}

impl WireCode for CablePropertySpeedExponent {
    open spec fn spec_from_code(v: u32) -> Option<Self> {
        if v == 0 {
            Some(Self::Bps)
        } else if v == 1 {
            Some(Self::Kbps)
        } else if v == 2 {
            Some(Self::Mbps)
        } else if v == 3 {
            Some(Self::Gbps)
        } else {
            None
        }
    }

    open spec fn spec_code(self) -> u32 {
        match self {
            Self::Bps => 0,
            Self::Kbps => 1,
            Self::Mbps => 2,
            Self::Gbps => 3,
        }
    }

    fn n(v: u32) -> (r: Option<Self>) {
        match v {
            0 => Some(Self::Bps),
            1 => Some(Self::Kbps),
            2 => Some(Self::Mbps),
            3 => Some(Self::Gbps),
            _ => None,
        }
    }

    fn code(&self) -> (r: u32) {
        match self {
            Self::Bps => 0,
            Self::Kbps => 1,
            Self::Mbps => 2,
            Self::Gbps => 3,
        }
    }

    proof fn lemma_code_round_trip(self) {
    }

    proof fn lemma_decoded_code(v: u32) {
    }
}

#[derive(Clone, Copy, Debug, PartialEq, Eq, Structural)]
pub enum CablePropertyPlugEndType {
    UsbTypeA,
    UsbTypeB,
    UsbTypeC,
    OtherNotUsb,
}

impl WireCode for CablePropertyPlugEndType {
    open spec fn spec_from_code(v: u32) -> Option<Self> {
        if v == 0 {
            Some(Self::UsbTypeA)
        } else if v == 1 {
            Some(Self::UsbTypeB)
        } else if v == 2 {
            Some(Self::UsbTypeC)
        } else if v == 3 {
            Some(Self::OtherNotUsb)
        } else {
            None
        }
    }

    open spec fn spec_code(self) -> u32 {
        match self {
            Self::UsbTypeA => 0,
            Self::UsbTypeB => 1,
            Self::UsbTypeC => 2,
            Self::OtherNotUsb => 3,
        }
    }

    fn n(v: u32) -> (r: Option<Self>) {
        match v {
            0 => Some(Self::UsbTypeA),
            1 => Some(Self::UsbTypeB),
            2 => Some(Self::UsbTypeC),
            3 => Some(Self::OtherNotUsb),
            _ => None,
        }
    }

    fn code(&self) -> (r: u32) {
        match self {
            Self::UsbTypeA => 0,
            Self::UsbTypeB => 1,
            Self::UsbTypeC => 2,
            Self::OtherNotUsb => 3,
        }
    }

    proof fn lemma_code_round_trip(self) {
    }

    proof fn lemma_decoded_code(v: u32) {
    }
}

#[derive(Clone, Copy, Debug, PartialEq, Eq, Structural)]
pub enum CablePropertyType {
    Passive,
    Active,
}

impl WireCode for CablePropertyType {
    open spec fn spec_from_code(v: u32) -> Option<Self> {
        if v == 0 {
            Some(Self::Passive)
        } else if v == 1 {
            Some(Self::Active)
        } else {
            None
        }
    }

    open spec fn spec_code(self) -> u32 {
        match self {
            Self::Passive => 0,
            Self::Active => 1,
        }
    }

    fn n(v: u32) -> (r: Option<Self>) {
        match v {
            0 => Some(Self::Passive),
            1 => Some(Self::Active),
            _ => None,
        }
    }

    fn code(&self) -> (r: u32) {
        match self {
            Self::Passive => 0,
            Self::Active => 1,
        }
    }

    proof fn lemma_code_round_trip(self) {
    }

    proof fn lemma_decoded_code(v: u32) {
    }
}

#[derive(Clone, Copy, Debug, PartialEq, Eq, Structural)]
pub enum CablePropertyDirectionality {
    Configurable,
    Fixed,
}

impl WireCode for CablePropertyDirectionality {
    open spec fn spec_from_code(v: u32) -> Option<Self> {
        if v == 0 {
            Some(Self::Configurable)
        } else if v == 1 {
            Some(Self::Fixed)
        } else {
            None
        }
    }

    open spec fn spec_code(self) -> u32 {
        match self {
            Self::Configurable => 0,
            Self::Fixed => 1,
        }
    }

    fn n(v: u32) -> (r: Option<Self>) {
        match v {
            0 => Some(Self::Configurable),
            1 => Some(Self::Fixed),
            _ => None,
        }
    }

    fn code(&self) -> (r: u32) {
        match self {
            Self::Configurable => 0,
            Self::Fixed => 1,
        }
    }

    proof fn lemma_code_round_trip(self) {
    }

    proof fn lemma_decoded_code(v: u32) {
    }
}

/// The GET_CABLE_PROPERTY data.
#[derive(Clone, Copy, Debug, PartialEq, Eq, Structural)]
pub struct CableProperty {
    pub speed_exponent: CablePropertySpeedExponent,
    /// The mantissa of the maximum bit rate.
    pub speed_mantissa: u16,
    /// The current the cable is designed for, in 50 mA units.
    pub b_current_capability: u8,
    /// Whether the cable connects VBUS end to end.
    pub vbus_in_cable: bool,
    pub cable_type: CablePropertyType,
    pub directionality: CablePropertyDirectionality,
    pub plug_end_type: CablePropertyPlugEndType,
    /// Whether the (active) cable supports alternate modes.
    pub mode_support: bool,
    /// The cable's major USB PD revision.
    pub cable_pd_revision: u8,
    pub latency: u8,
}

impl CableProperty {
    /// The record of 36 bits at `p`: speed exponent (2), mantissa (14),
    /// current (8), VBUS flag, type (1), directionality (1), plug end (2),
    /// mode support, PD revision (2), latency (4).
    pub open spec fn spec_decode(d: Seq<u8>, p: int) -> Result<CableProperty> {
        if !has_bits(d, p, 36) {
            Err(Error::UnexpectedEof)
        } else {
            Ok(CableProperty {
                speed_exponent: CablePropertySpeedExponent::spec_from_code(field(d, p, 0, 2)).unwrap(),
                speed_mantissa: field(d, p, 2, 14) as u16,
                b_current_capability: field(d, p, 16, 8) as u8,
                vbus_in_cable: field(d, p, 24, 1) == 1,
                cable_type: CablePropertyType::spec_from_code(field(d, p, 25, 1)).unwrap(),
                directionality: CablePropertyDirectionality::spec_from_code(field(d, p, 26, 1)).unwrap(),
                plug_end_type: CablePropertyPlugEndType::spec_from_code(field(d, p, 27, 2)).unwrap(),
                mode_support: field(d, p, 29, 1) == 1,
                cable_pd_revision: field(d, p, 30, 2) as u8,
                latency: field(d, p, 32, 4) as u8,
            })
        }
    }

    pub fn from_bytes(reader: &mut BitReader) -> (r: Result<Self>)
        requires
            old(reader).wf(),
        ensures
            final(reader).wf(),
            final(reader).data() == old(reader).data(),
            r == Self::spec_decode(old(reader).data(), old(reader).pos() as int),
            r is Ok ==> final(reader).pos() == old(reader).pos() + 36,
    {
        let ghost d = reader.data();
        let ghost p = reader.pos() as int;
        proof {
            lemma_field_bound(d, p, 0, 2);
            lemma_field_bound(d, p, 25, 1);
            lemma_field_bound(d, p, 26, 1);
            lemma_field_bound(d, p, 27, 2);
            lemma2_to64();
        }
        let speed_exponent = reader.read(2)?;
        let speed_exponent = match CablePropertySpeedExponent::n(speed_exponent) {
            Some(e) => e,
            None => return Err(Error::ParseError { field: "speed_exponent", value: speed_exponent }),
        };
        let speed_mantissa = reader.read(14)? as u16;
        let b_current_capability = reader.read(8)? as u8;
        let vbus_in_cable = reader.read_bit()?;
        let cable_type = reader.read(1)?;
        let cable_type = match CablePropertyType::n(cable_type) {
            Some(e) => e,
            None => return Err(Error::ParseError { field: "cable_type", value: cable_type }),
        };
        let directionality = reader.read(1)?;
        let directionality = match CablePropertyDirectionality::n(directionality) {
            Some(e) => e,
            None => return Err(Error::ParseError { field: "directionality", value: directionality }),
        };
        let plug_end_type = reader.read(2)?;
        let plug_end_type = match CablePropertyPlugEndType::n(plug_end_type) {
            Some(e) => e,
            None => return Err(Error::ParseError { field: "plug_end_type", value: plug_end_type }),
        };
        let mode_support = reader.read_bit()?;
        let cable_pd_revision = reader.read(2)? as u8;
        let latency = reader.read(4)? as u8;
        Ok(CableProperty {
            speed_exponent,
            speed_mantissa,
            b_current_capability,
            vbus_in_cable,
            cable_type,
            directionality,
            plug_end_type,
            mode_support,
            cable_pd_revision,
            latency,
        })
    }
}

/// The GET_ALTERNATE_MODES data: two (SVID, VDO) descriptors.
#[derive(Clone, Copy, Debug, PartialEq, Eq)]
pub struct AlternateMode {
    pub svid: [u32; 2],
    pub vdo: [u32; 2],
}

impl AlternateMode {
    /// The record of 96 bits at `p`: SVID (16), VDO (32), SVID (16), VDO (32).
    pub open spec fn spec_decode(d: Seq<u8>, p: int) -> Result<AlternateMode> {
        if !has_bits(d, p, 96) {
            Err(Error::UnexpectedEof)
        } else {
            Ok(AlternateMode {
                svid: [field(d, p, 0, 16), field(d, p, 48, 16)],
                vdo: [field(d, p, 16, 32), field(d, p, 64, 32)],
            })
        }
    }

    pub fn from_bytes(reader: &mut BitReader) -> (r: Result<Self>)
        requires
            old(reader).wf(),
        ensures
            final(reader).wf(),
            final(reader).data() == old(reader).data(),
            r == Self::spec_decode(old(reader).data(), old(reader).pos() as int),
            r is Ok ==> final(reader).pos() == old(reader).pos() + 96,
    {
        let svid_0 = reader.read(16)?;
        let vdo_0 = reader.read(32)?;
        let svid_1 = reader.read(16)?;
        let vdo_1 = reader.read(32)?;
        Ok(AlternateMode { svid: [svid_0, svid_1], vdo: [vdo_0, vdo_1] })
    }
}

/// The GET_CAM_SUPPORTED data.
#[derive(Clone, Copy, Debug, PartialEq, Eq, Structural)]
pub struct CamSupported {
    /// Whether an alternate mode is supported.
    pub cam_supported: bool,
}

/// Offsets into the list of alternate modes that the connector currently
/// operates in; 0xFF where it operates in none.
#[derive(Clone, Copy, Debug, PartialEq, Eq)]
pub struct CurrentAlternatingModes {
    pub current_alternate_mode: [usize; 128],
}

/// The operation modes a connector supports, as a set of bit flags.
#[derive(Clone, Copy, Debug, PartialEq, Eq, Structural)]
pub struct ConnectorCapabilityOperationMode(pub u8);

impl ConnectorCapabilityOperationMode {
    pub const RP_ONLY: u8 = 0b00000001;
    pub const RD_ONLY: u8 = 0b00000010;
    pub const DRP: u8 = 0b00000100;
    pub const ANALOG_AUDIO_ACCESSORY_MODE: u8 = 0b00001000;
    pub const DEBUG_ACCESSORY_MODE: u8 = 0b00010000;
    pub const USB2: u8 = 0b00100000;
    pub const USB3: u8 = 0b01000000;
    pub const ALTERNATE_MODE: u8 = 0b10000000;

    /// The flags as a byte.
    pub fn bits(&self) -> (r: u8)
        ensures
            r == self.0,
    {
        self.0
    }
}

/// Connector capability data extended operation mode.
#[derive(Clone, Copy, Debug, PartialEq, Eq, Structural)]
pub enum ConnectorCapabilityExtendedOperationMode {
    Usb4Gen2,
    EprSource,
    EprSink,
    Usb4Gen3,
    Usb4Gen4,
}

impl WireCode for ConnectorCapabilityExtendedOperationMode {
    open spec fn spec_from_code(v: u32) -> Option<Self> {
        if v == 0 {
            Some(Self::Usb4Gen2)
        } else if v == 1 {
            Some(Self::EprSource)
        } else if v == 2 {
            Some(Self::EprSink)
        } else if v == 3 {
            Some(Self::Usb4Gen3)
        } else if v == 4 {
            Some(Self::Usb4Gen4)
        } else {
            None
        }
    }

    open spec fn spec_code(self) -> u32 {
        match self {
            Self::Usb4Gen2 => 0,
            Self::EprSource => 1,
            Self::EprSink => 2,
            Self::Usb4Gen3 => 3,
            Self::Usb4Gen4 => 4,
        }
    }

    fn n(v: u32) -> (r: Option<Self>) {
        match v {
            0 => Some(Self::Usb4Gen2),
            1 => Some(Self::EprSource),
            2 => Some(Self::EprSink),
            3 => Some(Self::Usb4Gen3),
            4 => Some(Self::Usb4Gen4),
            _ => None,
        }
    }

    fn code(&self) -> (r: u32) {
        match self {
            Self::Usb4Gen2 => 0,
            Self::EprSource => 1,
            Self::EprSink => 2,
            Self::Usb4Gen3 => 3,
            Self::Usb4Gen4 => 4,
        }
    }

    proof fn lemma_code_round_trip(self) {
    }

    proof fn lemma_decoded_code(v: u32) {
    }
}

/// Connector capability data miscellaneous capabilities.
#[derive(Clone, Copy, Debug, PartialEq, Eq, Structural)]
pub enum ConnectorCapabilityMiscellaneousCapabilities {
    FwUpdate,
    Security,
}

impl WireCode for ConnectorCapabilityMiscellaneousCapabilities {
    open spec fn spec_from_code(v: u32) -> Option<Self> {
        if v == 0 {
            Some(Self::FwUpdate)
        } else if v == 1 {
            Some(Self::Security)
        } else {
            None
        }
    }

    open spec fn spec_code(self) -> u32 {
        match self {
            Self::FwUpdate => 0,
            Self::Security => 1,
        }
    }

    fn n(v: u32) -> (r: Option<Self>) {
        match v {
            0 => Some(Self::FwUpdate),
            1 => Some(Self::Security),
            _ => None,
        }
    }

    fn code(&self) -> (r: u32) {
        match self {
            Self::FwUpdate => 0,
            Self::Security => 1,
        }
    }

    proof fn lemma_code_round_trip(self) {
    }

    proof fn lemma_decoded_code(v: u32) {
    }
}

/// The GET_CONNECTOR_CAPABILITY data.
#[derive(Clone, Copy, Debug, PartialEq, Eq, Structural)]
pub struct ConnectorCapability {
    /// The modes the connector supports.
    pub operation_mode: ConnectorCapabilityOperationMode,
    /// Whether the connector can provide power.
    pub provider: bool,
    /// Whether the connector can consume power.
    pub consumer: bool,
    /// Whether the connector accepts a swap to DFP.
    pub swap_to_dfp: bool,
    /// Whether the connector accepts a swap to UFP.
    pub swap_to_ufp: bool,
    /// Whether the connector accepts a swap to source.
    pub swap_to_src: bool,
    /// Whether the connector accepts a swap to sink.
    pub swap_to_snk: bool,
    pub extended_operation_mode: ConnectorCapabilityExtendedOperationMode,
    pub miscellaneous_capabilities: ConnectorCapabilityMiscellaneousCapabilities,
    /// Whether the LPM supports reverse current protection.
    pub reverse_current_protection_support: bool,
    /// The partner's major USB PD revision.
    pub partner_pd_revision: u8,
}

impl ConnectorCapability {
    /// The record of 29 bits at `p`: operation mode (8), six flags,
    /// extended operation mode (8), miscellaneous capabilities (4), a flag
    /// and the partner PD revision (2).
    pub open spec fn spec_decode(d: Seq<u8>, p: int) -> Result<ConnectorCapability> {
        let ext = field(d, p, 14, 8);
        let misc = field(d, p, 22, 4);
        if !has_bits(d, p, 22) {
            Err(Error::UnexpectedEof)
        } else if ConnectorCapabilityExtendedOperationMode::spec_from_code(ext) is None {
            Err(Error::ParseError { field: "extended_operation_mode", value: ext })
        } else if !has_bits(d, p, 26) {
            Err(Error::UnexpectedEof)
        } else if ConnectorCapabilityMiscellaneousCapabilities::spec_from_code(misc) is None {
            Err(Error::ParseError { field: "miscellaneous_capabilities", value: misc })
        } else if !has_bits(d, p, 29) {
            Err(Error::UnexpectedEof)
        } else {
            Ok(ConnectorCapability {
                operation_mode: ConnectorCapabilityOperationMode(field(d, p, 0, 8) as u8),
                provider: field(d, p, 8, 1) == 1,
                consumer: field(d, p, 9, 1) == 1,
                swap_to_dfp: field(d, p, 10, 1) == 1,
                swap_to_ufp: field(d, p, 11, 1) == 1,
                swap_to_src: field(d, p, 12, 1) == 1,
                swap_to_snk: field(d, p, 13, 1) == 1,
                extended_operation_mode: ConnectorCapabilityExtendedOperationMode::spec_from_code(
                    ext,
                ).unwrap(),
                miscellaneous_capabilities:
                    ConnectorCapabilityMiscellaneousCapabilities::spec_from_code(misc).unwrap(),
                reverse_current_protection_support: field(d, p, 26, 1) == 1,
                partner_pd_revision: field(d, p, 27, 2) as u8,
            })
        }
    }

    pub fn from_bytes(reader: &mut BitReader) -> (r: Result<Self>)
        requires
            old(reader).wf(),
        ensures
            final(reader).wf(),
            final(reader).data() == old(reader).data(),
            r == Self::spec_decode(old(reader).data(), old(reader).pos() as int),
            r is Ok ==> final(reader).pos() == old(reader).pos() + 29,
    {
        let operation_mode = ConnectorCapabilityOperationMode(reader.read(8)? as u8);
        let provider = reader.read_bit()?;
        let consumer = reader.read_bit()?;
        let swap_to_dfp = reader.read_bit()?;
        let swap_to_ufp = reader.read_bit()?;
        let swap_to_src = reader.read_bit()?;
        let swap_to_snk = reader.read_bit()?;
        let ext = reader.read(8)?;
        let extended_operation_mode = match ConnectorCapabilityExtendedOperationMode::n(ext) {
            Some(e) => e,
            None => return Err(Error::ParseError { field: "extended_operation_mode", value: ext }),
        };
        let misc = reader.read(4)?;
        let miscellaneous_capabilities = match ConnectorCapabilityMiscellaneousCapabilities::n(misc) {
            Some(e) => e,
            None => return Err(Error::ParseError { field: "miscellaneous_capabilities", value: misc }),
        };
        let reverse_current_protection_support = reader.read_bit()?;
        let partner_pd_revision = reader.read(2)? as u8;
        Ok(ConnectorCapability {
            operation_mode,
            provider,
            consumer,
            swap_to_dfp,
            swap_to_ufp,
            swap_to_src,
            swap_to_snk,
            extended_operation_mode,
            miscellaneous_capabilities,
            reverse_current_protection_support,
            partner_pd_revision,
        })
    }
}

/// A connector capability whose extended operation mode or miscellaneous
/// capabilities code is outside its table fails with a parse error naming
/// that field and holding the code (the first of the two, in frame order).
pub proof fn lemma_connector_capability_names_unknown_code(d: Seq<u8>, p: int)
    requires
        has_bits(d, p, 29),
        ConnectorCapabilityExtendedOperationMode::spec_from_code(field(d, p, 14, 8)) is None
            || ConnectorCapabilityMiscellaneousCapabilities::spec_from_code(field(d, p, 22, 4)) is None,
    ensures
        ConnectorCapabilityExtendedOperationMode::spec_from_code(field(d, p, 14, 8)) is None
            ==> ConnectorCapability::spec_decode(d, p) == Err::<ConnectorCapability, Error>(
            Error::ParseError { field: "extended_operation_mode", value: field(d, p, 14, 8) },
        ),
        ConnectorCapabilityExtendedOperationMode::spec_from_code(field(d, p, 14, 8)) is Some
            ==> ConnectorCapability::spec_decode(d, p) == Err::<ConnectorCapability, Error>(
            Error::ParseError { field: "miscellaneous_capabilities", value: field(d, p, 22, 4) },
        ),
{
}

/// The GET_CAPABILITY data.
#[derive(Clone, Copy, Debug, PartialEq, Eq, Structural)]
pub struct Capability {
    /// The supported PPM features.
    pub bm_attributes: BmAttributes,
    /// The number of connectors of the PPM (zero is illegal).
    pub num_connectors: usize,
    /// The optional features supported.
    pub bm_optional_features: BmOptionalFeatures,
    /// The number of alternate modes the PPM supports.
    pub num_alt_modes: usize,
    /// Battery Charging specification release number.
    pub bc_version: BcdWrapper,
    /// USB Power Delivery specification revision number.
    pub pd_version: BcdWrapper,
    /// USB Type-C specification release number.
    pub usb_type_c_version: BcdWrapper,
}

impl Capability {
    /// The record of 128 bits at `p`: attributes (32), connector count (7),
    /// a reserved bit, optional features (24), alternate mode count (8), 8
    /// reserved bits and three 16-bit BCD versions.
    pub open spec fn spec_decode(d: Seq<u8>, p: int) -> Result<Capability> {
        if !has_bits(d, p, 128) {
            Err(Error::UnexpectedEof)
        } else {
            Ok(Capability {
                bm_attributes: BmAttributes::spec_at(d, p),
                num_connectors: field(d, p, 32, 7) as usize,
                bm_optional_features: BmOptionalFeatures::spec_at(d, p + 40),
                num_alt_modes: field(d, p, 64, 8) as usize,
                bc_version: BcdWrapper(field(d, p, 80, 16)),
                pd_version: BcdWrapper(field(d, p, 96, 16)),
                usb_type_c_version: BcdWrapper(field(d, p, 112, 16)),
            })
        }
    }

    pub fn from_bytes(reader: &mut BitReader) -> (r: Result<Self>)
        requires
            old(reader).wf(),
        ensures
            final(reader).wf(),
            final(reader).data() == old(reader).data(),
            r == Self::spec_decode(old(reader).data(), old(reader).pos() as int),
            r is Ok ==> final(reader).pos() == old(reader).pos() + 128,
    {
        let bm_attributes = BmAttributes::from_bytes(reader)?;
        let num_connectors = reader.read(7)? as usize;
        reader.skip(1)?;
        let bm_optional_features = BmOptionalFeatures::from_bytes(reader)?;
        let num_alt_modes = reader.read(8)? as usize;
        reader.skip(8)?;
        let bc_version = BcdWrapper(reader.read(16)?);
        let pd_version = BcdWrapper(reader.read(16)?);
        let usb_type_c_version = BcdWrapper(reader.read(16)?);
        Ok(Capability {
            bm_attributes,
            num_connectors,
            bm_optional_features,
            num_alt_modes,
            bc_version,
            pd_version,
            usb_type_c_version,
        })
    }
}

/// The bmAttributes field of GET_CAPABILITY.
#[derive(Clone, Copy, Debug, PartialEq, Eq, Structural)]
pub struct BmAttributes {
    /// Whether the platform supports the Disabled State.
    pub disabled_state_support: bool,
    /// Whether the platform supports Battery Charging.
    pub battery_charging: bool,
    /// Whether the platform supports USB Power Delivery.
    pub usb_power_delivery: bool,
    /// Whether the platform supports USB Type-C current.
    pub usb_type_c_current: bool,
    /// Which power sources are supported.
    pub bm_power_source: BmPowerSource,
}

impl BmAttributes {
    /// The 32 bits at `p`: three flags, 3 reserved bits, a flag, a reserved
    /// bit, the power source (8) and 16 reserved bits.
    pub open spec fn spec_at(d: Seq<u8>, p: int) -> BmAttributes {
        BmAttributes {
            disabled_state_support: field(d, p, 0, 1) == 1,
            battery_charging: field(d, p, 1, 1) == 1,
            usb_power_delivery: field(d, p, 2, 1) == 1,
            usb_type_c_current: field(d, p, 6, 1) == 1,
            bm_power_source: BmPowerSource::spec_at(d, p + 8),
        }
    }

    pub fn from_bytes(reader: &mut BitReader) -> (r: Result<Self>)
        requires
            old(reader).wf(),
        ensures
            final(reader).wf(),
            final(reader).data() == old(reader).data(),
            has_bits(old(reader).data(), old(reader).pos() as int, 32) ==> r == Ok::<Self, Error>(
                Self::spec_at(old(reader).data(), old(reader).pos() as int),
            ) && final(reader).pos() == old(reader).pos() + 32,
            !has_bits(old(reader).data(), old(reader).pos() as int, 32) ==> r == Err::<Self, Error>(
                Error::UnexpectedEof,
            ),
    {
        let disabled_state_support = reader.read_bit()?;
        let battery_charging = reader.read_bit()?;
        let usb_power_delivery = reader.read_bit()?;
        reader.skip(3)?;
        let usb_type_c_current = reader.read_bit()?;
        reader.skip(1)?;
        let bm_power_source = BmPowerSource::from_bytes(reader)?;
        reader.skip(16)?;
        Ok(BmAttributes {
            disabled_state_support,
            battery_charging,
            usb_power_delivery,
            usb_type_c_current,
            bm_power_source,
        })
    }
}

/// The bmOptionalFeatures field of GET_CAPABILITY.
#[derive(Clone, Copy, Debug, PartialEq, Eq, Structural)]
pub struct BmOptionalFeatures {
    pub set_ccom_supported: bool,
    pub set_power_level_supported: bool,
    pub alternate_mode_details_supported: bool,
    pub alternate_mode_override_supported: bool,
    pub pdo_details_supported: bool,
    pub cable_details_supported: bool,
    pub external_supply_notification_supported: bool,
    pub pd_reset_notification_supported: bool,
    pub get_pd_message_supported: bool,
    pub get_attention_vdo_supported: bool,
    pub fw_update_request_supported: bool,
    pub negotiated_power_level_change_supported: bool,
    pub security_request_supported: bool,
    pub set_retimer_mode_supported: bool,
    pub chunking_supported: bool,
}

impl BmOptionalFeatures {
    /// The 24 bits at `p`: fifteen flags and 9 reserved bits.
    pub open spec fn spec_at(d: Seq<u8>, p: int) -> BmOptionalFeatures {
        BmOptionalFeatures {
            set_ccom_supported: field(d, p, 0, 1) == 1,
            set_power_level_supported: field(d, p, 1, 1) == 1,
            alternate_mode_details_supported: field(d, p, 2, 1) == 1,
            alternate_mode_override_supported: field(d, p, 3, 1) == 1,
            pdo_details_supported: field(d, p, 4, 1) == 1,
            cable_details_supported: field(d, p, 5, 1) == 1,
            external_supply_notification_supported: field(d, p, 6, 1) == 1,
            pd_reset_notification_supported: field(d, p, 7, 1) == 1,
            get_pd_message_supported: field(d, p, 8, 1) == 1,
            get_attention_vdo_supported: field(d, p, 9, 1) == 1,
            fw_update_request_supported: field(d, p, 10, 1) == 1,
            negotiated_power_level_change_supported: field(d, p, 11, 1) == 1,
            security_request_supported: field(d, p, 12, 1) == 1,
            set_retimer_mode_supported: field(d, p, 13, 1) == 1,
            chunking_supported: field(d, p, 14, 1) == 1,
        }
    }

    pub fn from_bytes(reader: &mut BitReader) -> (r: Result<Self>)
        requires
            old(reader).wf(),
        ensures
            final(reader).wf(),
            final(reader).data() == old(reader).data(),
            has_bits(old(reader).data(), old(reader).pos() as int, 24) ==> r == Ok::<Self, Error>(
                Self::spec_at(old(reader).data(), old(reader).pos() as int),
            ) && final(reader).pos() == old(reader).pos() + 24,
            !has_bits(old(reader).data(), old(reader).pos() as int, 24) ==> r == Err::<Self, Error>(
                Error::UnexpectedEof,
            ),
    {
        if reader.remaining() < 24 {
            return Err(Error::UnexpectedEof);
        }
        let set_ccom_supported = reader.read_bit().unwrap();
        let set_power_level_supported = reader.read_bit().unwrap();
        let alternate_mode_details_supported = reader.read_bit().unwrap();
        let alternate_mode_override_supported = reader.read_bit().unwrap();
        let pdo_details_supported = reader.read_bit().unwrap();
        let cable_details_supported = reader.read_bit().unwrap();
        let external_supply_notification_supported = reader.read_bit().unwrap();
        let pd_reset_notification_supported = reader.read_bit().unwrap();
        let get_pd_message_supported = reader.read_bit().unwrap();
        let get_attention_vdo_supported = reader.read_bit().unwrap();
        let fw_update_request_supported = reader.read_bit().unwrap();
        let negotiated_power_level_change_supported = reader.read_bit().unwrap();
        let security_request_supported = reader.read_bit().unwrap();
        let set_retimer_mode_supported = reader.read_bit().unwrap();
        let chunking_supported = reader.read_bit().unwrap();
        reader.skip(9).unwrap();
        Ok(BmOptionalFeatures {
            set_ccom_supported,
            set_power_level_supported,
            alternate_mode_details_supported,
            alternate_mode_override_supported,
            pdo_details_supported,
            cable_details_supported,
            external_supply_notification_supported,
            pd_reset_notification_supported,
            get_pd_message_supported,
            get_attention_vdo_supported,
            fw_update_request_supported,
            negotiated_power_level_change_supported,
            security_request_supported,
            set_retimer_mode_supported,
            chunking_supported,
        })
    }
}

/// The power sources of bmAttributes.
#[derive(Clone, Copy, Debug, PartialEq, Eq, Structural)]
pub struct BmPowerSource {
    pub ac_supply: bool,
    pub other: bool,
    pub uses_vbus: bool,
}

impl BmPowerSource {
    /// The 8 bits at `p`: AC supply at 0, other at 2, VBUS at 6.
    pub open spec fn spec_at(d: Seq<u8>, p: int) -> BmPowerSource {
        BmPowerSource {
            ac_supply: field(d, p, 0, 1) == 1,
            other: field(d, p, 2, 1) == 1,
            uses_vbus: field(d, p, 6, 1) == 1,
        }
    }

    pub fn from_bytes(reader: &mut BitReader) -> (r: Result<Self>)
        requires
            old(reader).wf(),
        ensures
            final(reader).wf(),
            final(reader).data() == old(reader).data(),
            has_bits(old(reader).data(), old(reader).pos() as int, 8) ==> r == Ok::<Self, Error>(
                Self::spec_at(old(reader).data(), old(reader).pos() as int),
            ) && final(reader).pos() == old(reader).pos() + 8,
            !has_bits(old(reader).data(), old(reader).pos() as int, 8) ==> r == Err::<Self, Error>(
                Error::UnexpectedEof,
            ),
    {
        let ac_supply = reader.read_bit()?;
        reader.skip(1)?;
        let other = reader.read_bit()?;
        reader.skip(3)?;
        let uses_vbus = reader.read_bit()?;
        reader.skip(1)?;
        Ok(BmPowerSource { ac_supply, other, uses_vbus })
    }
}

} // verus!
