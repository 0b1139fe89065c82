//! USB Power Delivery 3.2 vendor defined objects.
use vstd::prelude::*;

use crate::codec::field;
use crate::codec::has_bits;
use crate::codec::lemma_field_bound;
use crate::codec::BitReader;
use crate::BcdWrapper;
use crate::Error;
use crate::Milliohm;
use crate::Result;
use crate::WireCode;

verus! {

/// The maximum VBUS voltage of a VPD.
#[derive(Clone, Copy, Debug, PartialEq, Eq, Structural)]
pub enum MaxVbusVoltage {
    /// 20V
    V20,
    /// 30V (deprecated)
    V30,
    /// 40V (deprecated)
    V40,
    /// 50V (deprecated)
    V50,
}

impl WireCode for MaxVbusVoltage {
    open spec fn spec_from_code(v: u32) -> Option<Self> {
        if v == 0 {
            Some(Self::V20)
        } else if v == 1 {
            Some(Self::V30)
        } else if v == 2 {
            Some(Self::V40)
        } else if v == 3 {
            Some(Self::V50)
        } else {
            None
        }
    }

    open spec fn spec_code(self) -> u32 {
        match self {
            Self::V20 => 0,
            Self::V30 => 1,
            Self::V40 => 2,
            Self::V50 => 3,
        }
    }

    fn n(v: u32) -> (r: Option<Self>) {
        match v {
            0 => Some(Self::V20),
            1 => Some(Self::V30),
            2 => Some(Self::V40),
            3 => Some(Self::V50),
            _ => None,
        }
    }

    fn code(&self) -> (r: u32) {
        match self {
            Self::V20 => 0,
            Self::V30 => 1,
            Self::V40 => 2,
            Self::V50 => 3,
        }
    }

    proof fn lemma_code_round_trip(self) {
    }

    proof fn lemma_decoded_code(v: u32) {
    }
}

/// Whether a VPD supports charge through.
#[derive(Clone, Copy, Debug, PartialEq, Eq, Structural)]
pub enum ChargeThroughSupport {
    NotSupported,
    Supported,
}

impl WireCode for ChargeThroughSupport {
    open spec fn spec_from_code(v: u32) -> Option<Self> {
        if v == 0 {
            Some(Self::NotSupported)
        } else if v == 1 {
            Some(Self::Supported)
        } else {
            None
        }
    }

    open spec fn spec_code(self) -> u32 {
        match self {
            Self::NotSupported => 0,
            Self::Supported => 1,
        }
    }

    fn n(v: u32) -> (r: Option<Self>) {
        match v {
            0 => Some(Self::NotSupported),
            1 => Some(Self::Supported),
            _ => None,
        }
    }

    fn code(&self) -> (r: u32) {
        match self {
            Self::NotSupported => 0,
            Self::Supported => 1,
        }
    }

    proof fn lemma_code_round_trip(self) {
    }

    proof fn lemma_decoded_code(v: u32) {
    }
}

/// The VPD VDO.
#[derive(Clone, Copy, Debug, PartialEq, Eq, Structural)]
pub struct Vpd {
    pub hw_version: u8,
    pub firmware_version: u8,
    /// The version of the VDO (not of the specification).
    pub vdo_version: u8,
    pub max_vbus_voltage: MaxVbusVoltage,
    pub charge_through_current_support: bool,
    pub vbus_impedance: Milliohm,
    pub ground_impedance: Milliohm,
    pub charge_through_support: ChargeThroughSupport,
}

impl Vpd {
    /// The 27 bits at `p`: hardware version (4), firmware version (4), VDO
    /// version (3), maximum VBUS voltage (2), a flag, VBUS impedance (6),
    /// ground impedance (6) and charge through support (1).
    pub open spec fn spec_decode(d: Seq<u8>, p: int) -> Result<Vpd> {
        if !has_bits(d, p, 27) {
            Err(Error::UnexpectedEof)
        } else {
            Ok(Vpd {
                hw_version: field(d, p, 0, 4) as u8,
                firmware_version: field(d, p, 4, 4) as u8,
                vdo_version: field(d, p, 8, 3) as u8,
                max_vbus_voltage: MaxVbusVoltage::spec_from_code(field(d, p, 11, 2)).unwrap(),
                charge_through_current_support: field(d, p, 13, 1) == 1,
                vbus_impedance: Milliohm(field(d, p, 14, 6)),
                ground_impedance: Milliohm(field(d, p, 20, 6)),
                charge_through_support: ChargeThroughSupport::spec_from_code(field(d, p, 26, 1)).unwrap(),
            })
        }
    }

    pub fn from_bytes(reader: &mut BitReader) -> (r: Result<Self>)
        requires
            old(reader).wf(),
        ensures
            final(reader).wf(),
            final(reader).data() == old(reader).data(),
            r == Self::spec_decode(old(reader).data(), old(reader).pos() as int),
    {
        let ghost d = reader.data();
        let ghost p = reader.pos() as int;
        if reader.remaining() < 27 {
            return Err(Error::UnexpectedEof);
        }
        proof {
            lemma_field_bound(d, p, 11, 2);
            lemma_field_bound(d, p, 26, 1);
            vstd::arithmetic::power2::lemma2_to64();
        }
        let hw_version = reader.read(4).unwrap() as u8;
        let firmware_version = reader.read(4).unwrap() as u8;
        let vdo_version = reader.read(3).unwrap() as u8;
        let max_vbus_voltage = reader.read(2).unwrap();
        let max_vbus_voltage = match MaxVbusVoltage::n(max_vbus_voltage) {
            Some(e) => e,
            None => return Err(Error::ParseError { field: "max_vbus_voltage", value: max_vbus_voltage }),
        };
        let charge_through_current_support = reader.read_bit().unwrap();
        let vbus_impedance = Milliohm(reader.read(6).unwrap());
        let ground_impedance = Milliohm(reader.read(6).unwrap());
        let charge_through_support = reader.read(1).unwrap();
        let charge_through_support = match ChargeThroughSupport::n(charge_through_support) {
            Some(e) => e,
            None => return Err(
                Error::ParseError { field: "charge_through_support", value: charge_through_support },
            ),
        };
        Ok(Vpd {
            hw_version,
            firmware_version,
            vdo_version,
            max_vbus_voltage,
            charge_through_current_support,
            vbus_impedance,
            ground_impedance,
            charge_through_support,
        })
    }
}

/// The version of a UFP VDO.
#[derive(Clone, Copy, Debug, PartialEq, Eq, Structural)]
pub enum UfpVersion {
    Unknown,
    /// Version 1.3.
    V1_3,
}

impl WireCode for UfpVersion {
    open spec fn spec_from_code(v: u32) -> Option<Self> {
        if v == 0 {
            Some(Self::Unknown)
        } else if v == 3 {
            Some(Self::V1_3)
        } else {
            None
        }
    }

    open spec fn spec_code(self) -> u32 {
        match self {
            Self::Unknown => 0,
            Self::V1_3 => 3,
        }
    }

    fn n(v: u32) -> (r: Option<Self>) {
        match v {
            0 => Some(Self::Unknown),
            3 => Some(Self::V1_3),
            _ => None,
        }
    }

    fn code(&self) -> (r: u32) {
        match self {
            Self::Unknown => 0,
            Self::V1_3 => 3,
        }
    }

    proof fn lemma_code_round_trip(self) {
    }

    proof fn lemma_decoded_code(v: u32) {
    }
}

/// The USB device capability of a UFP.
#[derive(Clone, Copy, Debug, PartialEq, Eq, Structural)]
pub enum UfpDeviceCapability {
    /// USB 2.0 device capable.
    Usb2_0,
    /// USB 2.0 device capable (billboard only).
    Usb2_0Billboard,
    /// USB 3.2 device capable.
    Usb3_2,
    /// USB4 device capable.
    Usb4,
}

impl WireCode for UfpDeviceCapability {
    open spec fn spec_from_code(v: u32) -> Option<Self> {
        if v == 0 {
            Some(Self::Usb2_0)
        } else if v == 1 {
            Some(Self::Usb2_0Billboard)
        } else if v == 2 {
            Some(Self::Usb3_2)
        } else if v == 3 {
            Some(Self::Usb4)
        } else {
            None
        }
    }

    open spec fn spec_code(self) -> u32 {
        match self {
            Self::Usb2_0 => 0,
            Self::Usb2_0Billboard => 1,
            Self::Usb3_2 => 2,
            Self::Usb4 => 3,
        }
    }

    fn n(v: u32) -> (r: Option<Self>) {
        match v {
            0 => Some(Self::Usb2_0),
            1 => Some(Self::Usb2_0Billboard),
            2 => Some(Self::Usb3_2),
            3 => Some(Self::Usb4),
            _ => None,
        }
    }

    fn code(&self) -> (r: u32) {
        match self {
            Self::Usb2_0 => 0,
            Self::Usb2_0Billboard => 1,
            Self::Usb3_2 => 2,
            Self::Usb4 => 3,
        }
    }

    proof fn lemma_code_round_trip(self) {
    }

    proof fn lemma_decoded_code(v: u32) {
    }
}

/// The VCONN power a UFP needs.
#[derive(Clone, Copy, Debug, PartialEq, Eq, Structural)]
pub enum UfpVConnPower {
    /// 1W
    W1,
    /// 1.5W
    W1_5,
    /// 2W
    W2,
    /// 3W
    W3,
    /// 4W
    W4,
    /// 5W
    W5,
    /// 6W
    W6,
}

impl WireCode for UfpVConnPower {
    open spec fn spec_from_code(v: u32) -> Option<Self> {
        if v == 0 {
            Some(Self::W1)
        } else if v == 1 {
            Some(Self::W1_5)
        } else if v == 2 {
            Some(Self::W2)
        } else if v == 3 {
            Some(Self::W3)
        } else if v == 4 {
            Some(Self::W4)
        } else if v == 5 {
            Some(Self::W5)
        } else if v == 6 {
            Some(Self::W6)
        } else {
            None
        }
    }

    open spec fn spec_code(self) -> u32 {
        match self {
            Self::W1 => 0,
            Self::W1_5 => 1,
            Self::W2 => 2,
            Self::W3 => 3,
            Self::W4 => 4,
            Self::W5 => 5,
            Self::W6 => 6,
        }
    }

    fn n(v: u32) -> (r: Option<Self>) {
        match v {
            0 => Some(Self::W1),
            1 => Some(Self::W1_5),
            2 => Some(Self::W2),
            3 => Some(Self::W3),
            4 => Some(Self::W4),
            5 => Some(Self::W5),
            6 => Some(Self::W6),
            _ => None,
        }
    }

    fn code(&self) -> (r: u32) {
        match self {
            Self::W1 => 0,
            Self::W1_5 => 1,
            Self::W2 => 2,
            Self::W3 => 3,
            Self::W4 => 4,
            Self::W5 => 5,
            Self::W6 => 6,
        }
    }

    proof fn lemma_code_round_trip(self) {
    }

    proof fn lemma_decoded_code(v: u32) {
    }
}

/// The kinds of alternate modes a UFP supports.
#[derive(Clone, Copy, Debug, PartialEq, Eq, Structural)]
pub enum UfpAlternateModes {
    /// Supports the TBT3 alternate mode.
    Tbt3,
    /// Supports alternate modes that reconfigure the connector signals.
    Reconfigurable,
    /// Supports alternate modes that do not reconfigure the connector signals.
    NonReconfigurable,
}

impl WireCode for UfpAlternateModes {
    open spec fn spec_from_code(v: u32) -> Option<Self> {
        if v == 0 {
            Some(Self::Tbt3)
        } else if v == 1 {
            Some(Self::Reconfigurable)
        } else if v == 2 {
            Some(Self::NonReconfigurable)
        } else {
            None
        }
    }

    open spec fn spec_code(self) -> u32 {
        match self {
            Self::Tbt3 => 0,
            Self::Reconfigurable => 1,
            Self::NonReconfigurable => 2,
        }
    }

    fn n(v: u32) -> (r: Option<Self>) {
        match v {
            0 => Some(Self::Tbt3),
            1 => Some(Self::Reconfigurable),
            2 => Some(Self::NonReconfigurable),
            _ => None,
        }
    }

    fn code(&self) -> (r: u32) {
        match self {
            Self::Tbt3 => 0,
            Self::Reconfigurable => 1,
            Self::NonReconfigurable => 2,
        }
    }

    proof fn lemma_code_round_trip(self) {
    }

    proof fn lemma_decoded_code(v: u32) {
    }
}

/// The UFP VDO.
#[derive(Clone, Copy, Debug, PartialEq, Eq, Structural)]
pub struct Ufp {
    pub ufp_vdo_version: UfpVersion,
    pub device_capability: UfpDeviceCapability,
    pub vconn_power: UfpVConnPower,
    /// Whether the adapter needs VCONN to function.
    pub vconn_required: bool,
    /// Whether the adapter needs VBUS to function.
    pub vbus_required: bool,
    pub alternate_modes: UfpAlternateModes,
}

impl Ufp {
    /// The 29 bits at `p`: VDO version (3), a reserved bit, device
    /// capability (4), 13 bits of legacy connector type and reserved bits,
    /// VCONN power (3), two flags and alternate modes (3). An unknown code is
    /// reported for the first such field in that order.
    pub open spec fn spec_decode(d: Seq<u8>, p: int) -> Result<Ufp> {
        let version = field(d, p, 0, 3);
        let capability = field(d, p, 4, 4);
        let vconn = field(d, p, 21, 3);
        let modes = field(d, p, 26, 3);
        if !has_bits(d, p, 29) {
            Err(Error::UnexpectedEof)
        } else if UfpVersion::spec_from_code(version) is None {
            Err(Error::ParseError { field: "ufp_vdo_version", value: version })
        } else if UfpDeviceCapability::spec_from_code(capability) is None {
            Err(Error::ParseError { field: "device_capability", value: capability })
        } else if UfpVConnPower::spec_from_code(vconn) is None {
            Err(Error::ParseError { field: "vconn_power", value: vconn })
        } else if UfpAlternateModes::spec_from_code(modes) is None {
            Err(Error::ParseError { field: "alternate_modes", value: modes })
        } else {
            Ok(Ufp {
                ufp_vdo_version: UfpVersion::spec_from_code(version).unwrap(),
                device_capability: UfpDeviceCapability::spec_from_code(capability).unwrap(),
                vconn_power: UfpVConnPower::spec_from_code(vconn).unwrap(),
                vconn_required: field(d, p, 24, 1) == 1,
                vbus_required: field(d, p, 25, 1) == 1,
                alternate_modes: UfpAlternateModes::spec_from_code(modes).unwrap(),
            })
        }
    }

    pub fn from_bytes(reader: &mut BitReader) -> (r: Result<Self>)
        requires
            old(reader).wf(),
        ensures
            final(reader).wf(),
            final(reader).data() == old(reader).data(),
            r == Self::spec_decode(old(reader).data(), old(reader).pos() as int),
    {
        if reader.remaining() < 29 {
            return Err(Error::UnexpectedEof);
        }
        let version = reader.read(3).unwrap();
        let ufp_vdo_version = match UfpVersion::n(version) {
            Some(e) => e,
            None => return Err(Error::ParseError { field: "ufp_vdo_version", value: version }),
        };
        reader.skip(1).unwrap();
        let capability = reader.read(4).unwrap();
        let device_capability = match UfpDeviceCapability::n(capability) {
            Some(e) => e,
            None => return Err(Error::ParseError { field: "device_capability", value: capability }),
        };
        reader.skip(2).unwrap();
        reader.skip(11).unwrap();
        let vconn = reader.read(3).unwrap();
        let vconn_power = match UfpVConnPower::n(vconn) {
            Some(e) => e,
            None => return Err(Error::ParseError { field: "vconn_power", value: vconn }),
        };
        let vconn_required = reader.read_bit().unwrap();
        let vbus_required = reader.read_bit().unwrap();
        let modes = reader.read(3).unwrap();
        let alternate_modes = match UfpAlternateModes::n(modes) {
            Some(e) => e,
            None => return Err(Error::ParseError { field: "alternate_modes", value: modes }),
        };
        Ok(Ufp {
            ufp_vdo_version,
            device_capability,
            vconn_power,
            vconn_required,
            vbus_required,
            alternate_modes,
        })
    }
}

/// The version of a DFP VDO.
#[derive(Clone, Copy, Debug, PartialEq, Eq, Structural)]
pub enum DfpVersion {
    /// Version 1.2.
    Version12,
}

impl WireCode for DfpVersion {
    open spec fn spec_from_code(v: u32) -> Option<Self> {
        if v == 2 {
            Some(Self::Version12)
        } else {
            None
        }
    }

    open spec fn spec_code(self) -> u32 {
        match self {
            Self::Version12 => 2,
        }
    }

    fn n(v: u32) -> (r: Option<Self>) {
        match v {
            2 => Some(Self::Version12),
            _ => None,
        }
    }

    fn code(&self) -> (r: u32) {
        match self {
            Self::Version12 => 2,
        }
    }

    proof fn lemma_code_round_trip(self) {
    }

    proof fn lemma_decoded_code(v: u32) {
    }
}

/// The USB host capability of a DFP.
#[derive(Clone, Copy, Debug, PartialEq, Eq, Structural)]
pub enum DfpHostCapability {
    /// USB 2 host capable.
    Usb20,
    /// USB 3 host capable.
    Usb32,
    /// USB4 host capable.
    Usb4,
}

impl WireCode for DfpHostCapability {
    open spec fn spec_from_code(v: u32) -> Option<Self> {
        if v == 0 {
            Some(Self::Usb20)
        } else if v == 1 {
            Some(Self::Usb32)
        } else if v == 2 {
            Some(Self::Usb4)
        } else {
            None
        }
    }

    open spec fn spec_code(self) -> u32 {
        match self {
            Self::Usb20 => 0,
            Self::Usb32 => 1,
            Self::Usb4 => 2,
        }
    }

    fn n(v: u32) -> (r: Option<Self>) {
        match v {
            0 => Some(Self::Usb20),
            1 => Some(Self::Usb32),
            2 => Some(Self::Usb4),
            _ => None,
        }
    }

    fn code(&self) -> (r: u32) {
        match self {
            Self::Usb20 => 0,
            Self::Usb32 => 1,
            Self::Usb4 => 2,
        }
    }

    proof fn lemma_code_round_trip(self) {
    }

    proof fn lemma_decoded_code(v: u32) {
    }
}

/// The DFP VDO.
#[derive(Clone, Copy, Debug, PartialEq, Eq, Structural)]
pub struct Dfp {
    pub dfp_vdo_version: DfpVersion,
    pub host_capability: DfpHostCapability,
    /// The number of this port on a multi-port device.
    pub port_number: u32,
}

impl Dfp {
    /// The 15 bits at `p`: VDO version (3), 2 reserved bits, host
    /// capability (3), 2 reserved bits and port number (5).
    pub open spec fn spec_decode(d: Seq<u8>, p: int) -> Result<Dfp> {
        let version = field(d, p, 0, 3);
        let host = field(d, p, 5, 3);
        if !has_bits(d, p, 15) {
            Err(Error::UnexpectedEof)
        } else if DfpVersion::spec_from_code(version) is None {
            Err(Error::ParseError { field: "dfp_vdo_version", value: version })
        } else if DfpHostCapability::spec_from_code(host) is None {
            Err(Error::ParseError { field: "host_capability", value: host })
        } else {
            Ok(Dfp {
                dfp_vdo_version: DfpVersion::spec_from_code(version).unwrap(),
                host_capability: DfpHostCapability::spec_from_code(host).unwrap(),
                port_number: field(d, p, 10, 5),
            })
        }
    }

    pub fn from_bytes(reader: &mut BitReader) -> (r: Result<Self>)
        requires
            old(reader).wf(),
        ensures
            final(reader).wf(),
            final(reader).data() == old(reader).data(),
            r == Self::spec_decode(old(reader).data(), old(reader).pos() as int),
    {
        if reader.remaining() < 15 {
            return Err(Error::UnexpectedEof);
        }
        let version = reader.read(3).unwrap();
        let dfp_vdo_version = match DfpVersion::n(version) {
            Some(e) => e,
            None => return Err(Error::ParseError { field: "dfp_vdo_version", value: version }),
        };
        reader.skip(2).unwrap();
        let host = reader.read(3).unwrap();
        let host_capability = match DfpHostCapability::n(host) {
            Some(e) => e,
            None => return Err(Error::ParseError { field: "host_capability", value: host }),
        };
        reader.skip(2).unwrap();
        let port_number = reader.read(5).unwrap();
        Ok(Dfp { dfp_vdo_version, host_capability, port_number })
    }
}

/// A DFP VDO whose version or host capability code is outside its table
/// fails with a parse error naming that field (the version first).
pub proof fn lemma_dfp_names_unknown_code(d: Seq<u8>, p: int)
    requires
        has_bits(d, p, 15),
    ensures
        DfpVersion::spec_from_code(field(d, p, 0, 3)) is None ==> Dfp::spec_decode(d, p) == Err::<
            Dfp,
            Error,
        >(Error::ParseError { field: "dfp_vdo_version", value: field(d, p, 0, 3) }),
        DfpVersion::spec_from_code(field(d, p, 0, 3)) is Some && DfpHostCapability::spec_from_code(
            field(d, p, 5, 3),
        ) is None ==> Dfp::spec_decode(d, p) == Err::<Dfp, Error>(
            Error::ParseError { field: "host_capability", value: field(d, p, 5, 3) },
        ),
{
}

/// The number of mode VDOs a Discover Modes response holds at most.
pub const MAX_NUM_ALT_MODE: usize = 6;

/// The Product VDO.
#[derive(Clone, Copy, Debug, PartialEq, Eq, Structural)]
pub struct Product {
    /// The product ID assigned by the manufacturer.
    pub product_id: u32,
    /// The device release number.
    pub device: BcdWrapper,
}

impl Product {
    /// The 32 bits at `p`: product ID (16) and device release (16).
    pub open spec fn spec_decode(d: Seq<u8>, p: int) -> Result<Product> {
        if !has_bits(d, p, 32) {
            Err(Error::UnexpectedEof)
        } else {
            Ok(Product { product_id: field(d, p, 0, 16), device: BcdWrapper(field(d, p, 16, 16)) })
        }
    }

    pub fn from_bytes(reader: &mut BitReader) -> (r: Result<Self>)
        requires
            old(reader).wf(),
        ensures
            final(reader).wf(),
            final(reader).data() == old(reader).data(),
            r == Self::spec_decode(old(reader).data(), old(reader).pos() as int),
    {
        let product_id = reader.read(16)?;
        let device = reader.read(16)?;
        Ok(Product { product_id, device: BcdWrapper(device) })
    }
}

/// The Cert Stat VDO: the XID the USB-IF assigned to the product.
#[derive(Clone, Copy, Debug, PartialEq, Eq, Structural)]
pub struct CertStat {
    pub xid: u32,
}

impl CertStat {
    /// The 32 bits at `p`.
    pub open spec fn spec_decode(d: Seq<u8>, p: int) -> Result<CertStat> {
        if !has_bits(d, p, 32) {
            Err(Error::UnexpectedEof)
        } else {
            Ok(CertStat { xid: field(d, p, 0, 32) })
        }
    }

    pub fn from_bytes(reader: &mut BitReader) -> (r: Result<Self>)
        requires
            old(reader).wf(),
        ensures
            final(reader).wf(),
            final(reader).data() == old(reader).data(),
            r == Self::spec_decode(old(reader).data(), old(reader).pos() as int),
    {
        let xid = reader.read(32)?;
        Ok(CertStat { xid })
    }
}

/// The product type of a DFP.
#[derive(Clone, Copy, Debug, PartialEq, Eq, Structural)]
pub enum SopDfpProductType {
    NotADfp,
    PdUsbHub,
    PdUsbHost,
    PowerBrick,
}

impl WireCode for SopDfpProductType {
    open spec fn spec_from_code(v: u32) -> Option<Self> {
        if v == 0 {
            Some(Self::NotADfp)
        } else if v == 1 {
            Some(Self::PdUsbHub)
        } else if v == 2 {
            Some(Self::PdUsbHost)
        } else if v == 3 {
            Some(Self::PowerBrick)
        } else {
            None
        }
    }

    open spec fn spec_code(self) -> u32 {
        match self {
            Self::NotADfp => 0,
            Self::PdUsbHub => 1,
            Self::PdUsbHost => 2,
            Self::PowerBrick => 3,
        }
    }

    fn n(v: u32) -> (r: Option<Self>) {
        match v {
            0 => Some(Self::NotADfp),
            1 => Some(Self::PdUsbHub),
            2 => Some(Self::PdUsbHost),
            3 => Some(Self::PowerBrick),
            _ => None,
        }
    }

    fn code(&self) -> (r: u32) {
        match self {
            Self::NotADfp => 0,
            Self::PdUsbHub => 1,
            Self::PdUsbHost => 2,
            Self::PowerBrick => 3,
        }
    }

    proof fn lemma_code_round_trip(self) {
    }

    proof fn lemma_decoded_code(v: u32) {
    }
}

/// The product type of a UFP or cable plug.
#[derive(Clone, Copy, Debug, PartialEq, Eq, Structural)]
pub enum SopUfpProductType {
    NotAUfp,
    PdUsbHub,
    PdUsbPeripheral,
    Psd,
    NotACablePlugOrVPD,
    PassiveCable,
    ActiveCable,
    VConnPoweredUsbDevice,
}

impl WireCode for SopUfpProductType {
    open spec fn spec_from_code(v: u32) -> Option<Self> {
        if v == 0 {
            Some(Self::NotAUfp)
        } else if v == 1 {
            Some(Self::PdUsbHub)
        } else if v == 2 {
            Some(Self::PdUsbPeripheral)
        } else if v == 3 {
            Some(Self::Psd)
        } else if v == 4 {
            Some(Self::NotACablePlugOrVPD)
        } else if v == 5 {
            Some(Self::PassiveCable)
        } else if v == 6 {
            Some(Self::ActiveCable)
        } else if v == 7 {
            Some(Self::VConnPoweredUsbDevice)
        } else {
            None
        }
    }

    open spec fn spec_code(self) -> u32 {
        match self {
            Self::NotAUfp => 0,
            Self::PdUsbHub => 1,
            Self::PdUsbPeripheral => 2,
            Self::Psd => 3,
            Self::NotACablePlugOrVPD => 4,
            Self::PassiveCable => 5,
            Self::ActiveCable => 6,
            Self::VConnPoweredUsbDevice => 7,
        }
    }

    fn n(v: u32) -> (r: Option<Self>) {
        match v {
            0 => Some(Self::NotAUfp),
            1 => Some(Self::PdUsbHub),
            2 => Some(Self::PdUsbPeripheral),
            3 => Some(Self::Psd),
            4 => Some(Self::NotACablePlugOrVPD),
            5 => Some(Self::PassiveCable),
            6 => Some(Self::ActiveCable),
            7 => Some(Self::VConnPoweredUsbDevice),
            _ => None,
        }
    }

    fn code(&self) -> (r: u32) {
        match self {
            Self::NotAUfp => 0,
            Self::PdUsbHub => 1,
            Self::PdUsbPeripheral => 2,
            Self::Psd => 3,
            Self::NotACablePlugOrVPD => 4,
            Self::PassiveCable => 5,
            Self::ActiveCable => 6,
            Self::VConnPoweredUsbDevice => 7,
        }
    }

    proof fn lemma_code_round_trip(self) {
    }

    proof fn lemma_decoded_code(v: u32) {
    }
}

/// Whether the product is a USB Type-C receptacle or plug.
#[derive(Clone, Copy, Debug, PartialEq, Eq, Structural)]
pub enum IdHeaderConnectorType {
    ReservedForCompatibility,
    Reserved,
    TypecReceptacle,
    TypecPlug,
}

impl WireCode for IdHeaderConnectorType {
    open spec fn spec_from_code(v: u32) -> Option<Self> {
        if v == 0 {
            Some(Self::ReservedForCompatibility)
        } else if v == 1 {
            Some(Self::Reserved)
        } else if v == 2 {
            Some(Self::TypecReceptacle)
        } else if v == 3 {
            Some(Self::TypecPlug)
        } else {
            None
        }
    }

    open spec fn spec_code(self) -> u32 {
        match self {
            Self::ReservedForCompatibility => 0,
            Self::Reserved => 1,
            Self::TypecReceptacle => 2,
            Self::TypecPlug => 3,
        }
    }

    fn n(v: u32) -> (r: Option<Self>) {
        match v {
            0 => Some(Self::ReservedForCompatibility),
            1 => Some(Self::Reserved),
            2 => Some(Self::TypecReceptacle),
            3 => Some(Self::TypecPlug),
            _ => None,
        }
    }

    fn code(&self) -> (r: u32) {
        match self {
            Self::ReservedForCompatibility => 0,
            Self::Reserved => 1,
            Self::TypecReceptacle => 2,
            Self::TypecPlug => 3,
        }
    }

    proof fn lemma_code_round_trip(self) {
    }

    proof fn lemma_decoded_code(v: u32) {
    }
}

/// The ID Header VDO, with the vendor name resolved from the vendor ID.
#[derive(Clone, Debug, PartialEq)]
pub struct IdHeader {
    /// The vendor name; "Unknown" when the vendor ID is not resolved.
    pub vendor: String,
    /// USB communications capable as a USB host.
    pub usb_host_capability: bool,
    /// USB communications capable as a USB device.
    pub usb_device_capability: bool,
    /// The product type in the UFP data role.
    pub sop_product_type_ufp: SopUfpProductType,
    /// Whether the product supports modes.
    pub modal_operation_supported: bool,
    /// The product type in the DFP data role.
    pub sop_product_type_dfp: SopDfpProductType,
    pub connector_type: IdHeaderConnectorType,
    /// The vendor ID assigned by the USB-IF.
    pub usb_vendor_id: u32,
}

/// The vendor name of an ID header whose vendor is not resolved.
pub const UNKNOWN_VENDOR: &'static str = "Unknown";

impl IdHeader {
    /// The 32 bits at `p`: two flags, UFP product type (3), a flag, DFP
    /// product type (3), connector type (2), 5 reserved bits and vendor ID
    /// (16). The vendor name is left unresolved.
    pub open spec fn spec_decode_fields(d: Seq<u8>, p: int) -> Result<IdHeader> {
        let dfp = field(d, p, 6, 3);
        if !has_bits(d, p, 32) {
            Err(Error::UnexpectedEof)
        } else if SopDfpProductType::spec_from_code(dfp) is None {
            Err(Error::ParseError { field: "sop_product_type_dfp", value: dfp })
        } else {
            Ok(IdHeader {
                vendor: arbitrary(),
                usb_host_capability: field(d, p, 0, 1) == 1,
                usb_device_capability: field(d, p, 1, 1) == 1,
                sop_product_type_ufp: SopUfpProductType::spec_from_code(field(d, p, 2, 3)).unwrap(),
                modal_operation_supported: field(d, p, 5, 1) == 1,
                sop_product_type_dfp: SopDfpProductType::spec_from_code(dfp).unwrap(),
                connector_type: IdHeaderConnectorType::spec_from_code(field(d, p, 9, 2)).unwrap(),
                usb_vendor_id: field(d, p, 16, 16),
            })
        }
    }

    /// Whether `h` is the decoding of the 32 bits at `p`, up to the vendor
    /// name.
    pub open spec fn decodes_to(d: Seq<u8>, p: int, h: IdHeader) -> bool {
        &&& Self::spec_decode_fields(d, p) is Ok
        &&& h == (IdHeader { vendor: h.vendor, ..Self::spec_decode_fields(d, p)->Ok_0 })
    }

    /// Decodes the ID header with its vendor name "Unknown"; the name is
    /// resolved by the caller from `usb_vendor_id` (see `set_vendor`).
    pub fn from_bytes(reader: &mut BitReader) -> (r: Result<Self>)
        requires
            old(reader).wf(),
        ensures
            final(reader).wf(),
            final(reader).data() == old(reader).data(),
            match Self::spec_decode_fields(old(reader).data(), old(reader).pos() as int) {
                Ok(_) => r matches Ok(h) && Self::decodes_to(
                    old(reader).data(),
                    old(reader).pos() as int,
                    h,
                ) && h.vendor@ == UNKNOWN_VENDOR@,
                Err(e) => r == Err::<IdHeader, Error>(e),
            },
    {
        let ghost d = reader.data();
        let ghost p = reader.pos() as int;
        if reader.remaining() < 32 {
            return Err(Error::UnexpectedEof);
        }
        proof {
            lemma_field_bound(d, p, 2, 3);
            lemma_field_bound(d, p, 9, 2);
            vstd::arithmetic::power2::lemma2_to64();
        }
        let usb_host_capability = reader.read_bit().unwrap();
        let usb_device_capability = reader.read_bit().unwrap();
        let ufp = reader.read(3).unwrap();
        let sop_product_type_ufp = match SopUfpProductType::n(ufp) {
            Some(e) => e,
            None => return Err(Error::ParseError { field: "sop_product_type_ufp", value: ufp }),
        };
        let modal_operation_supported = reader.read_bit().unwrap();
        let dfp = reader.read(3).unwrap();
        let sop_product_type_dfp = match SopDfpProductType::n(dfp) {
            Some(e) => e,
            None => return Err(Error::ParseError { field: "sop_product_type_dfp", value: dfp }),
        };
        let connector = reader.read(2).unwrap();
        let connector_type = match IdHeaderConnectorType::n(connector) {
            Some(e) => e,
            None => return Err(Error::ParseError { field: "connector_type", value: connector }),
        };
        reader.skip(5).unwrap();
        let usb_vendor_id = reader.read(16).unwrap();
        Ok(IdHeader {
            vendor: UNKNOWN_VENDOR.to_string(),
            usb_host_capability,
            usb_device_capability,
            sop_product_type_ufp,
            modal_operation_supported,
            sop_product_type_dfp,
            connector_type,
            usb_vendor_id,
        })
    }

    /// Sets the vendor name from a lookup of the vendor ID: the name found,
    /// or "Unknown" when the lookup found none.
    pub fn set_vendor(&mut self, name: Option<String>)
        ensures
            final(self).vendor@ == (match name {
                Some(n) => n@,
                None => UNKNOWN_VENDOR@,
            }),
            *final(self) == (IdHeader { vendor: final(self).vendor, ..*old(self) }),
    {
        self.vendor = match name {
            Some(n) => n,
            None => UNKNOWN_VENDOR.to_string(),
        };
    }
}

/// The kind of a product type VDO.
#[derive(Clone, Copy, Debug, PartialEq, Eq, Structural)]
pub enum ProductType {
    PassiveCableVdo,
    ActiveCableVdo,
    VpdVdo,
    UfpVdo,
    DfpVdo,
}

impl WireCode for ProductType {
    open spec fn spec_from_code(v: u32) -> Option<Self> {
        if v == 0 {
            Some(Self::PassiveCableVdo)
        } else if v == 1 {
            Some(Self::ActiveCableVdo)
        } else if v == 2 {
            Some(Self::VpdVdo)
        } else if v == 3 {
            Some(Self::UfpVdo)
        } else if v == 4 {
            Some(Self::DfpVdo)
        } else {
            None
        }
    }

    open spec fn spec_code(self) -> u32 {
        match self {
            Self::PassiveCableVdo => 0,
            Self::ActiveCableVdo => 1,
            Self::VpdVdo => 2,
            Self::UfpVdo => 3,
            Self::DfpVdo => 4,
        }
    }

    fn n(v: u32) -> (r: Option<Self>) {
        match v {
            0 => Some(Self::PassiveCableVdo),
            1 => Some(Self::ActiveCableVdo),
            2 => Some(Self::VpdVdo),
            3 => Some(Self::UfpVdo),
            4 => Some(Self::DfpVdo),
            _ => None,
        }
    }

    fn code(&self) -> (r: u32) {
        match self {
            Self::PassiveCableVdo => 0,
            Self::ActiveCableVdo => 1,
            Self::VpdVdo => 2,
            Self::UfpVdo => 3,
            Self::DfpVdo => 4,
        }
    }

    proof fn lemma_code_round_trip(self) {
    }

    proof fn lemma_decoded_code(v: u32) {
    }
}

} // verus!
