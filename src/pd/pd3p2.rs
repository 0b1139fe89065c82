//! USB Power Delivery 3.2 records.
use vstd::prelude::*;

use crate::codec::field;
use crate::codec::has_bits;
use crate::codec::lemma_field_bound;
use crate::codec::BitReader;
use crate::pd::VdmHeader;
use crate::Error;
use crate::Milliamp;
use crate::Millivolt;
use crate::Milliwatt;
use crate::Result;
use crate::WireCode;

use crate::pd::pd3p2::vdo::CertStat;
use crate::pd::pd3p2::vdo::IdHeader;
use crate::pd::pd3p2::vdo::Product;
use crate::pd::pd3p2::vdo::ProductType;

pub mod vdo;

verus! {

/// The response to a Discover Identity command.
#[derive(Clone, Debug, PartialEq)]
pub struct DiscoverIdentityResponse {
    pub header: VdmHeader,
    pub id_header_vdo: IdHeader,
    pub cert_stat: CertStat,
    pub product_vdo: Product,
    pub product_type_vdo: [ProductType; 3],
}

/// The touch temperature standard a product conforms to.
#[derive(Clone, Copy, Debug, PartialEq, Eq, Structural)]
pub enum SceTouchTemp {
    NotApplicable,
    Iec60950_1,
    Iec62368_1Ts1,
    Iec62368_1Ts2,
}

#[derive(Clone, Copy, Debug, PartialEq, Eq, Structural)]
pub struct SceLoadStep {
    /// 150mA/µs load step (default).
    pub load_step_150ma: bool,
    /// 500mA/µs load step.
    pub load_step_500ma: bool,
}

#[derive(Clone, Copy, Debug, PartialEq, Eq, Structural)]
pub struct SinkLoadCharacteristics {
    /// Percent overload in 10% increments.
    pub percent_overload: bool,
    /// Overload period in 20ms.
    pub overload_period: bool,
    /// Duty cycle in 5% increments.
    pub duty_cycle: bool,
    /// Can tolerate VBUS voltage droop.
    pub vbus_voltage_droop: bool,
}

#[derive(Clone, Copy, Debug, PartialEq, Eq, Structural)]
pub struct SCEDCompliance {
    /// Requires an LPS source.
    pub requires_lps_source: bool,
    /// Requires a PS1 source.
    pub requires_ps1_source: bool,
    /// Requires a PS2 source.
    pub requires_ps2_source: bool,
}

#[derive(Clone, Copy, Debug, PartialEq, Eq, Structural)]
pub struct SCEDSinkModes {
    pub pps_charging_supported: bool,
    pub vbus_powered: bool,
    pub mains_powered: bool,
    pub battery_powered: bool,
    pub battery_essentially_unlimited: bool,
    pub avs_supported: bool,
}

/// The Sink Capabilities Extended message.
#[derive(Clone, Copy, Debug, PartialEq, Eq, Structural)]
pub struct SinkCapabilitiesExtended {
    /// Vendor ID assigned by the USB-IF.
    pub vid: u32,
    /// Product ID assigned by the manufacturer.
    pub pid: u32,
    /// Value assigned by the USB-IF to the product.
    pub xid: u32,
    pub fw_version: u32,
    pub hw_version: u32,
    pub skedb_version: u32,
    pub load_step: SceLoadStep,
    pub sink_load_characteristics: SinkLoadCharacteristics,
    pub compliance: SCEDCompliance,
    pub touch_temp: SceTouchTemp,
    pub battery_info: u32,
    pub sink_modes: SCEDSinkModes,
    pub sink_minimum_pdp: u32,
    pub sink_operational_pdp: u32,
}

#[derive(Clone, Copy, Debug, PartialEq, Eq, Structural)]
pub struct SceVoltageRegulation {
    pub load_step_150ma: bool,
    pub load_step_500ma: bool,
    pub ioc_25_percent: bool,
    pub ioc_90_percent: bool,
}

#[derive(Clone, Copy, Debug, PartialEq, Eq, Structural)]
pub struct SceCompliance {
    pub lps_compliant: bool,
    pub ps1_compliant: bool,
    pub ps2_compliant: bool,
}

#[derive(Clone, Copy, Debug, PartialEq, Eq, Structural)]
pub struct SceTouchCurrent {
    pub low_touch_current_eps: bool,
    pub ground_pin_supported: bool,
    pub ground_pin_for_protective_earth: bool,
}

#[derive(Clone, Copy, Debug, PartialEq, Eq, Structural)]
pub struct ScePeakCurrent {
    pub percent_overload: bool,
    pub overload_period: bool,
    pub duty_cycle: bool,
    pub vbus_voltage_droop: bool,
}

#[derive(Clone, Copy, Debug, PartialEq, Eq, Structural)]
pub struct SceSourceInputs {
    pub no_external_supply: bool,
    pub external_supply_constrained: bool,
    pub internal_battery_present: bool,
}

/// The Source Capabilities Extended message.
#[derive(Clone, Copy, Debug, PartialEq, Eq, Structural)]
pub struct SourceCapabilitiesExtended {
    pub vid: u32,
    pub pid: u32,
    pub xid: u32,
    pub fw_version: u32,
    pub hw_version: u32,
    pub voltage_regulation: SceVoltageRegulation,
    pub holdup_time: u32,
    pub compliance: SceCompliance,
    pub touch_current: SceTouchCurrent,
    pub peak_current1: ScePeakCurrent,
    pub peak_current2: ScePeakCurrent,
    pub peak_current3: ScePeakCurrent,
    pub touch_temp: SceTouchTemp,
    pub source_inputs: SceSourceInputs,
    pub num_batteries_slots: u32,
    pub spr_source_pdp_rating: u32,
    pub epr_source_pdp_rating: u32,
}

/// The Battery Capabilities message.
#[derive(Clone, Copy, Debug, PartialEq, Eq)]
pub struct BatteryCapData {
    pub batteries_fixed: [u32; 4],
    pub batteries_hotswappable: [u32; 4],
}

#[derive(Clone, Copy, Debug, PartialEq, Eq, Structural)]
pub struct BSDBatteryInfo {
    pub invalid_battery_reference: bool,
    pub battery_present: bool,
    pub battery_charging: bool,
    pub battery_discharging: bool,
    pub battery_idle: bool,
}

/// The Battery Status message.
#[derive(Clone, Copy, Debug, PartialEq, Eq, Structural)]
pub struct BatteryStatusData {
    /// The battery's state of charge in 0.1 Wh units; 0xFFFF when unknown.
    pub battery_present_capacity: u32,
    pub battery_info: BSDBatteryInfo,
}

/// The Revision message.
#[derive(Clone, Copy, Debug, PartialEq, Eq, Structural)]
pub struct RevisionMessageData {
    pub revision_major: u32,
    pub revision_minor: u32,
    pub version_major: u32,
    pub version_minor: u32,
    pub reserved: u32,
}

/// The fast role swap current of a fixed supply PDO.
#[derive(Clone, Copy, Debug, PartialEq, Eq, Structural)]
pub enum FastRoleSwap {
    NotSupported,
    DefaultUsbPower,
    OnePointFiveAAtFiveV,
    ThreeAAtFiveV,
}

impl WireCode for FastRoleSwap {
    open spec fn spec_from_code(v: u32) -> Option<Self> {
        if v == 0 {
            Some(Self::NotSupported)
        } else if v == 1 {
            Some(Self::DefaultUsbPower)
        } else if v == 2 {
            Some(Self::OnePointFiveAAtFiveV)
        } else if v == 3 {
            Some(Self::ThreeAAtFiveV)
        } else {
            None
        }
    }

    open spec fn spec_code(self) -> u32 {
        match self {
            Self::NotSupported => 0,
            Self::DefaultUsbPower => 1,
            Self::OnePointFiveAAtFiveV => 2,
            Self::ThreeAAtFiveV => 3,
        }
    }

    fn n(v: u32) -> (r: Option<Self>) {
        match v {
            0 => Some(Self::NotSupported),
            1 => Some(Self::DefaultUsbPower),
            2 => Some(Self::OnePointFiveAAtFiveV),
            3 => Some(Self::ThreeAAtFiveV),
            _ => None,
        }
    }

    fn code(&self) -> (r: u32) {
        match self {
            Self::NotSupported => 0,
            Self::DefaultUsbPower => 1,
            Self::OnePointFiveAAtFiveV => 2,
            Self::ThreeAAtFiveV => 3,
        }
    }

    proof fn lemma_code_round_trip(self) {
    }

    proof fn lemma_decoded_code(v: u32) {
    }
}

/// A fixed supply PDO.
#[derive(Clone, Copy, Debug, PartialEq, Eq, Structural)]
pub struct FixedSupplyPdo {
    pub dual_role_power: bool,
    pub higher_capability: bool,
    pub unconstrained_power: bool,
    pub usb_communications_capable: bool,
    pub dual_role_data: bool,
    pub fast_role_swap: FastRoleSwap,
    pub voltage: Millivolt,
    pub operational_current: Milliamp,
}

/// Voltage steps of fixed, variable and battery supply PDOs, in mV.
pub const PDO_VOLTAGE_STEP_MV: u32 = 50;

/// Current steps of fixed and variable supply PDOs, in mA.
pub const PDO_CURRENT_STEP_MA: u32 = 10;

/// Power steps of battery supply PDOs, in mW.
pub const PDO_POWER_STEP_MW: u32 = 250;

/// Voltage steps of programmable power supply APDOs, in mV.
pub const PPS_VOLTAGE_STEP_MV: u32 = 100;

/// Current steps of programmable power supply APDOs, in mA.
pub const PPS_CURRENT_STEP_MA: u32 = 50;

impl FixedSupplyPdo {
    /// The 29 bits at `p`: 2 bits of supply kind, five flags, fast role
    /// swap (2), voltage (10) and current (10).
    pub open spec fn spec_decode(d: Seq<u8>, p: int) -> Result<FixedSupplyPdo> {
        if !has_bits(d, p, 29) {
            Err(Error::UnexpectedEof)
        } else {
            Ok(FixedSupplyPdo {
                dual_role_power: field(d, p, 2, 1) == 1,
                higher_capability: field(d, p, 3, 1) == 1,
                unconstrained_power: field(d, p, 4, 1) == 1,
                usb_communications_capable: field(d, p, 5, 1) == 1,
                dual_role_data: field(d, p, 6, 1) == 1,
                fast_role_swap: FastRoleSwap::spec_from_code(field(d, p, 7, 2)).unwrap(),
                voltage: Millivolt((field(d, p, 9, 10) * PDO_VOLTAGE_STEP_MV) as u32),
                operational_current: Milliamp((field(d, p, 19, 10) * PDO_CURRENT_STEP_MA) as u32),
            })
        }
    }

    pub fn from_bytes(reader: &mut BitReader) -> (r: Result<Self>)
        requires
            old(reader).wf(),
        ensures
            final(reader).wf(),
            final(reader).data() == old(reader).data(),
            r == Self::spec_decode(old(reader).data(), old(reader).pos() as int),
    {
        let ghost d = reader.data();
        let ghost p = reader.pos() as int;
        if reader.remaining() < 29 {
            return Err(Error::UnexpectedEof);
        }
        proof {
            lemma_field_bound(d, p, 7, 2);
            lemma_field_bound(d, p, 9, 10);
            lemma_field_bound(d, p, 19, 10);
            vstd::arithmetic::power2::lemma2_to64();
        }
        reader.skip(2).unwrap();
        let dual_role_power = reader.read_bit().unwrap();
        let higher_capability = reader.read_bit().unwrap();
        let unconstrained_power = reader.read_bit().unwrap();
        let usb_communications_capable = reader.read_bit().unwrap();
        let dual_role_data = reader.read_bit().unwrap();
        let fast_role_swap_bits = reader.read(2).unwrap();
        let fast_role_swap = match FastRoleSwap::n(fast_role_swap_bits) {
            Some(e) => e,
            None => return Err(Error::ParseError { field: "fast_role_swap", value: fast_role_swap_bits }),
        };
        let voltage = Millivolt(reader.read(10).unwrap() * PDO_VOLTAGE_STEP_MV);
        let operational_current = Milliamp(reader.read(10).unwrap() * PDO_CURRENT_STEP_MA);
        Ok(FixedSupplyPdo {
            dual_role_power,
            higher_capability,
            unconstrained_power,
            usb_communications_capable,
            dual_role_data,
            fast_role_swap,
            voltage,
            operational_current,
        })
    }
}

/// A battery supply PDO.
#[derive(Clone, Copy, Debug, PartialEq, Eq, Structural)]
pub struct BatterySupplyPdo {
    pub max_voltage: Millivolt,
    pub min_voltage: Millivolt,
    pub operational_power: Milliwatt,
}

impl BatterySupplyPdo {
    /// The 32 bits at `p`: 2 bits of supply kind, maximum voltage (10),
    /// minimum voltage (10) and power (10).
    pub open spec fn spec_decode(d: Seq<u8>, p: int) -> Result<BatterySupplyPdo> {
        if !has_bits(d, p, 32) {
            Err(Error::UnexpectedEof)
        } else {
            Ok(BatterySupplyPdo {
                max_voltage: Millivolt((field(d, p, 2, 10) * PDO_VOLTAGE_STEP_MV) as u32),
                min_voltage: Millivolt((field(d, p, 12, 10) * PDO_VOLTAGE_STEP_MV) as u32),
                operational_power: Milliwatt((field(d, p, 22, 10) * PDO_POWER_STEP_MW) as u32),
            })
        }
    }

    pub fn from_bytes(reader: &mut BitReader) -> (r: Result<Self>)
        requires
            old(reader).wf(),
        ensures
            final(reader).wf(),
            final(reader).data() == old(reader).data(),
            r == Self::spec_decode(old(reader).data(), old(reader).pos() as int),
    {
        let ghost d = reader.data();
        let ghost p = reader.pos() as int;
        if reader.remaining() < 32 {
            return Err(Error::UnexpectedEof);
        }
        proof {
            lemma_field_bound(d, p, 2, 10);
            lemma_field_bound(d, p, 12, 10);
            lemma_field_bound(d, p, 22, 10);
            vstd::arithmetic::power2::lemma2_to64();
        }
        reader.skip(2).unwrap();
        let max_voltage = Millivolt(reader.read(10).unwrap() * PDO_VOLTAGE_STEP_MV);
        let min_voltage = Millivolt(reader.read(10).unwrap() * PDO_VOLTAGE_STEP_MV);
        let operational_power = Milliwatt(reader.read(10).unwrap() * PDO_POWER_STEP_MW);
        Ok(BatterySupplyPdo { max_voltage, min_voltage, operational_power })
    }
}

/// A variable supply PDO.
#[derive(Clone, Copy, Debug, PartialEq, Eq, Structural)]
pub struct VariableSupplyPdo {
    pub max_voltage: Millivolt,
    pub min_voltage: Millivolt,
    pub max_current: Milliamp,
}

impl VariableSupplyPdo {
    /// The 32 bits at `p`: 2 bits of supply kind, maximum voltage (10),
    /// minimum voltage (10) and current (10).
    pub open spec fn spec_decode(d: Seq<u8>, p: int) -> Result<VariableSupplyPdo> {
        if !has_bits(d, p, 32) {
            Err(Error::UnexpectedEof)
        } else {
            Ok(VariableSupplyPdo {
                max_voltage: Millivolt((field(d, p, 2, 10) * PDO_VOLTAGE_STEP_MV) as u32),
                min_voltage: Millivolt((field(d, p, 12, 10) * PDO_VOLTAGE_STEP_MV) as u32),
                max_current: Milliamp((field(d, p, 22, 10) * PDO_CURRENT_STEP_MA) as u32),
            })
        }
    }

    pub fn from_bytes(reader: &mut BitReader) -> (r: Result<Self>)
        requires
            old(reader).wf(),
        ensures
            final(reader).wf(),
            final(reader).data() == old(reader).data(),
            r == Self::spec_decode(old(reader).data(), old(reader).pos() as int),
    {
        let ghost d = reader.data();
        let ghost p = reader.pos() as int;
        if reader.remaining() < 32 {
            return Err(Error::UnexpectedEof);
        }
        proof {
            lemma_field_bound(d, p, 2, 10);
            lemma_field_bound(d, p, 12, 10);
            lemma_field_bound(d, p, 22, 10);
            vstd::arithmetic::power2::lemma2_to64();
        }
        reader.skip(2).unwrap();
        let max_voltage = Millivolt(reader.read(10).unwrap() * PDO_VOLTAGE_STEP_MV);
        let min_voltage = Millivolt(reader.read(10).unwrap() * PDO_VOLTAGE_STEP_MV);
        let max_current = Milliamp(reader.read(10).unwrap() * PDO_CURRENT_STEP_MA);
        Ok(VariableSupplyPdo { max_voltage, min_voltage, max_current })
    }
}

/// A programmable power supply augmented PDO in the SPR range.
#[derive(Clone, Copy, Debug, PartialEq, Eq, Structural)]
pub struct SprProgrammableSupplyPdo {
    pub max_voltage: Millivolt,
    pub min_voltage: Millivolt,
    pub max_current: Milliamp,
}

impl SprProgrammableSupplyPdo {
    /// The 32 bits at `p`: 2 bits of APDO kind, 2 bits of PPS kind, the
    /// power-limited flag, 2 reserved bits, maximum voltage (8), a reserved
    /// bit, minimum voltage (8), a reserved bit and current (7).
    pub open spec fn spec_decode(d: Seq<u8>, p: int) -> Result<SprProgrammableSupplyPdo> {
        if !has_bits(d, p, 32) {
            Err(Error::UnexpectedEof)
        } else {
            Ok(SprProgrammableSupplyPdo {
                max_voltage: Millivolt((field(d, p, 7, 8) * PPS_VOLTAGE_STEP_MV) as u32),
                min_voltage: Millivolt((field(d, p, 16, 8) * PPS_VOLTAGE_STEP_MV) as u32),
                max_current: Milliamp((field(d, p, 25, 7) * PPS_CURRENT_STEP_MA) as u32),
            })
        }
    }

    pub fn from_bytes(reader: &mut BitReader) -> (r: Result<Self>)
        requires
            old(reader).wf(),
        ensures
            final(reader).wf(),
            final(reader).data() == old(reader).data(),
            r == Self::spec_decode(old(reader).data(), old(reader).pos() as int),
    {
        let ghost d = reader.data();
        let ghost p = reader.pos() as int;
        if reader.remaining() < 32 {
            return Err(Error::UnexpectedEof);
        }
        proof {
            lemma_field_bound(d, p, 7, 8);
            lemma_field_bound(d, p, 16, 8);
            lemma_field_bound(d, p, 25, 7);
            vstd::arithmetic::power2::lemma2_to64();
        }
        reader.skip(7).unwrap();
        let max_voltage = Millivolt(reader.read(8).unwrap() * PPS_VOLTAGE_STEP_MV);
        reader.skip(1).unwrap();
        let min_voltage = Millivolt(reader.read(8).unwrap() * PPS_VOLTAGE_STEP_MV);
        reader.skip(1).unwrap();
        let max_current = Milliamp(reader.read(7).unwrap() * PPS_CURRENT_STEP_MA);
        Ok(SprProgrammableSupplyPdo { max_voltage, min_voltage, max_current })
    }
}

} // verus!
