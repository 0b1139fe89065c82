//! USB Power Delivery (PD) messages and power data objects.
use vstd::prelude::*;

use crate::codec::has_bits;
use crate::codec::field;
use crate::codec::lemma_field_bound;
use crate::codec::BitReader;
use crate::BcdWrapper;
use crate::Error;
use crate::Result;
use crate::WireCode;

use crate::pd::pd3p2::BatteryCapData as Pd3p2BatteryCapData;
use crate::pd::pd3p2::BatteryStatusData as Pd3p2BatteryStatusData;
use crate::pd::pd3p2::BatterySupplyPdo as Pd3p2BatterySupplyPdo;
use crate::pd::pd3p2::DiscoverIdentityResponse as Pd3p2DiscoverIdentityResponse;
use crate::pd::pd3p2::FixedSupplyPdo as Pd3p2FixedSupplyPdo;
use crate::pd::pd3p2::RevisionMessageData as Pd3p2RevisionMessageData;
use crate::pd::pd3p2::SinkCapabilitiesExtended as Pd3p2SinkCapabilitiesExtended;
use crate::pd::pd3p2::SourceCapabilitiesExtended as Pd3p2SourceCapabilitiesExtended;
use crate::pd::pd3p2::SprProgrammableSupplyPdo as Pd3p2SprProgrammableSupplyPdo;
use crate::pd::pd3p2::VariableSupplyPdo as Pd3p2VariableSupplyPdo;

pub mod pd3p2;

verus! {

/// The type of a structured VDM command.
#[derive(Clone, Copy, Debug, PartialEq, Eq, Structural)]
pub enum CommandType {
    /// Request from the initiator port.
    Request,
    /// Acknowledge response from the responder port.
    Ack,
    /// Negative acknowledge response from the responder port.
    Nak,
    /// Busy response from the responder port.
    Busy,
}

/// A structured VDM command.
#[derive(Clone, Copy, Debug, PartialEq, Eq, Structural)]
pub enum Command {
    DiscoverIdentity,
    DiscoverSVIDs,
    DiscoverModes,
    EnterMode,
    ExitMode,
    Attention,
    SVIDSpecific,
}

/// The VDM header.
#[derive(Clone, Copy, Debug, PartialEq, Eq, Structural)]
pub struct VdmHeader {
    /// Whether this is a structured VDM.
    pub structured: bool,
    /// The major version number of this VDM.
    pub major: u8,
    /// The minor version number of this VDM.
    pub minor: u8,
    /// Index into the list of VDOs that identifies the mode, for Enter Mode,
    /// Exit Mode and Attention; zero otherwise.
    pub object_position: u8,
    pub command_type: CommandType,
    pub command: Command,
}

/// The recipient whose PD message is requested.
#[derive(Clone, Copy, Debug, PartialEq, Eq, Structural)]
pub enum MessageRecipient {
    /// The connector itself.
    Connector,
    /// The port partner of the connector.
    Sop,
    /// The cable plug of the connector.
    SopPrime,
    /// The second cable plug of the connector.
    SopDoublePrime,
}

impl WireCode for MessageRecipient {
    open spec fn spec_from_code(v: u32) -> Option<Self> {
        if v == 0 {
            Some(Self::Connector)
        } else if v == 1 {
            Some(Self::Sop)
        } else if v == 2 {
            Some(Self::SopPrime)
        } else if v == 3 {
            Some(Self::SopDoublePrime)
        } else {
            None
        }
    }

    open spec fn spec_code(self) -> u32 {
        match self {
            Self::Connector => 0,
            Self::Sop => 1,
            Self::SopPrime => 2,
            Self::SopDoublePrime => 3,
        }
    }

    fn n(v: u32) -> (r: Option<Self>) {
        match v {
            0 => Some(Self::Connector),
            1 => Some(Self::Sop),
            2 => Some(Self::SopPrime),
            3 => Some(Self::SopDoublePrime),
            _ => None,
        }
    }

    fn code(&self) -> (r: u32) {
        match self {
            Self::Connector => 0,
            Self::Sop => 1,
            Self::SopPrime => 2,
            Self::SopDoublePrime => 3,
        }
    }

    proof fn lemma_code_round_trip(self) {
    }

    proof fn lemma_decoded_code(v: u32) {
    }
}

/// The type of a PD response message.
#[derive(Clone, Copy, Debug, PartialEq, Eq, Structural)]
pub enum MessageResponseType {
    /// Sink Capabilities Extended (extended message).
    SinkCapabilitiesExtended,
    /// Source Capabilities Extended (extended message).
    SourceCapabilitiesExtended,
    /// Battery Capabilities (extended message).
    BatteryCapabilities,
    /// Battery Status (data message).
    BatteryStatus,
    /// Discover Identity response (structured VDM).
    DiscoverIdentity,
    /// Revision (data message).
    Revision,
    /// Reserved values.
    Reserved,
}

impl WireCode for MessageResponseType {
    open spec fn spec_from_code(v: u32) -> Option<Self> {
        if v == 0 {
            Some(Self::SinkCapabilitiesExtended)
        } else if v == 1 {
            Some(Self::SourceCapabilitiesExtended)
        } else if v == 2 {
            Some(Self::BatteryCapabilities)
        } else if v == 3 {
            Some(Self::BatteryStatus)
        } else if v == 4 {
            Some(Self::DiscoverIdentity)
        } else if v == 5 {
            Some(Self::Revision)
        } else if v == 6 {
            Some(Self::Reserved)
        } else {
            None
        }
    }

    open spec fn spec_code(self) -> u32 {
        match self {
            Self::SinkCapabilitiesExtended => 0,
            Self::SourceCapabilitiesExtended => 1,
            Self::BatteryCapabilities => 2,
            Self::BatteryStatus => 3,
            Self::DiscoverIdentity => 4,
            Self::Revision => 5,
            Self::Reserved => 6,
        }
    }

    fn n(v: u32) -> (r: Option<Self>) {
        match v {
            0 => Some(Self::SinkCapabilitiesExtended),
            1 => Some(Self::SourceCapabilitiesExtended),
            2 => Some(Self::BatteryCapabilities),
            3 => Some(Self::BatteryStatus),
            4 => Some(Self::DiscoverIdentity),
            5 => Some(Self::Revision),
            6 => Some(Self::Reserved),
            _ => None,
        }
    }

    fn code(&self) -> (r: u32) {
        match self {
            Self::SinkCapabilitiesExtended => 0,
            Self::SourceCapabilitiesExtended => 1,
            Self::BatteryCapabilities => 2,
            Self::BatteryStatus => 3,
            Self::DiscoverIdentity => 4,
            Self::Revision => 5,
            Self::Reserved => 6,
        }
    }

    proof fn lemma_code_round_trip(self) {
    }

    proof fn lemma_decoded_code(v: u32) {
    }
}


/// A power data object.
#[derive(Clone, Copy, Debug, PartialEq, Eq, Structural)]
pub enum Pdo {
    Pd3p2FixedSupplyPdo(Pd3p2FixedSupplyPdo),
    Pd3p2BatterySupplyPdo(Pd3p2BatterySupplyPdo),
    Pd3p2VariableSupplyPdo(Pd3p2VariableSupplyPdo),
    Pd3p2AugmentedPdo(Pd3p2SprProgrammableSupplyPdo),
}

/// The one PD revision whose PDO layouts are known: 3.1 (`0x0310`).
pub const SUPPORTED_PDO_REVISION: u32 = 0x310;

impl Pdo {
    /// A PDO at `p` under PD revision `revision`: a 2-bit type tag, then the
    /// record of that type, from the bit after the tag (each record begins
    /// with two further bits of supply kind, which it skips). Any revision
    /// but the supported one is refused before anything is read.
    pub open spec fn spec_decode(d: Seq<u8>, p: int, revision: BcdWrapper) -> Result<Pdo> {
        if revision.0 != SUPPORTED_PDO_REVISION {
            Err(Error::UnsupportedUsbRevision { revision })
        } else if !has_bits(d, p, 2) {
            Err(Error::UnexpectedEof)
        } else {
            let tag = field(d, p, 0, 2);
            let q = p + 2;
            if tag == 0 {
                match Pd3p2FixedSupplyPdo::spec_decode(d, q) {
                    Ok(x) => Ok(Pdo::Pd3p2FixedSupplyPdo(x)),
                    Err(e) => Err(e),
                }
            } else if tag == 1 {
                match Pd3p2BatterySupplyPdo::spec_decode(d, q) {
                    Ok(x) => Ok(Pdo::Pd3p2BatterySupplyPdo(x)),
                    Err(e) => Err(e),
                }
            } else if tag == 2 {
                match Pd3p2VariableSupplyPdo::spec_decode(d, q) {
                    Ok(x) => Ok(Pdo::Pd3p2VariableSupplyPdo(x)),
                    Err(e) => Err(e),
                }
            } else {
                match Pd3p2SprProgrammableSupplyPdo::spec_decode(d, q) {
                    Ok(x) => Ok(Pdo::Pd3p2AugmentedPdo(x)),
                    Err(e) => Err(e),
                }
            }
        }
    }

    pub fn from_bytes(reader: &mut BitReader, revision: BcdWrapper) -> (r: Result<Self>)
        requires
            old(reader).wf(),
        ensures
            final(reader).wf(),
            final(reader).data() == old(reader).data(),
            r == Self::spec_decode(old(reader).data(), old(reader).pos() as int, revision),
    {
        if revision.0 != SUPPORTED_PDO_REVISION {
            return Err(Error::UnsupportedUsbRevision { revision });
        }
        let ghost d = reader.data();
        let ghost p = reader.pos() as int;
        proof {
            lemma_field_bound(d, p, 0, 2);
            vstd::arithmetic::power2::lemma2_to64();
        }
        let pdo_type = reader.read(2)?;
        match pdo_type {
            0 => Ok(Pdo::Pd3p2FixedSupplyPdo(Pd3p2FixedSupplyPdo::from_bytes(reader)?)),
            1 => Ok(Pdo::Pd3p2BatterySupplyPdo(Pd3p2BatterySupplyPdo::from_bytes(reader)?)),
            2 => Ok(Pdo::Pd3p2VariableSupplyPdo(Pd3p2VariableSupplyPdo::from_bytes(reader)?)),
            3 => Ok(Pdo::Pd3p2AugmentedPdo(Pd3p2SprProgrammableSupplyPdo::from_bytes(reader)?)),
            _ => Err(Error::ParseError { field: "pdo_type", value: pdo_type }),
        }
    }
}

/// A PDO under any revision but the supported one is refused with that
/// revision, whatever the bytes hold.
pub proof fn lemma_unsupported_revision(d: Seq<u8>, p: int, revision: BcdWrapper)
    requires
        revision.0 != SUPPORTED_PDO_REVISION,
    ensures
        Pdo::spec_decode(d, p, revision) == Err::<Pdo, Error>(Error::UnsupportedUsbRevision { revision }),
{
}

/// A PD message.
#[derive(Clone, Debug, PartialEq)]
pub enum Message {
    /// Sink Capabilities Extended (extended message).
    Pd3p2SinkCapabilitiesExtended(Pd3p2SinkCapabilitiesExtended),
    /// Source Capabilities Extended (extended message).
    Pd3p2SourceCapabilitiesExtended(Pd3p2SourceCapabilitiesExtended),
    /// Battery Capabilities (extended message).
    Pd3p2BatteryCapabilities(Pd3p2BatteryCapData),
    /// Battery Status (data message).
    Pd3p2BatteryStatus(Pd3p2BatteryStatusData),
    /// Discover Identity response (structured VDM).
    Pd3p2DiscoverIdentityResponse(Pd3p2DiscoverIdentityResponse),
    /// Revision (data message).
    Pd3p2Revision(Pd3p2RevisionMessageData),
}

} // verus!
