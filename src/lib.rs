//! Discovery and decoding of USB Type-C / USB Power Delivery connector state.
//!
//! The data structures follow the USB Type-C Connector System Software
//! Interface (UCSI) specification. The binary codec (command encoding and
//! response decoding) is verified against bit-level specifications; the two
//! platform backends hand their raw inputs (attribute text, response frames)
//! to the verified functions of this crate.
use vstd::prelude::*;

pub mod backends;
pub mod codec;
pub mod text;
pub mod pd;
pub mod typec;
pub mod ucsi;
pub mod vdo;

use crate::pd::Message;
use crate::pd::MessageRecipient;
use crate::pd::MessageResponseType;
use crate::pd::Pdo;
use crate::ucsi::AlternateMode;
use crate::ucsi::CableProperty;
use crate::ucsi::Capability;
use crate::ucsi::ConnectorCapability;
use crate::ucsi::ConnectorStatus;
use crate::ucsi::GetAlternateModesRecipient;
use crate::ucsi::PdoSourceCapabilitiesType;
use crate::ucsi::PdoType;

verus! {

/// The error type of the library.
#[derive(Debug, Clone, PartialEq)]
pub enum Error {
    /// The operation, backend or platform feature is not available.
    NotSupported,
    /// A field held a value outside its table or its format: an enumerated
    /// bit field, a product type, a response frame.
    ParseError { field: &'static str, value: u32 },
    /// A text attribute matched no recognized pattern.
    ParseStringError { field: &'static str, value: String },
    /// No response came within the backend's time limit.
    TimeoutError,
    /// The record layout is known for one PD revision only.
    UnsupportedUsbRevision { revision: BcdWrapper },
    /// A decode ran past the end of its input.
    UnexpectedEof,
    /// A value does not fit the wire field it is written to.
    ValueOutOfRange { bits: u32, value: u64 },
    /// A lower-level failure of the host: I/O, a system call, text encoding
    /// or a directory walk.
    IoError { message: String },
}

pub type Result<T> = core::result::Result<T, Error>;

/// A binary-coded decimal version number (`0x0310` is revision 3.1.0).
#[derive(Clone, Copy, Debug, PartialEq, Eq, Structural)]
pub struct BcdWrapper(pub u32);

/// A voltage in millivolts.
#[derive(Clone, Copy, Debug, PartialEq, Eq, Structural)]
pub struct Millivolt(pub u32);

/// A current in milliamperes.
#[derive(Clone, Copy, Debug, PartialEq, Eq, Structural)]
pub struct Milliamp(pub u32);

/// A power in milliwatts.
#[derive(Clone, Copy, Debug, PartialEq, Eq, Structural)]
pub struct Milliwatt(pub u32);

/// A resistance in milliohms.
#[derive(Clone, Copy, Debug, PartialEq, Eq, Structural)]
pub struct Milliohm(pub u32);

/// An enumerated wire field: a fixed table between integer codes and
/// variants. A code outside the table has no variant.
pub trait WireCode: Sized {
    spec fn spec_from_code(v: u32) -> Option<Self>;

    spec fn spec_code(self) -> u32;

    /// The variant of code `v`, if the table has one.
    fn n(v: u32) -> (r: Option<Self>)
        ensures
            r == Self::spec_from_code(v),
    ;

    /// The code of this variant.
    fn code(&self) -> (r: u32)
        ensures
            r == self.spec_code(),
    ;

    /// Decoding the code of a variant gives the variant back.
    proof fn lemma_code_round_trip(self)
        ensures
            Self::spec_from_code(self.spec_code()) == Some(self),
    ;

    /// A code that decodes is the code of the variant it decodes to.
    proof fn lemma_decoded_code(v: u32)
        ensures
            Self::spec_from_code(v) matches Some(e) ==> e.spec_code() == v,
    ;
}

/// The query surface that each platform backend offers.
pub trait OsBackend {
    fn capabilities(&mut self) -> Result<Capability>;

    fn connector_capabilties(&mut self, connector_nr: usize) -> Result<ConnectorCapability>;

    fn alternate_modes(
        &mut self,
        recipient: GetAlternateModesRecipient,
        connector_nr: usize,
    ) -> Result<Vec<AlternateMode>>;

    fn cable_properties(&mut self, connector_nr: usize) -> Result<CableProperty>;

    fn connector_status(&mut self, connector_nr: usize) -> Result<ConnectorStatus>;

    fn pd_message(
        &mut self,
        connector_nr: usize,
        recipient: MessageRecipient,
        response_type: MessageResponseType,
    ) -> Result<Message>;

    fn pdos(
        &mut self,
        connector_nr: usize,
        partner_pdo: bool,
        pdo_offset: u32,
        nr_pdos: usize,
        pdo_type: PdoType,
        source_capabilities_type: PdoSourceCapabilitiesType,
        revision: BcdWrapper,
    ) -> Result<Vec<Pdo>>;
}

} // verus!
