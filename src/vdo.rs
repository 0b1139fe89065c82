//! The vendor defined objects that the library decodes.
use vstd::prelude::*;

use crate::pd::pd3p2::vdo::CertStat as Pd3p2VdoCertStat;
use crate::pd::pd3p2::vdo::Dfp as Pd3p2VdoDfp;
use crate::pd::pd3p2::vdo::IdHeader as Pd3p2VdoIdHeader;
use crate::pd::pd3p2::vdo::ProductType as Pd3p2VdoProductType;
use crate::pd::pd3p2::vdo::Ufp as Pd3p2VdoUfp;
use crate::pd::pd3p2::vdo::Vpd as Pd3p2VdoVpd;

verus! {

/// A vendor defined object of one of the supported kinds.
#[derive(Clone, Debug, PartialEq)]
pub enum Vdo {
    Pd3p2IdHeader(Pd3p2VdoIdHeader),
    Pd3p2CertStat(Pd3p2VdoCertStat),
    Pd3p2ProductType(Pd3p2VdoProductType),
    Pd3p2Vpd(Pd3p2VdoVpd),
    Pd3p2Ufp(Pd3p2VdoUfp),
    Pd3p2Dfp(Pd3p2VdoDfp),
}

} // verus!
