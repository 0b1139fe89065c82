//! The filesystem-tree backend: the parts that decide and compute.
//!
//! The caller walks the tree and reads the attribute files; this module turns
//! their text into the records of the library, with the same quantization
//! as the binary decoders.
use vstd::arithmetic::power2::pow2;
use vstd::prelude::*;
use vstd::string::StrSliceExecFns;
use vstd::string::StringSliceAdditionalSpecFns;
use vstd::utf8::encode_utf8;

use crate::pd::pd3p2::vdo::CertStat;
use crate::pd::pd3p2::vdo::IdHeader;
use crate::pd::pd3p2::vdo::Product;
use crate::pd::pd3p2::vdo::ProductType;
use crate::pd::pd3p2::BatterySupplyPdo;
use crate::pd::pd3p2::DiscoverIdentityResponse;
use crate::pd::pd3p2::FastRoleSwap;
use crate::pd::pd3p2::FixedSupplyPdo;
use crate::pd::pd3p2::SprProgrammableSupplyPdo;
use crate::pd::pd3p2::VariableSupplyPdo;
use crate::pd::pd3p2::PDO_CURRENT_STEP_MA;
use crate::pd::pd3p2::PDO_POWER_STEP_MW;
use crate::pd::pd3p2::PDO_VOLTAGE_STEP_MV;
use crate::pd::pd3p2::PPS_CURRENT_STEP_MA;
use crate::pd::pd3p2::PPS_VOLTAGE_STEP_MV;
use crate::codec::bits_value;
use crate::codec::field;
use crate::codec::lemma_bits_value_le_bytes;
use crate::codec::BitReader;
use crate::pd::MessageRecipient;
use crate::pd::MessageResponseType;
use crate::pd::Pdo;
use crate::pd::VdmHeader;
use crate::pd::CommandType;
use crate::text::le_bytes;
use crate::text::push_le_bytes;
use crate::ucsi::AlternateMode;
use crate::ucsi::BmAttributes;
use crate::ucsi::BmOptionalFeatures;
use crate::ucsi::BmPowerSource;
use crate::ucsi::Capability;
use crate::ucsi::CableProperty;
use crate::ucsi::CablePropertyDirectionality;
use crate::ucsi::CablePropertySpeedExponent;
use crate::ucsi::ConnectorCapability;
use crate::ucsi::ConnectorCapabilityExtendedOperationMode;
use crate::ucsi::ConnectorCapabilityMiscellaneousCapabilities;
use crate::ucsi::GetAlternateModesRecipient;
use crate::ucsi::CablePropertyPlugEndType;
use crate::ucsi::BatteryChargingCapabilityStatus;
use crate::ucsi::ConnectorOrientation;
use crate::ucsi::ConnectorPartnerType;
use crate::ucsi::ConnectorStatus;
use crate::ucsi::ConnectorStatusChange;
use crate::ucsi::PowerDirection;
use crate::ucsi::PowerOperationMode;
use crate::ucsi::SinkPathStatus;
use crate::ucsi::CablePropertyType;
use crate::ucsi::ConnectorCapabilityOperationMode;
use crate::ucsi::PdoType;
use crate::BcdWrapper;
use crate::Error;
use crate::Milliamp;
use crate::Millivolt;
use crate::Milliwatt;
use crate::Result;
use crate::WireCode;

verus! {

/// Whether `n` occurs in `h`.
pub open spec fn spec_contains(h: Seq<u8>, n: Seq<u8>) -> bool {
    exists|i: int| 0 <= i && i + n.len() <= h.len() && #[trigger] h.subrange(i, i + n.len()) == n
}

fn window_eq(h: &[u8], start: usize, n: &[u8]) -> (r: bool)
    requires
        start + n@.len() <= h@.len(),
    ensures
        r == (h@.subrange(start as int, start + n@.len()) == n@),
{
    let hl = h.len();
    let mut k: usize = 0;
    while k < n.len()
        invariant
            k <= n@.len(),
            start + n@.len() <= h@.len(),
            hl == h@.len(),
            forall|m: int| 0 <= m < k ==> h@[start + m] == n@[m],
        decreases n@.len() - k,
    {
        if h[start + k] != n[k] {
            proof {
                assert(h@.subrange(start as int, start + n@.len())[k as int] != n@[k as int]);
            }
            return false;
        }
        k = k + 1;
    }
    proof {
        assert(h@.subrange(start as int, start + n@.len()) =~= n@);
    }
    true
}

pub fn contains_bytes(h: &[u8], n: &[u8]) -> (r: bool)
    ensures
        r == spec_contains(h@, n@),
{
    if n.len() > h.len() {
        return false;
    }
    let last = h.len() - n.len();
    let mut i: usize = 0;
    loop
        invariant
            n@.len() <= h@.len(),
            last == h@.len() - n@.len(),
            i <= last,
            forall|j: int| 0 <= j < i ==> #[trigger] h@.subrange(j, j + n@.len()) != n@,
        decreases last - i,
    {
        if window_eq(h, i, n) {
            return true;
        }
        if i == last {
            return false;
        }
        i = i + 1;
    }
}

/// Rust's white space: the characters with the Unicode White_Space
/// property.
pub open spec fn is_space(c: char) -> bool {
    let u = c as u32;
    (9 <= u <= 13) || u == 32 || u == 0x85 || u == 0xa0 || u == 0x1680 || (0x2000 <= u <= 0x200a)
        || u == 0x2028 || u == 0x2029 || u == 0x202f || u == 0x205f || u == 0x3000
}

fn is_space_char(c: char) -> (r: bool)
    ensures
        r == is_space(c),
{
    let u = c as u32;
    (9 <= u && u <= 13) || u == 32 || u == 0x85 || u == 0xa0 || u == 0x1680 || (0x2000 <= u && u
        <= 0x200a) || u == 0x2028 || u == 0x2029 || u == 0x202f || u == 0x205f || u == 0x3000
}

/// `s` without leading and trailing white space.
pub open spec fn trimmed(s: Seq<char>) -> Seq<char>
    decreases s.len(),
{
    if s.len() > 0 && is_space(s[0]) {
        trimmed(s.drop_first())
    } else if s.len() > 0 && is_space(s.last()) {
        trimmed(s.drop_last())
    } else {
        s
    }
}

/// The characters of `s`.
fn chars_of(s: &str) -> (r: Vec<char>)
    ensures
        r@ == s@,
{
    let n = s.unicode_len();
    let mut v: Vec<char> = Vec::new();
    let mut i: usize = 0;
    while i < n
        invariant
            n == s@.len(),
            i <= n,
            v@ == s@.subrange(0, i as int),
        decreases n - i,
    {
        v.push(s.get_char(i));
        proof {
            assert(v@ =~= s@.subrange(0, i + 1));
        }
        i = i + 1;
    }
    proof {
        assert(v@ =~= s@);
    }
    v
}

/// The bounds `[a, b)` of `s[start..end]` without white space at its ends.
fn trim_bounds(s: &Vec<char>, start: usize, end: usize) -> (r: (usize, usize))
    requires
        start <= end <= s@.len(),
    ensures
        start <= r.0 <= r.1 <= end,
        s@.subrange(r.0 as int, r.1 as int) == trimmed(s@.subrange(start as int, end as int)),
    decreases end - start,
{
    let ghost t = s@.subrange(start as int, end as int);
    if start < end && is_space_char(s[start]) {
        proof {
            assert(t.drop_first() =~= s@.subrange(start + 1, end as int));
        }
        trim_bounds(s, start + 1, end)
    } else if start < end && is_space_char(s[end - 1]) {
        proof {
            assert(t.drop_last() =~= s@.subrange(start as int, end - 1));
        }
        trim_bounds(s, start, end - 1)
    } else {
        (start, end)
    }
}

pub open spec fn digit_value(c: char) -> nat {
    (c as u32 - 48) as nat
}

/// The value of a BCD revision attribute ("3.1", or "2" and a newline): the
/// first character is the major digit, the third (`0` when missing) the
/// minor one; the text must have a second character.
pub open spec fn spec_bcd(c: Seq<char>) -> Option<u32> {
    if c.len() < 2 {
        None
    } else {
        let low = if c.len() >= 3 {
            c[2]
        } else {
            '0'
        };
        if is_digit_char(c[0]) && is_digit_char(low) {
            Some((digit_value(c[0]) * 256 + digit_value(low)) as u32)
        } else {
            None
        }
    }
}

/// The value of a PD revision attribute ("3.0"): the first character is the
/// major digit in the high nibble, the third the minor digit.
pub open spec fn spec_pd_revision(c: Seq<char>) -> Option<u8> {
    if c.len() < 3 {
        None
    } else if is_digit_char(c[0]) && is_digit_char(c[2]) {
        Some((digit_value(c[0]) * 16 + digit_value(c[2])) as u8)
    } else {
        None
    }
}

/// `s` with every `0x` taken out, scanning from the front.
pub open spec fn without_0x(s: Seq<char>) -> Seq<char>
    decreases s.len(),
{
    if s.len() == 0 {
        s
    } else if s.len() >= 2 && s[0] == '0' && s[1] == 'x' {
        without_0x(s.subrange(2, s.len() as int))
    } else {
        seq![s[0]] + without_0x(s.drop_first())
    }
}

pub open spec fn is_hex_char(c: char) -> bool {
    ('0' <= c && c <= '9') || ('a' <= c && c <= 'f') || ('A' <= c && c <= 'F')
}

pub open spec fn hex_char_value(c: char) -> nat {
    if '0' <= c && c <= '9' {
        (c as u32 - 48) as nat
    } else if 'a' <= c && c <= 'f' {
        (c as u32 - 87) as nat
    } else {
        (c as u32 - 55) as nat
    }
}

/// The value of a string of hexadecimal digits, most significant first.
pub open spec fn hex_chars_value(s: Seq<char>) -> nat
    decreases s.len(),
{
    if s.len() == 0 {
        0
    } else {
        16 * hex_chars_value(s.drop_last()) + hex_char_value(s.last())
    }
}

/// The digits of a hex attribute: every `0x` taken out, the text trimmed,
/// and a leading `+` dropped.
pub open spec fn hex_digits_of(c: Seq<char>) -> Seq<char> {
    let t = trimmed(without_0x(c));
    if t.len() > 0 && t[0] == '+' {
        t.drop_first()
    } else {
        t
    }
}

/// The value of a hex attribute: one or more hexadecimal digits whose value
/// fits in 32 bits.
pub open spec fn spec_hex_u32(c: Seq<char>) -> Option<u32> {
    let d = hex_digits_of(c);
    if d.len() > 0 && (forall|i: int| 0 <= i < d.len() ==> is_hex_char(#[trigger] d[i]))
        && hex_chars_value(d) <= u32::MAX {
        Some(hex_chars_value(d) as u32)
    } else {
        None
    }
}

/// The decimal value of the ASCII digits in `s`, ignoring every other
/// character.
pub open spec fn digits_value(s: Seq<char>) -> nat
    decreases s.len(),
{
    if s.len() == 0 {
        0
    } else if is_digit_char(s.last()) {
        10 * digits_value(s.drop_last()) + digit_value(s.last())
    } else {
        digits_value(s.drop_last())
    }
}

pub open spec fn has_digit(s: Seq<char>) -> bool {
    exists|i: int| 0 <= i < s.len() && is_digit_char(#[trigger] s[i])
}

/// The value of a numeric attribute ("5000mV" is 5000): the ASCII digits it
/// holds must make a number that fits in 32 bits.
pub open spec fn spec_u32(c: Seq<char>) -> Option<u32> {
    if has_digit(c) && digits_value(c) <= u32::MAX {
        Some(digits_value(c) as u32)
    } else {
        None
    }
}

/// The value of a boolean attribute: `true` or `false`, trimmed.
pub open spec fn spec_bool(c: Seq<char>) -> Option<bool> {
    let t = trimmed(c);
    if t == seq!['t', 'r', 'u', 'e'] {
        Some(true)
    } else if t == seq!['f', 'a', 'l', 's', 'e'] {
        Some(false)
    } else {
        None
    }
}

/// The operation mode that a power role attribute names.
pub open spec fn spec_opr(c: Seq<u8>) -> u8 {
    if spec_contains(c, "source".spec_bytes()) {
        if spec_contains(c, "sink".spec_bytes()) {
            ConnectorCapabilityOperationMode::DRP
        } else {
            ConnectorCapabilityOperationMode::RP_ONLY
        }
    } else {
        ConnectorCapabilityOperationMode::RD_ONLY
    }
}

/// The plug end type that a plug type attribute names.
pub open spec fn spec_plug_type(c: Seq<u8>) -> CablePropertyPlugEndType {
    if spec_contains(c, "type-c".spec_bytes()) {
        CablePropertyPlugEndType::UsbTypeC
    } else if spec_contains(c, "type-a".spec_bytes()) {
        CablePropertyPlugEndType::UsbTypeA
    } else if spec_contains(c, "type-b".spec_bytes()) {
        CablePropertyPlugEndType::UsbTypeB
    } else {
        CablePropertyPlugEndType::OtherNotUsb
    }
}

/// The cable type that a type attribute names, if any.
pub open spec fn spec_cable_type(c: Seq<u8>) -> Option<CablePropertyType> {
    if spec_contains(c, "active".spec_bytes()) {
        Some(CablePropertyType::Active)
    } else if spec_contains(c, "passive".spec_bytes()) {
        Some(CablePropertyType::Passive)
    } else {
        None
    }
}

/// Whether an error is the refusal of `content` as the attribute `name`.
pub open spec fn is_string_error(r: Error, name: &'static str, content: &str) -> bool {
    r matches Error::ParseStringError { field, value } && field == name && value@ == content@
}

/// Reads the text of the attribute files of the tree.
pub struct SysfsReader;

impl SysfsReader {
    pub fn new() -> (r: Result<Self>)
        ensures
            r is Ok,
    {
        Ok(SysfsReader)
    }

    /// A BCD revision ("3.1" is 0x301).
    pub fn read_bcd(&self, content: &str) -> (r: Result<BcdWrapper>)
        ensures
            match spec_bcd(content@) {
                Some(v) => r == Ok::<BcdWrapper, Error>(BcdWrapper(v)),
                None => r matches Err(e) && is_string_error(e, "bcd", content),
            },
    {
        let c = chars_of(content);
        if c.len() < 2 {
            return Err(Error::ParseStringError { field: "bcd", value: content.to_string() });
        }
        let high = c[0];
        let low = if c.len() >= 3 {
            c[2]
        } else {
            '0'
        };
        if !('0' <= high && high <= '9' && '0' <= low && low <= '9') {
            return Err(Error::ParseStringError { field: "bcd", value: content.to_string() });
        }
        Ok(BcdWrapper((high as u32 - 48) * 256 + (low as u32 - 48)))
    }

    /// The operation mode that a power role names: DRP when it names both
    /// "source" and "sink", Rp only for "source" alone, else Rd only.
    pub fn read_opr(&self, content: &str) -> (r: Result<ConnectorCapabilityOperationMode>)
        ensures
            r == Ok::<ConnectorCapabilityOperationMode, Error>(
                ConnectorCapabilityOperationMode(spec_opr(content.spec_bytes())),
            ),
    {
        let c = content.as_bytes();
        if contains_bytes(c, "source".as_bytes()) {
            if contains_bytes(c, "sink".as_bytes()) {
                Ok(ConnectorCapabilityOperationMode(ConnectorCapabilityOperationMode::DRP))
            } else {
                Ok(ConnectorCapabilityOperationMode(ConnectorCapabilityOperationMode::RP_ONLY))
            }
        } else {
            Ok(ConnectorCapabilityOperationMode(ConnectorCapabilityOperationMode::RD_ONLY))
        }
    }

    /// A PD revision ("3.0" is 0x30).
    pub fn read_pd_revision(&self, content: &str) -> (r: Result<u8>)
        ensures
            match spec_pd_revision(content@) {
                Some(v) => r == Ok::<u8, Error>(v),
                None => r matches Err(e) && is_string_error(e, "pd_revision", content),
            },
    {
        let c = chars_of(content);
        if c.len() < 3 || !('0' <= c[0] && c[0] <= '9' && '0' <= c[2] && c[2] <= '9') {
            return Err(Error::ParseStringError { field: "pd_revision", value: content.to_string() });
        }
        Ok(((c[0] as u32 - 48) * 16 + (c[2] as u32 - 48)) as u8)
    }

    /// A hexadecimal value ("0xff01"): every `0x` is taken out, the text is
    /// trimmed and may start with `+`.
    pub fn read_hex_u32(&self, content: &str) -> (r: Result<u32>)
        ensures
            match spec_hex_u32(content@) {
                Some(v) => r == Ok::<u32, Error>(v),
                None => r matches Err(e) && is_string_error(e, "hex_u32", content),
            },
    {
        let c = chars_of(content);
        let n = c.len();
        let mut s: Vec<char> = Vec::new();
        let mut i: usize = 0;
        proof {
            assert(c@.subrange(0, n as int) =~= c@);
            assert(s@ + without_0x(c@) =~= without_0x(c@));
        }
        while i < n
            invariant
                n == c@.len(),
                i <= n,
                s@ + without_0x(c@.subrange(i as int, n as int)) == without_0x(c@),
            decreases n - i,
        {
            let ghost rest = c@.subrange(i as int, n as int);
            if i + 1 < n && c[i] == '0' && c[i + 1] == 'x' {
                proof {
                    assert(rest.subrange(2, rest.len() as int) =~= c@.subrange(i + 2, n as int));
                }
                i = i + 2;
            } else {
                proof {
                    assert(rest.drop_first() =~= c@.subrange(i + 1, n as int));
                    assert(s@.push(c@[i as int]) + without_0x(rest.drop_first()) =~= s@ + (seq![
                        rest[0],
                    ] + without_0x(rest.drop_first())));
                }
                s.push(c[i]);
                i = i + 1;
            }
        }
        proof {
            assert(without_0x(c@.subrange(n as int, n as int)) =~= Seq::<char>::empty());
            assert(s@ =~= without_0x(c@));
        }
        let (a, b) = trim_bounds(&s, 0, s.len());
        proof {
            assert(s@.subrange(0, s@.len() as int) =~= s@);
        }
        let start = if a < b && s[a] == '+' {
            a + 1
        } else {
            a
        };
        let ghost d = s@.subrange(start as int, b as int);
        proof {
            let t = s@.subrange(a as int, b as int);
            if a < b && s@[a as int] == '+' {
                assert(t.drop_first() =~= d);
            }
            assert(hex_digits_of(content@) == d);
        }
        if start == b {
            return Err(Error::ParseStringError { field: "hex_u32", value: content.to_string() });
        }
        let mut acc: u64 = 0;
        let mut overflow = false;
        let mut k = start;
        while k < b
            invariant
                start <= k <= b <= s@.len(),
                d == s@.subrange(start as int, b as int),
                hex_digits_of(content@) == d,
                forall|j: int| 0 <= j < k - start ==> is_hex_char(#[trigger] d[j]),
                !overflow ==> acc == hex_chars_value(d.subrange(0, k - start)) && acc <= u32::MAX,
                overflow ==> hex_chars_value(d.subrange(0, k - start)) > u32::MAX,
            decreases b - k,
        {
            let x = s[k];
            proof {
                assert(d[k - start] == x);
                assert(d.subrange(0, k - start + 1).drop_last() =~= d.subrange(0, k - start));
            }
            if !(('0' <= x && x <= '9') || ('a' <= x && x <= 'f') || ('A' <= x && x <= 'F')) {
                return Err(Error::ParseStringError { field: "hex_u32", value: content.to_string() });
            }
            let v: u64 = if x <= '9' {
                x as u64 - 48
            } else if x <= 'F' {
                x as u64 - 55
            } else {
                x as u64 - 87
            };
            if !overflow {
                let next = acc * 16 + v;
                if next > u32::MAX as u64 {
                    overflow = true;
                } else {
                    acc = next;
                }
            }
            k = k + 1;
        }
        proof {
            assert(d.subrange(0, b - start) =~= d);
        }
        if overflow {
            return Err(Error::ParseStringError { field: "hex_u32", value: content.to_string() });
        }
        Ok(acc as u32)
    }

    /// A decimal value: the ASCII digits of the text, all other characters
    /// ignored.
    pub fn read_u32(&self, content: &str) -> (r: Result<u32>)
        ensures
            match spec_u32(content@) {
                Some(v) => r == Ok::<u32, Error>(v),
                None => r matches Err(e) && is_string_error(e, "u32", content),
            },
    {
        let c = chars_of(content);
        let mut acc: u64 = 0;
        let mut overflow = false;
        let mut seen = false;
        let mut i: usize = 0;
        while i < c.len()
            invariant
                i <= c@.len(),
                c@ == content@,
                !overflow ==> acc == digits_value(c@.subrange(0, i as int)) && acc <= u32::MAX,
                overflow ==> digits_value(c@.subrange(0, i as int)) > u32::MAX,
                seen == has_digit(c@.subrange(0, i as int)),
            decreases c@.len() - i,
        {
            let x = c[i];
            proof {
                assert(c@.subrange(0, i + 1).drop_last() =~= c@.subrange(0, i as int));
                if has_digit(c@.subrange(0, i as int)) {
                    let k = choose|k: int| 0 <= k < i && is_digit_char(#[trigger] c@.subrange(0, i as int)[k]);
                    assert(c@.subrange(0, i + 1)[k] == c@.subrange(0, i as int)[k]);
                }
                if has_digit(c@.subrange(0, i + 1)) {
                    let k = choose|k: int| 0 <= k < i + 1 && is_digit_char(#[trigger] c@.subrange(0, i + 1)[k]);
                    if k < i {
                        assert(c@.subrange(0, i as int)[k] == c@.subrange(0, i + 1)[k]);
                    }
                }
                assert(c@.subrange(0, i + 1)[i as int] == x);
            }
            if '0' <= x && x <= '9' {
                seen = true;
                if !overflow {
                    let next = acc * 10 + (x as u64 - 48);
                    if next > u32::MAX as u64 {
                        overflow = true;
                    } else {
                        acc = next;
                    }
                }
            }
            i = i + 1;
        }
        proof {
            assert(c@.subrange(0, c@.len() as int) =~= c@);
        }
        if !seen || overflow {
            return Err(Error::ParseStringError { field: "u32", value: content.to_string() });
        }
        Ok(acc as u32)
    }

    /// A boolean: `true` or `false`, with white space around it.
    pub fn read_bit(&self, content: &str) -> (r: Result<bool>)
        ensures
            match spec_bool(content@) {
                Some(v) => r == Ok::<bool, Error>(v),
                None => r matches Err(e) && is_string_error(e, "bool", content),
            },
    {
        let c = chars_of(content);
        let (a, b) = trim_bounds(&c, 0, c.len());
        proof {
            assert(c@.subrange(0, c@.len() as int) =~= c@);
        }
        let ghost t = c@.subrange(a as int, b as int);
        if b - a == 4 && c[a] == 't' && c[a + 1] == 'r' && c[a + 2] == 'u' && c[a + 3] == 'e' {
            proof {
                assert(t =~= seq!['t', 'r', 'u', 'e']);
            }
            return Ok(true);
        }
        if b - a == 5 && c[a] == 'f' && c[a + 1] == 'a' && c[a + 2] == 'l' && c[a + 3] == 's' && c[a
            + 4] == 'e' {
            proof {
                assert(t =~= seq!['f', 'a', 'l', 's', 'e']);
            }
            return Ok(false);
        }
        proof {
            assert(t.len() == b - a);
            assert(forall|j: int| 0 <= j < t.len() ==> t[j] == c@[a + j]);
            if t == seq!['t', 'r', 'u', 'e'] {
                assert(t[0] == 't' && t[1] == 'r' && t[2] == 'u' && t[3] == 'e');
                assert(c@[a as int] == 't' && c@[a + 1] == 'r' && c@[a + 2] == 'u' && c@[a + 3] == 'e');
            }
            if t == seq!['f', 'a', 'l', 's', 'e'] {
                assert(t[0] == 'f' && t[1] == 'a' && t[2] == 'l' && t[3] == 's' && t[4] == 'e');
                assert(c@[a as int] == 'f' && c@[a + 1] == 'a' && c@[a + 2] == 'l' && c@[a + 3] == 's'
                    && c@[a + 4] == 'e');
            }
        }
        Err(Error::ParseStringError { field: "bool", value: content.to_string() })
    }

    /// The plug end type: the first of "type-c", "type-a", "type-b" that the
    /// text names, else not USB.
    pub fn read_cable_plug_type(&self, content: &str) -> (r: Result<CablePropertyPlugEndType>)
        ensures
            r == Ok::<CablePropertyPlugEndType, Error>(spec_plug_type(content.spec_bytes())),
    {
        let c = content.as_bytes();
        if contains_bytes(c, "type-c".as_bytes()) {
            Ok(CablePropertyPlugEndType::UsbTypeC)
        } else if contains_bytes(c, "type-a".as_bytes()) {
            Ok(CablePropertyPlugEndType::UsbTypeA)
        } else if contains_bytes(c, "type-b".as_bytes()) {
            Ok(CablePropertyPlugEndType::UsbTypeB)
        } else {
            Ok(CablePropertyPlugEndType::OtherNotUsb)
        }
    }

    /// The cable type: "active" or "passive"; any other text is refused.
    pub fn read_cable_type(&self, content: &str) -> (r: Result<CablePropertyType>)
        ensures
            match spec_cable_type(content.spec_bytes()) {
                Some(t) => r == Ok::<CablePropertyType, Error>(t),
                None => r matches Err(e) && is_string_error(e, "cable_type", content),
            },
    {
        let c = content.as_bytes();
        if contains_bytes(c, "active".as_bytes()) {
            Ok(CablePropertyType::Active)
        } else if contains_bytes(c, "passive".as_bytes()) {
            Ok(CablePropertyType::Passive)
        } else {
            Err(Error::ParseStringError { field: "cable_type", value: content.to_string() })
        }
    }

    /// Whether the cable supports modes: false when the text starts with
    /// `0`; an empty text is refused.
    pub fn read_cable_mode_support(&self, content: &str) -> (r: Result<bool>)
        ensures
            content.spec_bytes().len() == 0 ==> (r matches Err(e) && is_string_error(
                e,
                "cable_mode_support",
                content,
            )),
            content.spec_bytes().len() > 0 ==> r == Ok::<bool, Error>(content.spec_bytes()[0] != 48),
    {
        let c = content.as_bytes();
        if c.len() == 0 {
            return Err(Error::ParseStringError { field: "cable_mode_support", value: content.to_string() });
        }
        Ok(c[0] != 48)
    }
}

/// The attribute files of one directory: (name, text) pairs as read.
pub struct AttributeDir {
    pub entries: Vec<(String, String)>,
}

/// The text of the first attribute named `name`.
pub open spec fn spec_find(es: Seq<(String, String)>, name: Seq<char>) -> Option<String>
    decreases es.len(),
{
    if es.len() == 0 {
        None
    } else if es[0].0@ == name {
        Some(es[0].1)
    } else {
        spec_find(es.drop_first(), name)
    }
}

/// The numeric attribute `name`, if present and well formed.
pub open spec fn attr_u32(es: Seq<(String, String)>, name: Seq<char>) -> Option<u32> {
    match spec_find(es, name) {
        Some(t) => spec_u32(t@),
        None => None,
    }
}

/// The boolean attribute `name`, if present and well formed.
pub open spec fn attr_bool(es: Seq<(String, String)>, name: Seq<char>) -> Option<bool> {
    match spec_find(es, name) {
        Some(t) => spec_bool(t@),
        None => None,
    }
}

/// `v` down to a whole number of `step`s.
pub open spec fn quantize(v: u32, step: u32) -> u32 {
    (v / step * step) as u32
}

/// Whether `e` is the refusal of the text `t` by the reader `reader`.
pub open spec fn is_text_error(e: Error, reader: &'static str, t: Seq<char>) -> bool {
    e matches Error::ParseStringError { field, value } && field == reader && value@ == t
}

/// The error of reading the numeric attribute `name`: not supported when it
/// is missing, else the refusal of its text.
pub open spec fn u32_attr_error(es: Seq<(String, String)>, name: Seq<char>, e: Error) -> bool {
    match spec_find(es, name) {
        None => e == Error::NotSupported,
        Some(t) => is_text_error(e, "u32", t@),
    }
}

/// The error of reading the boolean attribute `name`.
pub open spec fn bool_attr_error(es: Seq<(String, String)>, name: Seq<char>, e: Error) -> bool {
    match spec_find(es, name) {
        None => e == Error::NotSupported,
        Some(t) => is_text_error(e, "bool", t@),
    }
}

/// The error of reading the numeric attributes `a`, `b`, `c` in that order:
/// that of the first one missing or refused.
pub open spec fn three_u32_error(
    es: Seq<(String, String)>,
    a: Seq<char>,
    b: Seq<char>,
    c: Seq<char>,
    e: Error,
) -> bool {
    if attr_u32(es, a) is None {
        u32_attr_error(es, a, e)
    } else if attr_u32(es, b) is None {
        u32_attr_error(es, b, e)
    } else {
        u32_attr_error(es, c, e)
    }
}

impl AttributeDir {
    /// The text of the attribute `name`; a missing attribute is not
    /// supported.
    pub fn get(&self, name: &str) -> (r: Result<&String>)
        ensures
            match spec_find(self.entries@, name@) {
                Some(t) => r matches Ok(x) && *x == t,
                None => r == Err::<&String, Error>(Error::NotSupported),
            },
    {
        let key = name.to_string();
        let mut i: usize = 0;
        proof {
            assert(self.entries@.subrange(0, self.entries@.len() as int) =~= self.entries@);
        }
        while i < self.entries.len()
            invariant
                i <= self.entries@.len(),
                key@ == name@,
                spec_find(self.entries@, name@) == spec_find(self.entries@.subrange(i as int, self.entries@.len() as int), name@),
            decreases self.entries@.len() - i,
        {
            let ghost rest = self.entries@.subrange(i as int, self.entries@.len() as int);
            proof {
                assert(rest.drop_first() =~= self.entries@.subrange(i + 1, self.entries@.len() as int));
            }
            if self.entries[i].0 == key {
                return Ok(&self.entries[i].1);
            }
            i = i + 1;
        }
        Err(Error::NotSupported)
    }
}

pub open spec fn fixed_supply_names(kind: PdoType) -> (Seq<char>, Seq<char>) {
    match kind {
        PdoType::Source => ("fast_role_swap"@, "maximum_current"@),
        PdoType::Sink => ("fast_role_swap_current"@, "operational_current"@),
    }
}

/// The fixed supply PDO that the attributes of `es` describe, in the units
/// of the binary decoder.
pub open spec fn spec_fixed_supply_pdo(es: Seq<(String, String)>, kind: PdoType) -> Option<FixedSupplyPdo> {
    let (frs, cur) = fixed_supply_names(kind);
    match (
        attr_bool(es, "dual_role_power"@),
        attr_bool(es, "higher_capability"@),
        attr_bool(es, "unconstrained_power"@),
        attr_bool(es, "usb_communication_capable"@),
        attr_bool(es, "dual_role_data"@),
        attr_u32(es, frs),
        attr_u32(es, "voltage"@),
        attr_u32(es, cur),
    ) {
        (Some(a), Some(b), Some(c), Some(d), Some(e), Some(f), Some(v), Some(i)) => match FastRoleSwap::spec_from_code(f) {
            Some(fast_role_swap) => Some(FixedSupplyPdo {
                dual_role_power: a,
                higher_capability: b,
                unconstrained_power: c,
                usb_communications_capable: d,
                dual_role_data: e,
                fast_role_swap,
                voltage: Millivolt(quantize(v, PDO_VOLTAGE_STEP_MV)),
                operational_current: Milliamp(quantize(i, PDO_CURRENT_STEP_MA)),
            }),
            None => None,
        },
        _ => None,
    }
}

/// The error of a fixed supply PDO whose attributes do not describe one:
/// that of the first attribute, in reading order, that is missing or
/// refused, or a parse error naming the fast role swap code outside its
/// table.
pub open spec fn spec_fixed_supply_error(es: Seq<(String, String)>, kind: PdoType, e: Error) -> bool {
    let (frs, cur) = fixed_supply_names(kind);
    if attr_bool(es, "dual_role_power"@) is None {
        bool_attr_error(es, "dual_role_power"@, e)
    } else if attr_bool(es, "higher_capability"@) is None {
        bool_attr_error(es, "higher_capability"@, e)
    } else if attr_bool(es, "unconstrained_power"@) is None {
        bool_attr_error(es, "unconstrained_power"@, e)
    } else if attr_bool(es, "usb_communication_capable"@) is None {
        bool_attr_error(es, "usb_communication_capable"@, e)
    } else if attr_bool(es, "dual_role_data"@) is None {
        bool_attr_error(es, "dual_role_data"@, e)
    } else if attr_u32(es, frs) is None {
        u32_attr_error(es, frs, e)
    } else if FastRoleSwap::spec_from_code(attr_u32(es, frs)->Some_0) is None {
        e == Error::ParseError { field: "fast_role_swap", value: attr_u32(es, frs)->Some_0 }
    } else if attr_u32(es, "voltage"@) is None {
        u32_attr_error(es, "voltage"@, e)
    } else {
        u32_attr_error(es, cur, e)
    }
}

pub open spec fn power_or_current_name(kind: PdoType, source: Seq<char>, sink: Seq<char>) -> Seq<char> {
    match kind {
        PdoType::Source => source,
        PdoType::Sink => sink,
    }
}

/// The programmable supply APDO that the attributes of `es` describe.
pub open spec fn spec_programmable_supply_pdo(es: Seq<(String, String)>, kind: PdoType) -> Option<SprProgrammableSupplyPdo> {
    match (
        attr_u32(es, "maximum_voltage"@),
        attr_u32(es, "minimum_voltage"@),
        attr_u32(es, power_or_current_name(kind, "maximum_current"@, "operational_current"@)),
    ) {
        (Some(a), Some(b), Some(c)) => Some(SprProgrammableSupplyPdo {
            max_voltage: Millivolt(quantize(a, PPS_VOLTAGE_STEP_MV)),
            min_voltage: Millivolt(quantize(b, PPS_VOLTAGE_STEP_MV)),
            max_current: Milliamp(quantize(c, PPS_CURRENT_STEP_MA)),
        }),
        _ => None,
    }
}

/// The battery supply PDO that the attributes of `es` describe.
pub open spec fn spec_battery_supply_pdo(es: Seq<(String, String)>, kind: PdoType) -> Option<BatterySupplyPdo> {
    match (
        attr_u32(es, "maximum_voltage"@),
        attr_u32(es, "minimum_voltage"@),
        attr_u32(es, power_or_current_name(kind, "maximum_power"@, "operational_power"@)),
    ) {
        (Some(a), Some(b), Some(c)) => Some(BatterySupplyPdo {
            max_voltage: Millivolt(quantize(a, PDO_VOLTAGE_STEP_MV)),
            min_voltage: Millivolt(quantize(b, PDO_VOLTAGE_STEP_MV)),
            operational_power: Milliwatt(quantize(c, PDO_POWER_STEP_MW)),
        }),
        _ => None,
    }
}

/// The variable supply PDO that the attributes of `es` describe.
pub open spec fn spec_variable_supply_pdo(es: Seq<(String, String)>) -> Option<VariableSupplyPdo> {
    match (
        attr_u32(es, "maximum_voltage"@),
        attr_u32(es, "minimum_voltage"@),
        attr_u32(es, "maximum_current"@),
    ) {
        (Some(a), Some(b), Some(c)) => Some(VariableSupplyPdo {
            max_voltage: Millivolt(quantize(a, PDO_VOLTAGE_STEP_MV)),
            min_voltage: Millivolt(quantize(b, PDO_VOLTAGE_STEP_MV)),
            max_current: Milliamp(quantize(c, PDO_CURRENT_STEP_MA)),
        }),
        _ => None,
    }
}

/// The PDO of a capability directory entry named `name` (its bytes), the
/// first kind its name mentions among fixed, variable, battery and
/// programmable; `Some(None)` for any other entry, `None` when its
/// attributes do not describe that kind.
pub open spec fn spec_child_pdo(name: Seq<u8>, es: Seq<(String, String)>, kind: PdoType) -> Option<Option<Pdo>> {
    if spec_contains(name, "fixed".spec_bytes()) {
        match spec_fixed_supply_pdo(es, kind) {
            Some(p) => Some(Some(Pdo::Pd3p2FixedSupplyPdo(p))),
            None => None,
        }
    } else if spec_contains(name, "variable".spec_bytes()) {
        match spec_variable_supply_pdo(es) {
            Some(p) => Some(Some(Pdo::Pd3p2VariableSupplyPdo(p))),
            None => None,
        }
    } else if spec_contains(name, "battery".spec_bytes()) {
        match spec_battery_supply_pdo(es, kind) {
            Some(p) => Some(Some(Pdo::Pd3p2BatterySupplyPdo(p))),
            None => None,
        }
    } else if spec_contains(name, "programmable".spec_bytes()) {
        match spec_programmable_supply_pdo(es, kind) {
            Some(p) => Some(Some(Pdo::Pd3p2AugmentedPdo(p))),
            None => None,
        }
    } else {
        Some(None)
    }
}

/// The error of an entry whose attributes do not describe the kind its name
/// mentions.
pub open spec fn spec_child_error(name: Seq<u8>, es: Seq<(String, String)>, kind: PdoType, e: Error) -> bool {
    if spec_contains(name, "fixed".spec_bytes()) {
        spec_fixed_supply_error(es, kind, e)
    } else if spec_contains(name, "variable".spec_bytes()) {
        three_u32_error(es, "maximum_voltage"@, "minimum_voltage"@, "maximum_current"@, e)
    } else if spec_contains(name, "battery".spec_bytes()) {
        three_u32_error(
            es,
            "maximum_voltage"@,
            "minimum_voltage"@,
            power_or_current_name(kind, "maximum_power"@, "operational_power"@),
            e,
        )
    } else {
        three_u32_error(
            es,
            "maximum_voltage"@,
            "minimum_voltage"@,
            power_or_current_name(kind, "maximum_current"@, "operational_current"@),
            e,
        )
    }
}

/// The PDOs of the entries of a capability directory, in order: each entry
/// that names a kind gives one; `None` once one of them does not describe
/// its kind.
pub open spec fn spec_pdos(children: Seq<(String, AttributeDir)>, kind: PdoType) -> Option<Seq<Pdo>>
    decreases children.len(),
{
    if children.len() == 0 {
        Some(seq![])
    } else {
        match spec_pdos(children.drop_last(), kind) {
            None => None,
            Some(ps) => match spec_child_pdo(
                encode_utf8(children.last().0@),
                children.last().1.entries@,
                kind,
            ) {
                None => None,
                Some(None) => Some(ps),
                Some(Some(p)) => Some(ps.push(p)),
            },
        }
    }
}

/// Once the entries up to `j` fail, all of them fail.
proof fn lemma_pdos_none_extends(children: Seq<(String, AttributeDir)>, kind: PdoType, j: int)
    requires
        0 <= j <= children.len(),
        spec_pdos(children.subrange(0, j), kind) is None,
    ensures
        spec_pdos(children, kind) is None,
    decreases children.len() - j,
{
    if j < children.len() {
        assert(children.subrange(0, j + 1).drop_last() =~= children.subrange(0, j));
        lemma_pdos_none_extends(children, kind, j + 1);
    } else {
        assert(children.subrange(0, j) =~= children);
    }
}

/// The error of the first entry whose attributes do not describe its kind.
pub open spec fn spec_pdos_error(children: Seq<(String, AttributeDir)>, kind: PdoType, e: Error) -> bool {
    exists|i: int|
        0 <= i < children.len() && spec_pdos(children.subrange(0, i), kind) is Some && spec_child_pdo(
            encode_utf8(children[i].0@),
            children[i].1.entries@,
            kind,
        ) is None && #[trigger] spec_child_error(
            encode_utf8(children[i].0@),
            children[i].1.entries@,
            kind,
            e,
        )
}

impl SysfsReader {
    fn attr_u32(&self, dir: &AttributeDir, name: &str) -> (r: Result<u32>)
        ensures
            r matches Ok(v) ==> attr_u32(dir.entries@, name@) == Some(v),
            attr_u32(dir.entries@, name@) matches Some(v) ==> r == Ok::<u32, Error>(v),
            r matches Err(e) ==> u32_attr_error(dir.entries@, name@, e),
    {
        let t = dir.get(name)?;
        self.read_u32(t.as_str())
    }

    fn attr_bool(&self, dir: &AttributeDir, name: &str) -> (r: Result<bool>)
        ensures
            r matches Ok(v) ==> attr_bool(dir.entries@, name@) == Some(v),
            attr_bool(dir.entries@, name@) matches Some(v) ==> r == Ok::<bool, Error>(v),
            r matches Err(e) ==> bool_attr_error(dir.entries@, name@, e),
    {
        let t = dir.get(name)?;
        self.read_bit(t.as_str())
    }

    /// A fixed supply PDO from the attributes of its directory. The names of
    /// the fast role swap and current attributes depend on `src_or_sink`.
    pub fn read_fixed_supply_pdo(&self, dir: &AttributeDir, src_or_sink: PdoType) -> (r: Result<FixedSupplyPdo>)
        ensures
            match spec_fixed_supply_pdo(dir.entries@, src_or_sink) {
                Some(p) => r == Ok::<FixedSupplyPdo, Error>(p),
                None => r matches Err(e) && spec_fixed_supply_error(dir.entries@, src_or_sink, e),
            },
    {
        let (frs_name, current_name) = match src_or_sink {
            PdoType::Source => ("fast_role_swap", "maximum_current"),
            PdoType::Sink => ("fast_role_swap_current", "operational_current"),
        };
        let dual_role_power = self.attr_bool(dir, "dual_role_power")?;
        let higher_capability = self.attr_bool(dir, "higher_capability")?;
        let unconstrained_power = self.attr_bool(dir, "unconstrained_power")?;
        let usb_communications_capable = self.attr_bool(dir, "usb_communication_capable")?;
        let dual_role_data = self.attr_bool(dir, "dual_role_data")?;
        let fast_role_swap = self.attr_u32(dir, frs_name)?;
        let fast_role_swap = match FastRoleSwap::n(fast_role_swap) {
            Some(e) => e,
            None => return Err(Error::ParseError { field: "fast_role_swap", value: fast_role_swap }),
        };
        let voltage = self.attr_u32(dir, "voltage")?;
        let current = self.attr_u32(dir, current_name)?;
        Ok(FixedSupplyPdo {
            dual_role_power,
            higher_capability,
            unconstrained_power,
            usb_communications_capable,
            dual_role_data,
            fast_role_swap,
            voltage: Millivolt(voltage / PDO_VOLTAGE_STEP_MV * PDO_VOLTAGE_STEP_MV),
            operational_current: Milliamp(current / PDO_CURRENT_STEP_MA * PDO_CURRENT_STEP_MA),
        })
    }

    /// A programmable supply APDO from the attributes of its directory.
    pub fn read_programmable_supply_pdo(&self, dir: &AttributeDir, src_or_sink: PdoType) -> (r: Result<SprProgrammableSupplyPdo>)
        ensures
            match spec_programmable_supply_pdo(dir.entries@, src_or_sink) {
                Some(p) => r == Ok::<SprProgrammableSupplyPdo, Error>(p),
                None => r matches Err(e) && three_u32_error(
                    dir.entries@,
                    "maximum_voltage"@,
                    "minimum_voltage"@,
                    power_or_current_name(src_or_sink, "maximum_current"@, "operational_current"@),
                    e,
                ),
            },
    {
        let max_voltage = self.attr_u32(dir, "maximum_voltage")?;
        let min_voltage = self.attr_u32(dir, "minimum_voltage")?;
        let current = match src_or_sink {
            PdoType::Source => self.attr_u32(dir, "maximum_current")?,
            PdoType::Sink => self.attr_u32(dir, "operational_current")?,
        };
        Ok(SprProgrammableSupplyPdo {
            max_voltage: Millivolt(max_voltage / PPS_VOLTAGE_STEP_MV * PPS_VOLTAGE_STEP_MV),
            min_voltage: Millivolt(min_voltage / PPS_VOLTAGE_STEP_MV * PPS_VOLTAGE_STEP_MV),
            max_current: Milliamp(current / PPS_CURRENT_STEP_MA * PPS_CURRENT_STEP_MA),
        })
    }

    /// A battery supply PDO from the attributes of its directory.
    pub fn read_battery_supply_pdo(&self, dir: &AttributeDir, src_or_sink: PdoType) -> (r: Result<BatterySupplyPdo>)
        ensures
            match spec_battery_supply_pdo(dir.entries@, src_or_sink) {
                Some(p) => r == Ok::<BatterySupplyPdo, Error>(p),
                None => r matches Err(e) && three_u32_error(
                    dir.entries@,
                    "maximum_voltage"@,
                    "minimum_voltage"@,
                    power_or_current_name(src_or_sink, "maximum_power"@, "operational_power"@),
                    e,
                ),
            },
    {
        let max_voltage = self.attr_u32(dir, "maximum_voltage")?;
        let min_voltage = self.attr_u32(dir, "minimum_voltage")?;
        let power = match src_or_sink {
            PdoType::Source => self.attr_u32(dir, "maximum_power")?,
            PdoType::Sink => self.attr_u32(dir, "operational_power")?,
        };
        Ok(BatterySupplyPdo {
            max_voltage: Millivolt(max_voltage / PDO_VOLTAGE_STEP_MV * PDO_VOLTAGE_STEP_MV),
            min_voltage: Millivolt(min_voltage / PDO_VOLTAGE_STEP_MV * PDO_VOLTAGE_STEP_MV),
            operational_power: Milliwatt(power / PDO_POWER_STEP_MW * PDO_POWER_STEP_MW),
        })
    }

    /// A variable supply PDO from the attributes of its directory.
    pub fn read_variable_supply_pdo(&self, dir: &AttributeDir, _src_or_sink: PdoType) -> (r: Result<VariableSupplyPdo>)
        ensures
            match spec_variable_supply_pdo(dir.entries@) {
                Some(p) => r == Ok::<VariableSupplyPdo, Error>(p),
                None => r matches Err(e) && three_u32_error(
                    dir.entries@,
                    "maximum_voltage"@,
                    "minimum_voltage"@,
                    "maximum_current"@,
                    e,
                ),
            },
    {
        let max_voltage = self.attr_u32(dir, "maximum_voltage")?;
        let min_voltage = self.attr_u32(dir, "minimum_voltage")?;
        let current = self.attr_u32(dir, "maximum_current")?;
        Ok(VariableSupplyPdo {
            max_voltage: Millivolt(max_voltage / PDO_VOLTAGE_STEP_MV * PDO_VOLTAGE_STEP_MV),
            min_voltage: Millivolt(min_voltage / PDO_VOLTAGE_STEP_MV * PDO_VOLTAGE_STEP_MV),
            max_current: Milliamp(current / PDO_CURRENT_STEP_MA * PDO_CURRENT_STEP_MA),
        })
    }

    /// The PDO of a capability directory entry named `child`: the kind its
    /// name mentions (fixed, variable, battery, programmable), or `None` for
    /// any other entry.
    pub fn read_pdo(&self, child: &str, dir: &AttributeDir, src_or_sink: PdoType) -> (r: Result<Option<Pdo>>)
        ensures
            match spec_child_pdo(child.spec_bytes(), dir.entries@, src_or_sink) {
                Some(p) => r == Ok::<Option<Pdo>, Error>(p),
                None => r matches Err(e) && spec_child_error(child.spec_bytes(), dir.entries@, src_or_sink, e),
            },
    {
        let c = child.as_bytes();
        if contains_bytes(c, "fixed".as_bytes()) {
            Ok(Some(Pdo::Pd3p2FixedSupplyPdo(self.read_fixed_supply_pdo(dir, src_or_sink)?)))
        } else if contains_bytes(c, "variable".as_bytes()) {
            Ok(Some(Pdo::Pd3p2VariableSupplyPdo(self.read_variable_supply_pdo(dir, src_or_sink)?)))
        } else if contains_bytes(c, "battery".as_bytes()) {
            Ok(Some(Pdo::Pd3p2BatterySupplyPdo(self.read_battery_supply_pdo(dir, src_or_sink)?)))
        } else if contains_bytes(c, "programmable".as_bytes()) {
            Ok(Some(Pdo::Pd3p2AugmentedPdo(self.read_programmable_supply_pdo(dir, src_or_sink)?)))
        } else {
            Ok(None)
        }
    }

    /// The PDOs of a capability directory from its entries, each a name and
    /// its attributes, in order.
    pub fn read_pdos(&self, children: &Vec<(String, AttributeDir)>, src_or_sink: PdoType) -> (r: Result<Vec<Pdo>>)
        ensures
            match spec_pdos(children@, src_or_sink) {
                Some(ps) => r matches Ok(v) && v@ == ps,
                None => r matches Err(e) && spec_pdos_error(children@, src_or_sink, e),
            },
    {
        let mut pdos: Vec<Pdo> = Vec::new();
        let mut i: usize = 0;
        while i < children.len()
            invariant
                i <= children@.len(),
                spec_pdos(children@.subrange(0, i as int), src_or_sink) == Some(pdos@),
            decreases children@.len() - i,
        {
            let ghost prefix = children@.subrange(0, i + 1);
            proof {
                assert(prefix.drop_last() =~= children@.subrange(0, i as int));
                assert(prefix.last() == children@[i as int]);
            }
            let child = &children[i];
            match self.read_pdo(child.0.as_str(), &child.1, src_or_sink) {
                Ok(Some(p)) => pdos.push(p),
                Ok(None) => {},
                Err(e) => {
                    proof {
                        lemma_pdos_none_extends(children@, src_or_sink, i + 1);
                        assert(spec_child_error(
                            encode_utf8(children@[i as int].0@),
                            children@[i as int].1.entries@,
                            src_or_sink,
                            e,
                        ));
                    }
                    return Err(e);
                },
            }
            i = i + 1;
        }
        proof {
            assert(children@.subrange(0, children@.len() as int) =~= children@);
        }
        Ok(pdos)
    }
}

/// A power in 250 mW units from a current in µA and a voltage in µV, both
/// first truncated to mA and mV.
pub open spec fn spec_power_units(current_ua: u32, voltage_uv: u32) -> nat {
    ((current_ua / 1000) as nat * (voltage_uv / 1000) as nat) / 250000
}

/// The negotiated power level field: the operating power in bits 10..20
/// and the maximum power in bits 0..10.
pub open spec fn spec_pack_power_level(operating: nat, maximum: nat) -> u32 {
    ((operating % 1024) * 1024 + maximum % 1024) as u32
}

/// The negotiated power level from the supply's present and maximum
/// current (µA) and voltage (µV).
pub fn negotiated_power_level(current_now: u32, voltage_now: u32, current_max: u32, voltage_max: u32) -> (r: u32)
    ensures
        r == spec_pack_power_level(
            spec_power_units(current_now, voltage_now),
            spec_power_units(current_max, voltage_max),
        ),
{
    let op = power_units(current_now, voltage_now);
    let max = power_units(current_max, voltage_max);
    ((op % 1024) * 1024 + max % 1024) as u32
}

fn power_units(current_ua: u32, voltage_uv: u32) -> (r: u64)
    ensures
        r == spec_power_units(current_ua, voltage_uv),
{
    let c = (current_ua / 1000) as u64;
    let v = (voltage_uv / 1000) as u64;
    proof {
        assert(c * v <= 4294967295u64 * 4294967295u64) by (nonlinear_arith)
            requires
                c <= 4294967295u64,
                v <= 4294967295u64,
        ;
    }
    (c * v) / 250000
}

/// The negotiated power level that the telemetry gives reads back, through
/// the bit codec on its little-endian bytes, as the two 10-bit fields of the
/// status record: the maximum power in bits 0..10 and the operating power in
/// bits 10..20, each the telemetry's power in 250 mW units (mod 1024).
pub proof fn lemma_power_level_reads_back(
    current_now: u32,
    voltage_now: u32,
    current_max: u32,
    voltage_max: u32,
)
    ensures
        ({
            let op = spec_power_units(current_now, voltage_now);
            let max = spec_power_units(current_max, voltage_max);
            let bytes = le_bytes(spec_pack_power_level(op, max) as nat, 4);
            &&& field(bytes, 0, 0, 10) == max % 1024
            &&& field(bytes, 0, 10, 10) == op % 1024
        }),
{
    let op = spec_power_units(current_now, voltage_now);
    let max = spec_power_units(current_max, voltage_max);
    let level = spec_pack_power_level(op, max) as nat;
    assert(level == (op % 1024) * 1024 + max % 1024);
    vstd::arithmetic::power2::lemma2_to64();
    lemma_bits_value_le_bytes(level, 4, 0, 10);
    lemma_bits_value_le_bytes(level, 4, 10, 10);
    vstd::arithmetic::div_mod::lemma_fundamental_div_mod_converse_div(
        level as int,
        1024,
        (op % 1024) as int,
        (max % 1024) as int,
    );
    vstd::arithmetic::div_mod::lemma_fundamental_div_mod_converse_mod(
        level as int,
        1024,
        (op % 1024) as int,
        (max % 1024) as int,
    );
    let bytes = le_bytes(level, 4);
    assert(level / pow2(0) == level);
    assert(bits_value(bytes, 0, 10) == max % 1024);
    assert(level / pow2(10) == op % 1024);
    assert((op % 1024) % 1024 == op % 1024);
    assert(bits_value(bytes, 10, 10) == op % 1024);
}

/// A connector status with every field at its default but the connect
/// status and the negotiated power level.
pub open spec fn spec_status(connected: bool, level: u32) -> ConnectorStatus {
    ConnectorStatus {
        connector_status_change: ConnectorStatusChange {
            reserved1: false,
            external_supply_change: false,
            power_operation_mode_change: false,
            attention: false,
            reserved2: false,
            supported_provider_capabilities_change: false,
            negotiated_power_level_change: false,
            pd_reset_complete: false,
            supported_cam_change: false,
            battery_charging_status_change: false,
            reserved3: false,
            connector_partner_changed: false,
        },
        power_operation_mode: PowerOperationMode::Reserved,
        connect_status: connected,
        power_direction: PowerDirection::Consumer,
        connector_partner_flags: 0,
        connector_partner_type: ConnectorPartnerType::Reserved,
        negotiated_power_level: level,
        battery_charging_capability_status: BatteryChargingCapabilityStatus::NotCharging,
        provider_capabilities_limited_reason: 0,
        pd_version_operation_mode: 0,
        orientation: ConnectorOrientation::Normal,
        sink_path_status: SinkPathStatus::NotReady,
        reverse_current_protection_status: false,
        power_reading_ready: false,
        scale_current: 0,
        peak_current: 0,
        average_current: 0,
        scale_voltage: 0,
        voltage_reading: 0,
    }
}

/// The connector status that the supply attributes describe.
pub open spec fn spec_connector_status(connected: bool, online: Seq<char>, es: Seq<(String, String)>) -> Option<ConnectorStatus> {
    match spec_hex_u32(online) {
        None => None,
        Some(0) => Some(spec_status(connected, 0)),
        Some(_) => match (
            attr_u32(es, "current_now"@),
            attr_u32(es, "voltage_now"@),
            attr_u32(es, "current_max"@),
            attr_u32(es, "voltage_max"@),
        ) {
            (Some(a), Some(b), Some(c), Some(d)) => Some(
                spec_status(connected, spec_pack_power_level(spec_power_units(a, b), spec_power_units(c, d))),
            ),
            _ => None,
        },
    }
}

/// The error of a connector status whose attributes do not describe one:
/// the refusal of the online text, else that of the first telemetry
/// attribute, in reading order, that is missing or refused.
pub open spec fn spec_connector_status_error(online: Seq<char>, es: Seq<(String, String)>, e: Error) -> bool {
    if spec_hex_u32(online) is None {
        is_text_error(e, "hex_u32", online)
    } else if attr_u32(es, "current_now"@) is None {
        u32_attr_error(es, "current_now"@, e)
    } else {
        three_u32_error(es, "voltage_now"@, "current_max"@, "voltage_max"@, e)
    }
}

/// The connector capability that a power role describes.
pub open spec fn spec_connector_capability(role: Seq<u8>, partner_pd_revision: u8) -> ConnectorCapability {
    let mode = spec_opr(role);
    ConnectorCapability {
        operation_mode: ConnectorCapabilityOperationMode(mode),
        provider: mode != ConnectorCapabilityOperationMode::RD_ONLY,
        consumer: mode != ConnectorCapabilityOperationMode::RP_ONLY,
        swap_to_dfp: false,
        swap_to_ufp: false,
        swap_to_src: false,
        swap_to_snk: false,
        extended_operation_mode: ConnectorCapabilityExtendedOperationMode::Usb4Gen2,
        miscellaneous_capabilities: ConnectorCapabilityMiscellaneousCapabilities::FwUpdate,
        reverse_current_protection_support: false,
        partner_pd_revision,
    }
}

/// The cable property that the cable attributes describe.
pub open spec fn spec_cable_property(plug_type: Seq<u8>, cable_type: CablePropertyType, mode_support: bool) -> CableProperty {
    CableProperty {
        speed_exponent: CablePropertySpeedExponent::Bps,
        speed_mantissa: 0,
        b_current_capability: 0,
        vbus_in_cable: false,
        cable_type,
        directionality: CablePropertyDirectionality::Configurable,
        plug_end_type: spec_plug_type(plug_type),
        mode_support,
        cable_pd_revision: 0,
        latency: 0,
    }
}

/// The header of an identity read from the tree: nothing of a VDM header
/// is exposed there, so every field is zero.
pub open spec fn spec_identity_header() -> VdmHeader {
    VdmHeader {
        structured: false,
        major: 0,
        minor: 0,
        object_position: 0,
        command_type: CommandType::Request,
        command: crate::pd::Command::DiscoverIdentity,
    }
}

pub open spec fn product_type_ok(es: Seq<(String, String)>, name: Seq<char>) -> bool {
    attr_u32(es, name) matches Some(v) && ProductType::spec_from_code(v) is Some
}

/// The error of a product type attribute: missing or refused, or a parse
/// error naming the code outside the table.
pub open spec fn product_type_error(es: Seq<(String, String)>, name: Seq<char>, e: Error) -> bool {
    match attr_u32(es, name) {
        None => u32_attr_error(es, name, e),
        Some(v) => e == Error::ParseError { field: "product_type_vdo", value: v },
    }
}

/// The error of an identity directory that does not describe one: that of
/// the first attribute, in reading order, that is missing or refused or
/// holds a product type outside the table, else the ID header's decoding
/// error.
pub open spec fn spec_identity_error(es: Seq<(String, String)>, e: Error) -> bool {
    if attr_u32(es, "cert_stat"@) is None {
        u32_attr_error(es, "cert_stat"@, e)
    } else if attr_u32(es, "id_header"@) is None {
        u32_attr_error(es, "id_header"@, e)
    } else if attr_u32(es, "product"@) is None {
        u32_attr_error(es, "product"@, e)
    } else if !product_type_ok(es, "product_type_vdo1"@) {
        product_type_error(es, "product_type_vdo1"@, e)
    } else if !product_type_ok(es, "product_type_vdo2"@) {
        product_type_error(es, "product_type_vdo2"@, e)
    } else if !product_type_ok(es, "product_type_vdo3"@) {
        product_type_error(es, "product_type_vdo3"@, e)
    } else {
        IdHeader::spec_decode_fields(le_bytes(attr_u32(es, "id_header"@)->Some_0 as nat, 4), 0)
            == Err::<IdHeader, Error>(e)
    }
}

/// Where the tree holds an identity: below the port partner, or below the
/// cable.
#[derive(Clone, Copy, Debug, PartialEq, Eq, Structural)]
pub enum IdentitySource {
    Partner,
    Cable,
}

impl SysfsReader {
    /// Which identity a PD message request reads: the tree holds only the
    /// Discover Identity response of the port partner (SOP) and of the cable
    /// plug (SOP'); any other request is not supported.
    pub fn identity_source(&self, recipient: MessageRecipient, response_type: MessageResponseType) -> (r: Result<IdentitySource>)
        ensures
            response_type == MessageResponseType::DiscoverIdentity && recipient == MessageRecipient::Sop
                ==> r == Ok::<IdentitySource, Error>(IdentitySource::Partner),
            response_type == MessageResponseType::DiscoverIdentity && recipient == MessageRecipient::SopPrime
                ==> r == Ok::<IdentitySource, Error>(IdentitySource::Cable),
            response_type != MessageResponseType::DiscoverIdentity || (recipient != MessageRecipient::Sop
                && recipient != MessageRecipient::SopPrime) ==> r == Err::<IdentitySource, Error>(
                Error::NotSupported,
            ),
    {
        match response_type {
            MessageResponseType::DiscoverIdentity => match recipient {
                MessageRecipient::Sop => Ok(IdentitySource::Partner),
                MessageRecipient::SopPrime => Ok(IdentitySource::Cable),
                _ => Err(Error::NotSupported),
            },
            _ => Err(Error::NotSupported),
        }
    }

    /// The connector status: `connected` when the partner entry exists; the
    /// negotiated power level from the supply's telemetry when `online` is
    /// nonzero, else zero.
    pub fn connector_status(&self, connected: bool, online: &str, supply: &AttributeDir) -> (r: Result<ConnectorStatus>)
        ensures
            match spec_connector_status(connected, online@, supply.entries@) {
                Some(s) => r == Ok::<ConnectorStatus, Error>(s),
                None => r matches Err(e) && spec_connector_status_error(online@, supply.entries@, e),
            },
    {
        let online = self.read_hex_u32(online)?;
        let mut level: u32 = 0;
        if online != 0 {
            let current_now = self.attr_u32(supply, "current_now")?;
            let voltage_now = self.attr_u32(supply, "voltage_now")?;
            let current_max = self.attr_u32(supply, "current_max")?;
            let voltage_max = self.attr_u32(supply, "voltage_max")?;
            level = negotiated_power_level(current_now, voltage_now, current_max, voltage_max);
        }
        Ok(ConnectorStatus {
            connector_status_change: ConnectorStatusChange {
                reserved1: false,
                external_supply_change: false,
                power_operation_mode_change: false,
                attention: false,
                reserved2: false,
                supported_provider_capabilities_change: false,
                negotiated_power_level_change: false,
                pd_reset_complete: false,
                supported_cam_change: false,
                battery_charging_status_change: false,
                reserved3: false,
                connector_partner_changed: false,
            },
            power_operation_mode: PowerOperationMode::Reserved,
            connect_status: connected,
            power_direction: PowerDirection::Consumer,
            connector_partner_flags: 0,
            connector_partner_type: ConnectorPartnerType::Reserved,
            negotiated_power_level: level,
            battery_charging_capability_status: BatteryChargingCapabilityStatus::NotCharging,
            provider_capabilities_limited_reason: 0,
            pd_version_operation_mode: 0,
            orientation: ConnectorOrientation::Normal,
            sink_path_status: SinkPathStatus::NotReady,
            reverse_current_protection_status: false,
            power_reading_ready: false,
            scale_current: 0,
            peak_current: 0,
            average_current: 0,
            scale_voltage: 0,
            voltage_reading: 0,
        })
    }

    /// The connector capability from the power role text, and the partner's
    /// PD revision text where the platform exposes it.
    pub fn connector_capability(&self, power_role: &str, partner_pd_revision: Option<&str>) -> (r: Result<ConnectorCapability>)
        ensures
            match partner_pd_revision {
                None => r == Ok::<ConnectorCapability, Error>(
                    spec_connector_capability(power_role.spec_bytes(), 0),
                ),
                Some(t) => match spec_pd_revision(t@) {
                    Some(v) => r == Ok::<ConnectorCapability, Error>(
                        spec_connector_capability(power_role.spec_bytes(), v),
                    ),
                    None => r matches Err(e) && is_string_error(e, "pd_revision", t),
                },
            },
    {
        let operation_mode = self.read_opr(power_role)?;
        let mode = operation_mode.bits();
        let revision = match partner_pd_revision {
            Some(t) => self.read_pd_revision(t)?,
            None => 0,
        };
        Ok(ConnectorCapability {
            operation_mode,
            provider: mode != ConnectorCapabilityOperationMode::RD_ONLY,
            consumer: mode != ConnectorCapabilityOperationMode::RP_ONLY,
            swap_to_dfp: false,
            swap_to_ufp: false,
            swap_to_src: false,
            swap_to_snk: false,
            extended_operation_mode: ConnectorCapabilityExtendedOperationMode::Usb4Gen2,
            miscellaneous_capabilities: ConnectorCapabilityMiscellaneousCapabilities::FwUpdate,
            reverse_current_protection_support: false,
            partner_pd_revision: revision,
        })
    }

    /// The cable property from the plug type, cable type and mode count
    /// texts.
    pub fn cable_property(&self, plug_type: &str, cable_type: &str, mode_support: &str) -> (r: Result<CableProperty>)
        ensures
            match spec_cable_type(cable_type.spec_bytes()) {
                None => r matches Err(e) && is_string_error(e, "cable_type", cable_type),
                Some(t) => if mode_support.spec_bytes().len() == 0 {
                    r matches Err(e) && is_string_error(e, "cable_mode_support", mode_support)
                } else {
                    r == Ok::<CableProperty, Error>(
                        spec_cable_property(plug_type.spec_bytes(), t, mode_support.spec_bytes()[0] != 48),
                    )
                },
            },
    {
        let plug_end_type = self.read_cable_plug_type(plug_type)?;
        let cable_type = self.read_cable_type(cable_type)?;
        let mode_support = self.read_cable_mode_support(mode_support)?;
        Ok(CableProperty {
            speed_exponent: CablePropertySpeedExponent::Bps,
            speed_mantissa: 0,
            b_current_capability: 0,
            vbus_in_cable: false,
            cable_type,
            directionality: CablePropertyDirectionality::Configurable,
            plug_end_type,
            mode_support,
            cable_pd_revision: 0,
            latency: 0,
        })
    }

    /// The identity of a partner or cable from the numbers of its identity
    /// directory: each VDO is laid out as four little-endian bytes and read
    /// by the binary decoders; the vendor name is left unresolved.
    pub fn read_identity(&self, dir: &AttributeDir) -> (r: Result<DiscoverIdentityResponse>)
        ensures
            r matches Ok(resp) ==> {
                &&& attr_u32(dir.entries@, "cert_stat"@) matches Some(c)
                &&& attr_u32(dir.entries@, "id_header"@) matches Some(h)
                &&& attr_u32(dir.entries@, "product"@) matches Some(p)
                &&& Ok::<CertStat, Error>(resp.cert_stat) == CertStat::spec_decode(le_bytes(c as nat, 4), 0)
                &&& IdHeader::decodes_to(le_bytes(h as nat, 4), 0, resp.id_header_vdo)
                &&& resp.id_header_vdo.vendor@ == crate::pd::pd3p2::vdo::UNKNOWN_VENDOR@
                &&& Ok::<Product, Error>(resp.product_vdo) == Product::spec_decode(le_bytes(p as nat, 4), 0)
                &&& attr_u32(dir.entries@, "product_type_vdo1"@) matches Some(t1)
                &&& attr_u32(dir.entries@, "product_type_vdo2"@) matches Some(t2)
                &&& attr_u32(dir.entries@, "product_type_vdo3"@) matches Some(t3)
                &&& Some(resp.product_type_vdo[0]) == ProductType::spec_from_code(t1)
                &&& Some(resp.product_type_vdo[1]) == ProductType::spec_from_code(t2)
                &&& Some(resp.product_type_vdo[2]) == ProductType::spec_from_code(t3)
                &&& resp.header == spec_identity_header()
            },
            r matches Err(e) ==> spec_identity_error(dir.entries@, e),
            ({
                &&& attr_u32(dir.entries@, "cert_stat"@) is Some
                &&& attr_u32(dir.entries@, "id_header"@) matches Some(h)
                    && IdHeader::spec_decode_fields(le_bytes(h as nat, 4), 0) is Ok
                &&& attr_u32(dir.entries@, "product"@) is Some
                &&& attr_u32(dir.entries@, "product_type_vdo1"@) matches Some(t1)
                    && ProductType::spec_from_code(t1) is Some
                &&& attr_u32(dir.entries@, "product_type_vdo2"@) matches Some(t2)
                    && ProductType::spec_from_code(t2) is Some
                &&& attr_u32(dir.entries@, "product_type_vdo3"@) matches Some(t3)
                    && ProductType::spec_from_code(t3) is Some
            }) ==> r is Ok,
    {
        let cert_stat = self.attr_u32(dir, "cert_stat")?;
        let id_header = self.attr_u32(dir, "id_header")?;
        let product = self.attr_u32(dir, "product")?;
        let t1 = self.product_type(dir, "product_type_vdo1")?;
        let t2 = self.product_type(dir, "product_type_vdo2")?;
        let t3 = self.product_type(dir, "product_type_vdo3")?;

        let mut bytes: Vec<u8> = Vec::new();
        push_le_bytes(id_header as u64, 4, &mut bytes);
        let mut reader = BitReader::new(bytes.as_slice());
        let id_header_vdo = IdHeader::from_bytes(&mut reader)?;

        let mut bytes: Vec<u8> = Vec::new();
        push_le_bytes(cert_stat as u64, 4, &mut bytes);
        let mut reader = BitReader::new(bytes.as_slice());
        let cert_stat = CertStat::from_bytes(&mut reader)?;

        let mut bytes: Vec<u8> = Vec::new();
        push_le_bytes(product as u64, 4, &mut bytes);
        let mut reader = BitReader::new(bytes.as_slice());
        let product_vdo = Product::from_bytes(&mut reader)?;

        Ok(DiscoverIdentityResponse {
            header: VdmHeader {
                structured: false,
                major: 0,
                minor: 0,
                object_position: 0,
                command_type: CommandType::Request,
                command: crate::pd::Command::DiscoverIdentity,
            },
            id_header_vdo,
            cert_stat,
            product_vdo,
            product_type_vdo: [t1, t2, t3],
        })
    }

    fn product_type(&self, dir: &AttributeDir, name: &str) -> (r: Result<ProductType>)
        ensures
            r matches Ok(t) ==> attr_u32(dir.entries@, name@) matches Some(v) && ProductType::spec_from_code(v) == Some(t),
            attr_u32(dir.entries@, name@) matches Some(v) && ProductType::spec_from_code(v) is Some ==> r is Ok,
            r matches Err(e) ==> product_type_error(dir.entries@, name@, e),
    {
        let value = self.attr_u32(dir, name)?;
        match ProductType::n(value) {
            Some(t) => Ok(t),
            None => Err(Error::ParseError { field: "product_type_vdo", value }),
        }
    }
}

/// An indexed alternate mode entry as read: the text of its `svid` and
/// `vdo` files, `None` where a file is missing.
pub type EntryText = (Option<Seq<char>>, Option<Seq<char>>);

/// The mode of one entry: `None` when a file is missing (the end of the
/// list), `Some(Err(()))` when a text is refused.
pub open spec fn spec_entry_mode(e: EntryText) -> Option<core::result::Result<AlternateMode, ()>> {
    match e.0 {
        None => None,
        Some(s) => match spec_hex_u32(s) {
            None => Some(Err(())),
            Some(svid) => match e.1 {
                None => None,
                Some(v) => match spec_hex_u32(v) {
                    None => Some(Err(())),
                    Some(vdo) => Some(Ok(AlternateMode { svid: [svid, 0], vdo: [vdo, 0] })),
                },
            },
        },
    }
}

/// The error of an entry whose text is refused: that of the `svid` text,
/// else that of the `vdo` text.
pub open spec fn spec_entry_error(en: EntryText, e: Error) -> bool {
    match en.0 {
        None => false,
        Some(s) => if spec_hex_u32(s) is None {
            is_text_error(e, "hex_u32", s)
        } else {
            match en.1 {
                None => false,
                Some(v) => is_text_error(e, "hex_u32", v),
            }
        },
    }
}

/// What a run of indexed entries yields: the modes of the entries before
/// the first one with a missing file, and whether that one has come;
/// `None` once a text is refused.
pub open spec fn spec_sysfs_alternate_mode_scan(es: Seq<EntryText>) -> Option<(Seq<AlternateMode>, bool)>
    decreases es.len(),
{
    if es.len() == 0 {
        Some((seq![], false))
    } else {
        match spec_sysfs_alternate_mode_scan(es.drop_last()) {
            None => None,
            Some((ms, done)) => if done {
                Some((ms, true))
            } else {
                match spec_entry_mode(es.last()) {
                    None => Some((ms, true)),
                    Some(Err(_)) => None,
                    Some(Ok(m)) => Some((ms.push(m), false)),
                }
            },
        }
    }
}

/// The modes of the first `k` entries.
pub open spec fn entry_modes(es: Seq<EntryText>, k: nat) -> Seq<AlternateMode> {
    Seq::new(k, |i: int| spec_entry_mode(es[i])->Some_0->Ok_0)
}

/// Alternate-mode enumeration stops at the first missing indexed file:
/// when the `k` entries before it are complete and well formed, the scan of
/// any prefix of up to `k` entries is still running with all of them, and
/// from that entry on it has ended with exactly those `k` modes.
pub proof fn lemma_sysfs_alternate_mode_scan_stops_at_first_missing(es: Seq<EntryText>, k: int)
    requires
        0 <= k < es.len(),
        spec_entry_mode(es[k]) is None,
        forall|i: int| 0 <= i < k ==> #[trigger] spec_entry_mode(es[i]) matches Some(Ok(_)),
    ensures
        forall|j: int|
            0 <= j <= k ==> spec_sysfs_alternate_mode_scan(#[trigger] es.take(j)) == Some(
                (entry_modes(es, j as nat), false),
            ),
        forall|j: int|
            k < j <= es.len() ==> spec_sysfs_alternate_mode_scan(#[trigger] es.take(j)) == Some(
                (entry_modes(es, k as nat), true),
            ),
{
    assert forall|j: int| 0 <= j <= k implies spec_sysfs_alternate_mode_scan(#[trigger] es.take(j))
        == Some((entry_modes(es, j as nat), false)) by {
        lemma_entries_running(es, k, j);
    }
    assert forall|j: int| k < j <= es.len() implies spec_sysfs_alternate_mode_scan(
        #[trigger] es.take(j),
    ) == Some((entry_modes(es, k as nat), true)) by {
        lemma_entries_ended(es, k, j);
    }
}

proof fn lemma_entries_running(es: Seq<EntryText>, k: int, j: int)
    requires
        0 <= j <= k < es.len(),
        forall|i: int| 0 <= i < k ==> #[trigger] spec_entry_mode(es[i]) matches Some(Ok(_)),
    ensures
        spec_sysfs_alternate_mode_scan(es.take(j)) == Some((entry_modes(es, j as nat), false)),
    decreases j,
{
    if j == 0 {
        assert(entry_modes(es, 0) =~= seq![]);
    } else {
        lemma_entries_running(es, k, j - 1);
        assert(es.take(j).drop_last() =~= es.take(j - 1));
        assert(es.take(j).last() == es[j - 1]);
        assert(spec_entry_mode(es[j - 1]) matches Some(Ok(_)));
        assert(entry_modes(es, j as nat) =~= entry_modes(es, (j - 1) as nat).push(
            spec_entry_mode(es[j - 1])->Some_0->Ok_0,
        ));
    }
}

proof fn lemma_entries_ended(es: Seq<EntryText>, k: int, j: int)
    requires
        0 <= k < j <= es.len(),
        spec_entry_mode(es[k]) is None,
        forall|i: int| 0 <= i < k ==> #[trigger] spec_entry_mode(es[i]) matches Some(Ok(_)),
    ensures
        spec_sysfs_alternate_mode_scan(es.take(j)) == Some((entry_modes(es, k as nat), true)),
    decreases j,
{
    assert(es.take(j).drop_last() =~= es.take(j - 1));
    assert(es.take(j).last() == es[j - 1]);
    if j == k + 1 {
        lemma_entries_running(es, k, k);
    } else {
        lemma_entries_ended(es, k, j - 1);
    }
}

/// The view of a text that may be missing.
pub open spec fn opt_chars(t: Option<&str>) -> Option<Seq<char>> {
    match t {
        Some(s) => Some(s@),
        None => None,
    }
}

/// The alternate modes of a connector, partner or cable plug, read entry
/// by entry at indices 0, 1, 2, ... until an entry lacks a file.
pub struct SysfsAlternateModeScan {
    recipient: GetAlternateModesRecipient,
    connector_nr: usize,
    modes: Vec<AlternateMode>,
    done: bool,
    entries: Ghost<Seq<EntryText>>,
}

impl SysfsAlternateModeScan {
    pub closed spec fn target(&self) -> (GetAlternateModesRecipient, usize) {
        (self.recipient, self.connector_nr)
    }

    /// The entries handed in so far.
    pub closed spec fn entries(&self) -> Seq<EntryText> {
        self.entries@
    }

    pub closed spec fn wf(&self) -> bool {
        spec_sysfs_alternate_mode_scan(self.entries@) == Some((self.modes@, self.done))
    }

    pub closed spec fn found(&self) -> Seq<AlternateMode> {
        self.modes@
    }

    pub closed spec fn ended(&self) -> bool {
        self.done
    }

    /// A scan for `recipient`; the second cable plug is not supported.
    pub fn new(recipient: GetAlternateModesRecipient, connector_nr: usize) -> (r: Result<Self>)
        ensures
            recipient == GetAlternateModesRecipient::SopDoublePrime ==> r == Err::<Self, Error>(
                Error::NotSupported,
            ),
            recipient != GetAlternateModesRecipient::SopDoublePrime ==> (r matches Ok(s) && s.wf()
                && s.entries() == Seq::<EntryText>::empty() && s.target() == (recipient, connector_nr)),
    {
        match recipient {
            GetAlternateModesRecipient::SopDoublePrime => Err(Error::NotSupported),
            _ => Ok(
                SysfsAlternateModeScan {
                    recipient,
                    connector_nr,
                    modes: Vec::new(),
                    done: false,
                    entries: Ghost(Seq::empty()),
                },
            ),
        }
    }

    /// The index of the next entry to read, or `None` once the list ended.
    pub fn next_index(&self) -> (r: Option<usize>)
        requires
            self.wf(),
        ensures
            self.ended() ==> r is None,
            !self.ended() ==> r == Some(self.found().len() as usize),
    {
        if self.done {
            None
        } else {
            Some(self.modes.len())
        }
    }

    /// Takes the texts of the next entry's `svid` and `vdo` files.
    pub fn on_entry(&mut self, reader: &SysfsReader, svid: Option<&str>, vdo: Option<&str>) -> (r: Result<()>)
        requires
            old(self).wf(),
            !old(self).ended(),
        ensures
            final(self).entries() == old(self).entries().push((opt_chars(svid), opt_chars(vdo))),
            final(self).target() == old(self).target(),
            match spec_sysfs_alternate_mode_scan(final(self).entries()) {
                Some((ms, done)) => r == Ok::<(), Error>(()) && final(self).wf() && final(self).found() == ms
                    && final(self).ended() == done,
                None => r matches Err(e) && spec_entry_error((opt_chars(svid), opt_chars(vdo)), e),
            },
    {
        let ghost es = self.entries@.push((opt_chars(svid), opt_chars(vdo)));
        proof {
            assert(es.drop_last() =~= self.entries@);
        }
        self.entries = Ghost(es);
        let svid = match svid {
            None => {
                self.done = true;
                return Ok(());
            },
            Some(t) => reader.read_hex_u32(t)?,
        };
        let vdo = match vdo {
            None => {
                self.done = true;
                return Ok(());
            },
            Some(t) => reader.read_hex_u32(t)?,
        };
        self.modes.push(AlternateMode { svid: [svid, 0], vdo: [vdo, 0] });
        Ok(())
    }

    pub fn into_modes(self) -> (r: Vec<AlternateMode>)
        ensures
            r@ == self.found(),
    {
        self.modes
    }
}

/// Whether `c` is an ASCII decimal digit.
pub open spec fn is_digit_char(c: char) -> bool {
    '0' <= c && c <= '9'
}

/// Whether `c` is a decimal digit as regex's `\d` reads it: a character of
/// the Unicode category Nd.
pub uninterp spec fn is_decimal_digit(c: char) -> bool;

/// Whether `name` names a port: `port` and one or more decimal digits.
pub open spec fn is_port_name(name: Seq<char>) -> bool {
    &&& name.len() > 4
    &&& name[0] == 'p' && name[1] == 'o' && name[2] == 'r' && name[3] == 't'
    &&& forall|i: int| 4 <= i < name.len() ==> is_decimal_digit(#[trigger] name[i])
}

/// Whether `name` names an alternate mode of a port: `port`, a decimal
/// digit, a dot and a decimal digit.
pub open spec fn is_alt_mode_name(name: Seq<char>) -> bool {
    &&& name.len() == 7
    &&& name[0] == 'p' && name[1] == 'o' && name[2] == 'r' && name[3] == 't'
    &&& is_decimal_digit(name[4]) && name[5] == '.' && is_decimal_digit(name[6])
}

/// Relies on regex's `Regex::is_match`, with the anchored patterns
/// `^port\d+$` and `^port\d\.\d$` (`\d` being any Unicode decimal digit):
/// whether the whole name is a port name, and whether it is an alternate
/// mode name.
#[verifier::external_body]
fn match_entry_name(name: &str) -> (r: (bool, bool))
    ensures
        r.0 == (name@.len() > 4 && name@[0] == 'p' && name@[1] == 'o' && name@[2] == 'r' && name@[3]
            == 't' && forall|i: int| 4 <= i < name@.len() ==> is_decimal_digit(#[trigger] name@[i])),
        r.1 == (name@.len() == 7 && name@[0] == 'p' && name@[1] == 'o' && name@[2] == 'r' && name@[3]
            == 't' && is_decimal_digit(name@[4]) && name@[5] == '.' && is_decimal_digit(name@[6])),
{
    let port = match regex::Regex::new(r"^port\d+$") {
        Ok(re) => re.is_match(name),
        Err(_) => false,
    };
    let alt_mode = match regex::Regex::new(r"^port\d\.\d$") {
        Ok(re) => re.is_match(name),
        Err(_) => false,
    };
    (port, alt_mode)
}

/// What the tree shows of one entry: its name, the names of the entries
/// below it, and the text of its two revision attributes (`None` where the
/// file is missing).
pub struct TreeEntry {
    pub name: String,
    pub entry_names: Vec<String>,
    pub pd_revision: Option<String>,
    pub typec_revision: Option<String>,
}

pub open spec fn is_port(e: TreeEntry) -> bool {
    is_port_name(e.name@)
}

pub open spec fn revision_ok(t: Option<String>) -> bool {
    t matches Some(x) && spec_bcd(x@) is Some
}

/// Whether the entry is no port, or a port with both revisions well formed.
pub open spec fn entry_ok(e: TreeEntry) -> bool {
    !is_port(e) || (revision_ok(e.pd_revision) && revision_ok(e.typec_revision))
}

pub open spec fn entries_ok(es: Seq<TreeEntry>) -> bool {
    forall|i: int| 0 <= i < es.len() ==> entry_ok(#[trigger] es[i])
}

/// The number of alternate mode names among `names`.
pub open spec fn count_alt_modes(names: Seq<String>) -> nat
    decreases names.len(),
{
    if names.len() == 0 {
        0
    } else {
        count_alt_modes(names.drop_last()) + if is_alt_mode_name(names.last()@) {
            1nat
        } else {
            0nat
        }
    }
}

/// The number of ports among the entries.
pub open spec fn count_ports(es: Seq<TreeEntry>) -> nat
    decreases es.len(),
{
    if es.len() == 0 {
        0
    } else {
        count_ports(es.drop_last()) + if is_port(es.last()) {
            1nat
        } else {
            0nat
        }
    }
}

/// The number of alternate mode entries below the ports.
pub open spec fn total_alt_modes(es: Seq<TreeEntry>) -> nat
    decreases es.len(),
{
    if es.len() == 0 {
        0
    } else {
        total_alt_modes(es.drop_last()) + if is_port(es.last()) {
            count_alt_modes(es.last().entry_names@)
        } else {
            0nat
        }
    }
}

/// The revisions of the last port among the entries, zero without ports.
pub open spec fn last_port_revisions(es: Seq<TreeEntry>) -> (u32, u32)
    decreases es.len(),
{
    if es.len() == 0 {
        (0, 0)
    } else if is_port(es.last()) {
        (
            spec_bcd(es.last().pd_revision->Some_0@)->Some_0,
            spec_bcd(es.last().typec_revision->Some_0@)->Some_0,
        )
    } else {
        last_port_revisions(es.drop_last())
    }
}

/// The error of a port whose revisions are not well formed: a missing file
/// is not supported, a refused text is a BCD error; the PD revision first.
pub open spec fn port_error(p: TreeEntry, e: Error) -> bool {
    match p.pd_revision {
        None => e == Error::NotSupported,
        Some(t) => if spec_bcd(t@) is None {
            is_text_error(e, "bcd", t@)
        } else {
            match p.typec_revision {
                None => e == Error::NotSupported,
                Some(x) => is_text_error(e, "bcd", x@),
            }
        },
    }
}

/// The error of the first entry that is a port with a revision missing or
/// refused.
pub open spec fn spec_capabilities_error(es: Seq<TreeEntry>, e: Error) -> bool {
    exists|i: int|
        0 <= i < es.len() && entries_ok(es.subrange(0, i)) && !entry_ok(es[i]) && #[trigger] port_error(
            es[i],
            e,
        )
}

/// A capability with every field zero or false but the counts and the two
/// revisions that the tree shows.
pub open spec fn spec_tree_capability(num_connectors: nat, num_alt_modes: nat, revisions: (u32, u32)) -> Capability {
    Capability {
        bm_attributes: BmAttributes {
            disabled_state_support: false,
            battery_charging: false,
            usb_power_delivery: false,
            usb_type_c_current: false,
            bm_power_source: BmPowerSource { ac_supply: false, other: false, uses_vbus: false },
        },
        num_connectors: num_connectors as usize,
        bm_optional_features: BmOptionalFeatures {
            set_ccom_supported: false,
            set_power_level_supported: false,
            alternate_mode_details_supported: false,
            alternate_mode_override_supported: false,
            pdo_details_supported: false,
            cable_details_supported: false,
            external_supply_notification_supported: false,
            pd_reset_notification_supported: false,
            get_pd_message_supported: false,
            get_attention_vdo_supported: false,
            fw_update_request_supported: false,
            negotiated_power_level_change_supported: false,
            security_request_supported: false,
            set_retimer_mode_supported: false,
            chunking_supported: false,
        },
        num_alt_modes: num_alt_modes as usize,
        bc_version: BcdWrapper(0),
        pd_version: BcdWrapper(revisions.0),
        usb_type_c_version: BcdWrapper(revisions.1),
    }
}

proof fn lemma_prefix_bounds(es: Seq<TreeEntry>, i: int)
    requires
        0 <= i <= es.len(),
    ensures
        total_alt_modes(es.subrange(0, i)) <= total_alt_modes(es),
        count_ports(es.subrange(0, i)) <= i,
    decreases es.len() - i,
{
    if i < es.len() {
        lemma_prefix_bounds(es, i + 1);
        assert(es.subrange(0, i + 1).drop_last() =~= es.subrange(0, i));
    } else {
        assert(es.subrange(0, i) =~= es);
    }
    lemma_count_ports_bound(es.subrange(0, i));
}

proof fn lemma_count_ports_bound(es: Seq<TreeEntry>)
    ensures
        count_ports(es) <= es.len(),
    decreases es.len(),
{
    if es.len() > 0 {
        lemma_count_ports_bound(es.drop_last());
    }
}

impl SysfsReader {
    /// Whether a tree entry named `name` is a port.
    pub fn is_port_entry(&self, name: &str) -> (r: bool)
        ensures
            r == is_port_name(name@),
    {
        match_entry_name(name).0
    }

    fn count_alt_mode_entries(&self, names: &Vec<String>) -> (r: usize)
        ensures
            r == count_alt_modes(names@),
    {
        let mut n: usize = 0;
        let mut i: usize = 0;
        while i < names.len()
            invariant
                i <= names@.len(),
                n == count_alt_modes(names@.subrange(0, i as int)),
                n <= i,
            decreases names@.len() - i,
        {
            proof {
                assert(names@.subrange(0, i + 1).drop_last() =~= names@.subrange(0, i as int));
            }
            if match_entry_name(names[i].as_str()).1 {
                n = n + 1;
            }
            i = i + 1;
        }
        proof {
            assert(names@.subrange(0, names@.len() as int) =~= names@);
        }
        n
    }

    fn revision(&self, text: &Option<String>) -> (r: Result<BcdWrapper>)
        ensures
            match text {
                None => r == Err::<BcdWrapper, Error>(Error::NotSupported),
                Some(t) => match spec_bcd(t@) {
                    Some(v) => r == Ok::<BcdWrapper, Error>(BcdWrapper(v)),
                    None => r matches Err(e) && is_text_error(e, "bcd", t@),
                },
            },
    {
        match text {
            None => Err(Error::NotSupported),
            Some(t) => self.read_bcd(t.as_str()),
        }
    }

    /// The platform capability that the tree shows: the number of entries
    /// named as ports, the number of alternate mode entries below them, and
    /// the revisions of the last port (zero without ports).
    pub fn capabilities(&self, entries: &Vec<TreeEntry>) -> (r: Result<Capability>)
        requires
            total_alt_modes(entries@) <= usize::MAX,
        ensures
            entries_ok(entries@) ==> r == Ok::<Capability, Error>(
                spec_tree_capability(
                    count_ports(entries@),
                    total_alt_modes(entries@),
                    last_port_revisions(entries@),
                ),
            ),
            !entries_ok(entries@) ==> (r matches Err(e) && spec_capabilities_error(entries@, e)),
    {
        let mut num_connectors: usize = 0;
        let mut num_alt_modes: usize = 0;
        let mut pd_version = BcdWrapper(0);
        let mut usb_type_c_version = BcdWrapper(0);
        let mut i: usize = 0;
        while i < entries.len()
            invariant
                i <= entries@.len(),
                total_alt_modes(entries@) <= usize::MAX,
                entries_ok(entries@.subrange(0, i as int)),
                num_connectors == count_ports(entries@.subrange(0, i as int)),
                num_alt_modes == total_alt_modes(entries@.subrange(0, i as int)),
                (pd_version.0, usb_type_c_version.0) == last_port_revisions(entries@.subrange(0, i as int)),
            decreases entries@.len() - i,
        {
            let entry = &entries[i];
            let ghost prefix = entries@.subrange(0, i + 1);
            proof {
                assert(prefix.drop_last() =~= entries@.subrange(0, i as int));
                assert(prefix.last() == entries@[i as int]);
                lemma_prefix_bounds(entries@, i + 1);
            }
            if match_entry_name(entry.name.as_str()).0 {
                let count = self.count_alt_mode_entries(&entry.entry_names);
                let pd = match self.revision(&entry.pd_revision) {
                    Ok(v) => v,
                    Err(e) => {
                        proof {
                            assert(!entry_ok(entries@[i as int]));
                            assert(port_error(entries@[i as int], e));
                        }
                        return Err(e);
                    },
                };
                let typec = match self.revision(&entry.typec_revision) {
                    Ok(v) => v,
                    Err(e) => {
                        proof {
                            assert(!entry_ok(entries@[i as int]));
                            assert(port_error(entries@[i as int], e));
                        }
                        return Err(e);
                    },
                };
                num_connectors = num_connectors + 1;
                num_alt_modes = num_alt_modes + count;
                pd_version = pd;
                usb_type_c_version = typec;
            }
            proof {
                assert forall|j: int| 0 <= j < i + 1 implies entry_ok(#[trigger] prefix[j]) by {
                    if j < i {
                        assert(prefix[j] == entries@.subrange(0, i as int)[j]);
                    }
                }
            }
            i = i + 1;
        }
        proof {
            assert(entries@.subrange(0, entries@.len() as int) =~= entries@);
        }
        Ok(Capability {
            bm_attributes: BmAttributes {
                disabled_state_support: false,
                battery_charging: false,
                usb_power_delivery: false,
                usb_type_c_current: false,
                bm_power_source: BmPowerSource { ac_supply: false, other: false, uses_vbus: false },
            },
            num_connectors,
            bm_optional_features: BmOptionalFeatures {
                set_ccom_supported: false,
                set_power_level_supported: false,
                alternate_mode_details_supported: false,
                alternate_mode_override_supported: false,
                pdo_details_supported: false,
                cable_details_supported: false,
                external_supply_notification_supported: false,
                pd_reset_notification_supported: false,
                get_pd_message_supported: false,
                get_attention_vdo_supported: false,
                fw_update_request_supported: false,
                negotiated_power_level_change_supported: false,
                security_request_supported: false,
                set_retimer_mode_supported: false,
                chunking_supported: false,
            },
            num_alt_modes,
            bc_version: BcdWrapper(0),
            pd_version,
            usb_type_c_version,
        })
    }
}

} // verus!
