//! The command-channel backend: the protocol half.
//!
//! A command travels as the decimal text of the low 64 bits of its frame,
//! with a trailing NUL; a response comes back as `0x` and 32 hexadecimal
//! digits (the high word, then the low word). The handles, the write and the
//! bounded wait belong to the caller, which hands each response to this
//! module.
use vstd::arithmetic::power2::pow2;
use vstd::prelude::*;

use crate::codec::BitReader;
use crate::codec::BitWriter;
use crate::pd::Pdo;
use crate::text::all_hex;
use crate::text::decimal;
use crate::text::hex_text;
use crate::text::hex_value;
use crate::text::lemma_hex_text_value;
use crate::text::is_hex_digit;
use crate::text::le_bytes;
use crate::text::parse_hex;
use crate::text::push_decimal;
use crate::text::push_le_bytes;
use crate::ucsi::AlternateMode;
use crate::ucsi::Command;
use crate::ucsi::GetAlternateModesRecipient;
use crate::ucsi::PdoSourceCapabilitiesType;
use crate::ucsi::PdoType;
use crate::BcdWrapper;
use crate::Error;
use crate::Result;

verus! {

/// Whether a response holds only zero bytes: the end of a list.
pub open spec fn spec_is_null(response: Seq<u8>) -> bool {
    forall|i: int| 0 <= i < response.len() ==> response[i] == 0
}

pub fn is_null(response: &[u8]) -> (r: bool)
    ensures
        r == spec_is_null(response@),
{
    let mut i: usize = 0;
    while i < response.len()
        invariant
            i <= response@.len(),
            forall|j: int| 0 <= j < i ==> response@[j] == 0,
        decreases response@.len() - i,
    {
        if response[i] != 0 {
            return false;
        }
        i = i + 1;
    }
    true
}

/// Whether `s` is `0x`, 32 hexadecimal digits and an optional newline.
pub open spec fn well_formed_response(s: Seq<u8>) -> bool {
    &&& s.len() == 34 || (s.len() == 35 && s[34] == 10)
    &&& s[0] == 48 && s[1] == 120
    &&& all_hex(s.subrange(2, 34))
}

/// The 16 bytes of a well-formed response: the low word, then the high
/// word, each least significant byte first.
pub open spec fn spec_response_bytes(s: Seq<u8>) -> Seq<u8> {
    le_bytes(hex_value(s.subrange(18, 34)), 8) + le_bytes(hex_value(s.subrange(2, 18)), 8)
}

/// The response text for the words `high` and `low`: `0x`, the 16 digits
/// of each, and a newline.
pub open spec fn response_text(high: u64, low: u64) -> Seq<u8> {
    seq![48u8, 120u8] + hex_text(high as nat, 16) + hex_text(low as nat, 16) + seq![10u8]
}

/// Any two words sent as response text come back as the 16 bytes of the low
/// word, then of the high word, each least significant byte first.
pub proof fn lemma_response_round_trip(high: u64, low: u64)
    ensures
        well_formed_response(response_text(high, low)),
        spec_response_bytes(response_text(high, low)) == le_bytes(low as nat, 8) + le_bytes(
            high as nat,
            8,
        ),
{
    let s = response_text(high, low);
    let h = hex_text(high as nat, 16);
    let l = hex_text(low as nat, 16);
    lemma_hex_text_value(high as nat, 16);
    lemma_hex_text_value(low as nat, 16);
    vstd::arithmetic::power2::lemma2_to64();
    vstd::arithmetic::power2::lemma2_to64_rest();
    assert(s.len() == 35);
    assert(s.subrange(2, 18) =~= h);
    assert(s.subrange(18, 34) =~= l);
    assert(s.subrange(2, 34) =~= h + l);
    assert forall|i: int| 0 <= i < 32 implies is_hex_digit(#[trigger] (h + l)[i]) by {
        if i < 16 {
            assert((h + l)[i] == h[i]);
        } else {
            assert((h + l)[i] == l[i - 16]);
        }
    }
    assert(s[34] == 10u8);
    assert(s[0] == 48u8 && s[1] == 120u8);
    assert(4 * 16nat == 64nat);
    assert(pow2(64) == 0x1_0000_0000_0000_0000nat);
    vstd::arithmetic::div_mod::lemma_small_mod(high as nat, pow2(64));
    vstd::arithmetic::div_mod::lemma_small_mod(low as nat, pow2(64));
    assert(hex_value(h) == high as nat);
    assert(hex_value(l) == low as nat);
}

/// The protocol of the UCSI debugfs command channel.
pub struct UcsiDebugfsBackend;

impl UcsiDebugfsBackend {
    /// The low 64 bits of the command frame.
    pub fn build_command_value(command: &Command) -> (r: Result<u64>)
        ensures
            match command.spec_encode() {
                Ok(f) => r == Ok::<u64, Error>((f % 0x1_0000_0000_0000_0000) as u64),
                Err(e) => r == Err::<u64, Error>(e),
            },
    {
        let mut bw = BitWriter::new();
        command.to_bytes(&mut bw)?;
        let v = bw.value();
        Ok((v % 0x1_0000_0000_0000_0000) as u64)
    }

    /// The decimal text of `val` followed by a NUL byte.
    pub fn stringify_command_val(val: u64) -> (r: Result<Vec<u8>>)
        ensures
            r matches Ok(v) && v@ == decimal(val as nat).push(0),
    {
        let mut out: Vec<u8> = Vec::new();
        push_decimal(val, &mut out);
        out.push(0);
        Ok(out)
    }

    /// What to write to the command file for `command`.
    pub fn command_text(command: &Command) -> (r: Result<Vec<u8>>)
        ensures
            match command.spec_encode() {
                Ok(f) => r matches Ok(v) && v@ == decimal(f % 0x1_0000_0000_0000_0000).push(0),
                Err(e) => r == Err::<Vec<u8>, Error>(e),
            },
    {
        let val = Self::build_command_value(command)?;
        Self::stringify_command_val(val)
    }

    /// Turns the response text into the 16 bytes the decoders read.
    pub fn parse_response(response: &[u8]) -> (r: Result<Vec<u8>>)
        ensures
            well_formed_response(response@) ==> (r matches Ok(v) && v@ == spec_response_bytes(
                response@,
            )),
            !well_formed_response(response@) ==> r == Err::<Vec<u8>, Error>(
                Error::ParseError { field: "response", value: #[verifier::truncate] (response@.len() as u32) },
            ),
    {
        let n = response.len();
        let err = Error::ParseError { field: "response", value: #[verifier::truncate] (n as u32) };
        if !(n == 34 || (n == 35 && response[34] == 10)) {
            return Err(err);
        }
        if response[0] != 48 || response[1] != 120 {
            return Err(err);
        }
        let mut i: usize = 2;
        while i < 34
            invariant
                2 <= i <= 34 <= response@.len(),
                n == response@.len(),
                forall|j: int| 2 <= j < i ==> is_hex_digit(#[trigger] response@[j]),
            decreases 34 - i,
        {
            let b = response[i];
            if !((48 <= b && b <= 57) || (65 <= b && b <= 70) || (97 <= b && b <= 102)) {
                proof {
                    assert(response@.subrange(2, 34)[i - 2] == b);
                    assert(!is_hex_digit(b));
                    assert(!all_hex(response@.subrange(2, 34)));
                }
                return Err(Error::ParseError { field: "response", value: #[verifier::truncate] (n as u32) });
            }
            i = i + 1;
        }
        proof {
            assert(all_hex(response@.subrange(2, 34))) by {
                assert forall|j: int| 0 <= j < 32 implies is_hex_digit(
                    #[trigger] response@.subrange(2, 34)[j],
                ) by {
                    assert(response@.subrange(2, 34)[j] == response@[j + 2]);
                }
            }
            assert(all_hex(response@.subrange(2, 18))) by {
                assert forall|j: int| 0 <= j < 16 implies is_hex_digit(
                    #[trigger] response@.subrange(2, 18)[j],
                ) by {
                    assert(response@.subrange(2, 18)[j] == response@[j + 2]);
                }
            }
            assert(all_hex(response@.subrange(18, 34))) by {
                assert forall|j: int| 0 <= j < 16 implies is_hex_digit(
                    #[trigger] response@.subrange(18, 34)[j],
                ) by {
                    assert(response@.subrange(18, 34)[j] == response@[j + 18]);
                }
            }
        }
        let high = parse_hex(response, 2, 18);
        let low = parse_hex(response, 18, 34);
        let mut out: Vec<u8> = Vec::new();
        push_le_bytes(low, 8, &mut out);
        push_le_bytes(high, 8, &mut out);
        proof {
            assert(out@ =~= spec_response_bytes(response@));
        }
        Ok(out)
    }
}

/// What a run of GET_ALTERNATE_MODES responses yields: the modes decoded
/// from the responses before the first all-zero one, and whether that one
/// has come. Responses after it are never requested, and count for nothing.
pub open spec fn spec_alternate_mode_scan(rs: Seq<Seq<u8>>) -> Result<(Seq<AlternateMode>, bool)>
    decreases rs.len(),
{
    if rs.len() == 0 {
        Ok((seq![], false))
    } else {
        match spec_alternate_mode_scan(rs.drop_last()) {
            Err(e) => Err(e),
            Ok((ms, done)) => if done || spec_is_null(rs.last()) {
                Ok((ms, true))
            } else {
                match AlternateMode::spec_decode(rs.last(), 0) {
                    Ok(m) => Ok((ms.push(m), false)),
                    Err(e) => Err(e),
                }
            },
        }
    }
}

/// The modes decoded from the first `k` responses.
pub open spec fn decoded_modes(rs: Seq<Seq<u8>>, k: nat) -> Seq<AlternateMode> {
    Seq::new(k, |i: int| AlternateMode::spec_decode(rs[i], 0)->Ok_0)
}

/// Alternate-mode enumeration stops at the first all-zero response: when
/// the `k` responses before it decode, the scan of any prefix of up to `k`
/// responses is still running with all of them decoded, and from that
/// response on it has ended with exactly those `k` modes.
pub proof fn lemma_alternate_mode_scan_stops_at_first_null(rs: Seq<Seq<u8>>, k: int)
    requires
        0 <= k < rs.len(),
        spec_is_null(rs[k]),
        forall|i: int|
            0 <= i < k ==> !spec_is_null(#[trigger] rs[i]) && AlternateMode::spec_decode(rs[i], 0) is Ok,
    ensures
        forall|j: int|
            0 <= j <= k ==> spec_alternate_mode_scan(#[trigger] rs.take(j)) == Ok::<
                (Seq<AlternateMode>, bool),
                Error,
            >((decoded_modes(rs, j as nat), false)),
        forall|j: int|
            k < j <= rs.len() ==> spec_alternate_mode_scan(#[trigger] rs.take(j)) == Ok::<
                (Seq<AlternateMode>, bool),
                Error,
            >((decoded_modes(rs, k as nat), true)),
{
    assert forall|j: int| 0 <= j <= k implies spec_alternate_mode_scan(#[trigger] rs.take(j)) == Ok::<
        (Seq<AlternateMode>, bool),
        Error,
    >((decoded_modes(rs, j as nat), false)) by {
        lemma_scan_running(rs, k, j);
    }
    assert forall|j: int| k < j <= rs.len() implies spec_alternate_mode_scan(#[trigger] rs.take(j))
        == Ok::<(Seq<AlternateMode>, bool), Error>((decoded_modes(rs, k as nat), true)) by {
        lemma_scan_ended(rs, k, j);
    }
}

proof fn lemma_scan_running(rs: Seq<Seq<u8>>, k: int, j: int)
    requires
        0 <= j <= k < rs.len(),
        forall|i: int|
            0 <= i < k ==> !spec_is_null(#[trigger] rs[i]) && AlternateMode::spec_decode(rs[i], 0) is Ok,
    ensures
        spec_alternate_mode_scan(rs.take(j)) == Ok::<(Seq<AlternateMode>, bool), Error>(
            (decoded_modes(rs, j as nat), false),
        ),
    decreases j,
{
    if j == 0 {
        assert(decoded_modes(rs, 0) =~= seq![]);
    } else {
        lemma_scan_running(rs, k, j - 1);
        assert(rs.take(j).drop_last() =~= rs.take(j - 1));
        assert(rs.take(j).last() == rs[j - 1]);
        assert(decoded_modes(rs, j as nat) =~= decoded_modes(rs, (j - 1) as nat).push(
            AlternateMode::spec_decode(rs[j - 1], 0)->Ok_0,
        ));
    }
}

proof fn lemma_scan_ended(rs: Seq<Seq<u8>>, k: int, j: int)
    requires
        0 <= k < j <= rs.len(),
        spec_is_null(rs[k]),
        forall|i: int|
            0 <= i < k ==> !spec_is_null(#[trigger] rs[i]) && AlternateMode::spec_decode(rs[i], 0) is Ok,
    ensures
        spec_alternate_mode_scan(rs.take(j)) == Ok::<(Seq<AlternateMode>, bool), Error>(
            (decoded_modes(rs, k as nat), true),
        ),
    decreases j,
{
    assert(rs.take(j).drop_last() =~= rs.take(j - 1));
    assert(rs.take(j).last() == rs[j - 1]);
    if j == k + 1 {
        lemma_scan_running(rs, k, k);
    } else {
        lemma_scan_ended(rs, k, j - 1);
    }
}

/// The GET_ALTERNATE_MODES enumeration, one response at a time: each
/// request asks for the next offset, and the first all-zero response ends
/// the list.
pub struct AlternateModeScan {
    recipient: GetAlternateModesRecipient,
    connector_nr: usize,
    modes: Vec<AlternateMode>,
    done: bool,
    responses: Ghost<Seq<Seq<u8>>>,
}

impl AlternateModeScan {
    /// The recipient and connector that the requests are for.
    pub closed spec fn target(&self) -> (GetAlternateModesRecipient, usize) {
        (self.recipient, self.connector_nr)
    }

    /// The responses handed in so far.
    pub closed spec fn responses(&self) -> Seq<Seq<u8>> {
        self.responses@
    }

    pub closed spec fn wf(&self) -> bool {
        spec_alternate_mode_scan(self.responses@) == Ok::<(Seq<AlternateMode>, bool), Error>(
            (self.modes@, self.done),
        )
    }

    /// The modes found so far.
    pub closed spec fn found(&self) -> Seq<AlternateMode> {
        self.modes@
    }

    pub closed spec fn ended(&self) -> bool {
        self.done
    }

    pub fn new(recipient: GetAlternateModesRecipient, connector_nr: usize) -> (r: Self)
        ensures
            r.wf(),
            r.responses() == Seq::<Seq<u8>>::empty(),
            r.target() == (recipient, connector_nr),
    {
        AlternateModeScan {
            recipient,
            connector_nr,
            modes: Vec::new(),
            done: false,
            responses: Ghost(Seq::empty()),
        }
    }

    /// The next request, or `None` once the list has ended.
    pub fn next_command(&self) -> (r: Option<Command>)
        requires
            self.wf(),
        ensures
            self.ended() ==> r is None,
            !self.ended() ==> r == Some(
                Command::GetAlternateModes {
                    recipient: self.target().0,
                    connector_nr: self.target().1,
                    offset: self.found().len() as usize,
                },
            ),
    {
        if self.done {
            None
        } else {
            Some(
                Command::GetAlternateModes {
                    recipient: self.recipient,
                    connector_nr: self.connector_nr,
                    offset: self.modes.len(),
                },
            )
        }
    }

    /// Takes the response to the last request.
    pub fn on_response(&mut self, response: &[u8]) -> (r: Result<()>)
        requires
            old(self).wf(),
            !old(self).ended(),
            response@.len() * 8 <= usize::MAX,
        ensures
            final(self).responses() == old(self).responses().push(response@),
            final(self).target() == old(self).target(),
            match spec_alternate_mode_scan(final(self).responses()) {
                Ok((ms, done)) => r == Ok::<(), Error>(()) && final(self).wf() && final(self).found()
                    == ms && final(self).ended() == done,
                Err(e) => r == Err::<(), Error>(e),
            },
    {
        let ghost rs = self.responses@.push(response@);
        proof {
            assert(rs.drop_last() =~= self.responses@);
        }
        self.responses = Ghost(rs);
        if is_null(response) {
            self.done = true;
            return Ok(());
        }
        let mut reader = BitReader::new(response);
        let mode = AlternateMode::from_bytes(&mut reader)?;
        self.modes.push(mode);
        Ok(())
    }

    /// The modes found.
    pub fn into_modes(self) -> (r: Vec<AlternateMode>)
        ensures
            r@ == self.found(),
    {
        self.modes
    }
}

/// What a run of GET_PDOS responses yields: the PDOs decoded from the
/// responses before the first all-zero one, and whether the list ended,
/// either at that response or once `nr_pdos` PDOs (when nonzero) were found.
pub open spec fn spec_pdo_scan(rs: Seq<Seq<u8>>, nr_pdos: usize, revision: BcdWrapper) -> Result<
    (Seq<Pdo>, bool),
>
    decreases rs.len(),
{
    if rs.len() == 0 {
        Ok((seq![], false))
    } else {
        match spec_pdo_scan(rs.drop_last(), nr_pdos, revision) {
            Err(e) => Err(e),
            Ok((ps, done)) => if done || spec_is_null(rs.last()) {
                Ok((ps, true))
            } else {
                match Pdo::spec_decode(rs.last(), 0, revision) {
                    Ok(p) => Ok((ps.push(p), nr_pdos > 0 && ps.len() + 1 == nr_pdos)),
                    Err(e) => Err(e),
                }
            },
        }
    }
}

/// The offset of the next GET_PDOS request (saturating).
pub open spec fn spec_pdo_request_offset(pdo_offset: u32, found: nat) -> u32 {
    if pdo_offset + found > u32::MAX {
        u32::MAX
    } else {
        (pdo_offset + found) as u32
    }
}

/// The parameters of a PDO query.
#[derive(Clone, Copy, Debug, PartialEq, Eq, Structural)]
pub struct PdoQuery {
    pub connector_nr: usize,
    pub partner_pdo: bool,
    pub pdo_offset: u32,
    pub nr_pdos: usize,
    pub pdo_type: PdoType,
    pub source_capabilities_type: PdoSourceCapabilitiesType,
    pub revision: BcdWrapper,
}

/// The GET_PDOS enumeration, one response at a time: each request asks for
/// the next offset; an all-zero response, or reaching `nr_pdos` PDOs when
/// it is nonzero, ends the list.
pub struct PdoScan {
    query: PdoQuery,
    pdos: Vec<Pdo>,
    done: bool,
    responses: Ghost<Seq<Seq<u8>>>,
}

impl PdoScan {
    pub closed spec fn query(&self) -> PdoQuery {
        self.query
    }

    pub closed spec fn responses(&self) -> Seq<Seq<u8>> {
        self.responses@
    }

    pub closed spec fn wf(&self) -> bool {
        spec_pdo_scan(self.responses@, self.query.nr_pdos, self.query.revision) == Ok::<(Seq<Pdo>, bool), Error>(
            (self.pdos@, self.done),
        )
    }

    pub closed spec fn found(&self) -> Seq<Pdo> {
        self.pdos@
    }

    pub closed spec fn ended(&self) -> bool {
        self.done
    }

    pub fn new(query: PdoQuery) -> (r: Self)
        ensures
            r.wf(),
            r.responses() == Seq::<Seq<u8>>::empty(),
            r.query() == query,
    {
        PdoScan { query, pdos: Vec::new(), done: false, responses: Ghost(Seq::empty()) }
    }

    /// The next request, or `None` once the list has ended.
    pub fn next_command(&self) -> (r: Option<Command>)
        requires
            self.wf(),
        ensures
            self.ended() ==> r is None,
            !self.ended() ==> r == Some(
                Command::GetPdos {
                    connector_nr: self.query().connector_nr,
                    partner_pdo: self.query().partner_pdo,
                    pdo_offset: spec_pdo_request_offset(self.query().pdo_offset, self.found().len()),
                    nr_pdos: self.query().nr_pdos,
                    pdo_type: self.query().pdo_type,
                    source_capabilities_type: self.query().source_capabilities_type,
                },
            ),
    {
        if self.done {
            return None;
        }
        let q = self.query;
        let found = self.pdos.len() as u64;
        let offset = if found > (u32::MAX - q.pdo_offset) as u64 {
            u32::MAX
        } else {
            q.pdo_offset + found as u32
        };
        Some(
            Command::GetPdos {
                connector_nr: q.connector_nr,
                partner_pdo: q.partner_pdo,
                pdo_offset: offset,
                nr_pdos: q.nr_pdos,
                pdo_type: q.pdo_type,
                source_capabilities_type: q.source_capabilities_type,
            },
        )
    }

    /// Takes the response to the last request.
    pub fn on_response(&mut self, response: &[u8]) -> (r: Result<()>)
        requires
            old(self).wf(),
            !old(self).ended(),
            response@.len() * 8 <= usize::MAX,
        ensures
            final(self).responses() == old(self).responses().push(response@),
            final(self).query() == old(self).query(),
            match spec_pdo_scan(
                final(self).responses(),
                final(self).query().nr_pdos,
                final(self).query().revision,
            ) {
                Ok((ps, done)) => r == Ok::<(), Error>(()) && final(self).wf() && final(self).found()
                    == ps && final(self).ended() == done,
                Err(e) => r == Err::<(), Error>(e),
            },
    {
        let ghost rs = self.responses@.push(response@);
        proof {
            assert(rs.drop_last() =~= self.responses@);
        }
        self.responses = Ghost(rs);
        if is_null(response) {
            self.done = true;
            return Ok(());
        }
        let mut reader = BitReader::new(response);
        let pdo = Pdo::from_bytes(&mut reader, self.query.revision)?;
        self.pdos.push(pdo);
        self.done = self.query.nr_pdos > 0 && self.pdos.len() == self.query.nr_pdos;
        Ok(())
    }

    /// The PDOs found.
    pub fn into_pdos(self) -> (r: Vec<Pdo>)
        ensures
            r@ == self.found(),
    {
        self.pdos
    }
}

} // verus!
