use vstd::prelude::*;

verus! {

/// Closed set of known message shapes. Each name corresponds to one entry of
/// the XpressNet documentation.
#[derive(Clone, Copy, Debug, PartialEq, Eq, Structural)]
pub enum LZMessageName {
    NormalRequest,
    RequestAcknowledge,
    TBD,
    BroadcastAllOn,
    BroadcastAllOff,
    BroadcastAllLocoOff,
    BroadcastProgrammingMode,
    BroadcastFeedback,
    BroadcastFeedbackExtended,
    ServiceValueReport,
    SoftwareVersionReport23,
    SoftwareVersionReport30,
    StateLZ,
    ExtendedVersionInformation,
    PoMEventReport,
    ModelTime,
    TransmissionError,
    LZBusy,
    CommandNotFound,
    SwitchInfo,
    SwitchInfoExtended,
    LocoFreeV15,
    LocoOccupiedV15,
    LocoFreeV23,
    LocoOccupiedV23,
    LocoInfoNormalV30,
    LocoFunctionStateUpperV36,
    LocoFunctionStateUpperUpperV40,
    LocoInfoMultipleLocos,
    LocoInfoMultipleLocosBase,
    LocoInfoDoubleLocos,
    LocoInUseV30,
    LocoFunctionStateF0F12V30,
    LocoFunctionStateF13F28V36,
    LocoFunctionStateF29F68V40,
    LocoInfoSearchV30,
    DoubleLocoFreeV15,
    DoubleLocoUsedV15,
    DoubleLocoFreeV23,
    DoubleLocoUsedV23,
    DoubleLocoErrorV23,
    LZErrorsV30,
}

/// Declared payload length of a message shape: either a fixed byte count, or
/// a count carried in the low nibble of the header byte (variable-length
/// feedback frames). A shape with a nibble-derived count also treats the low
/// nibble of its header requirement as "don't care".
#[derive(Clone, Copy, Debug, PartialEq, Eq, Structural)]
pub enum DataByteCount {
    Fixed(u8),
    FromHeaderLowNibble,
}

/// Protocol versions are carried in tenths (36 stands for firmware 3.6) so
/// that version windows stay exact integers. This value marks an open upper
/// bound.
pub const VERSION_TENTHS_MAX: u16 = 65535;

/// One known frame shape: which call bytes open it, its header and
/// identifier requirements, its declared payload length, the protocol
/// versions it applies to, and whether a trailing XOR checksum is required.
#[derive(Clone, Copy, Debug, PartialEq, Eq, Structural)]
pub struct LZMessageDefinition {
    pub name: LZMessageName,
    /// Two-bit request type code of the call byte that opens this shape.
    pub call_byte_value: u8,
    /// True when the call byte must carry a valid parity bit for this shape.
    pub check_parity: bool,
    /// True when this shape only follows a broadcast call (address zero).
    pub is_broadcast: bool,
    pub has_header: bool,
    pub header_byte_value: u8,
    pub data_byte_count: DataByteCount,
    pub has_identifier: bool,
    pub identifier_value: u8,
    /// Partial match: only the high nibble of the identifier selects the
    /// family; the low nibble is payload-carrying.
    pub identifier_match_partial: bool,
    pub min_version_tenths: u16,
    pub max_version_tenths: u16,
    pub has_xor: bool,
}

/// Assembles one definition record from its requirements; `None` for header
/// or identifier means the shape has no such requirement.
pub open spec fn mk_def(
    name: LZMessageName,
    call_byte_value: u8,
    check_parity: bool,
    is_broadcast: bool,
    header: Option<u8>,
    data_byte_count: DataByteCount,
    identifier: Option<u8>,
    identifier_match_partial: bool,
    min_version_tenths: u16,
    max_version_tenths: u16,
    has_xor: bool,
) -> LZMessageDefinition {
    LZMessageDefinition {
        name,
        call_byte_value,
        check_parity,
        is_broadcast,
        has_header: header is Some,
        header_byte_value: match header {
            Some(h) => h,
            None => 0,
        },
        data_byte_count,
        has_identifier: identifier is Some,
        identifier_value: match identifier {
            Some(i) => i,
            None => 0,
        },
        identifier_match_partial,
        min_version_tenths,
        max_version_tenths,
        has_xor,
    }
}

fn def_entry(
    name: LZMessageName,
    call_byte_value: u8,
    check_parity: bool,
    is_broadcast: bool,
    header: Option<u8>,
    data_byte_count: DataByteCount,
    identifier: Option<u8>,
    identifier_match_partial: bool,
    min_version_tenths: u16,
    max_version_tenths: u16,
    has_xor: bool,
) -> (d: LZMessageDefinition)
    ensures
        d == mk_def(
            name,
            call_byte_value,
            check_parity,
            is_broadcast,
            header,
            data_byte_count,
            identifier,
            identifier_match_partial,
            min_version_tenths,
            max_version_tenths,
            has_xor,
        ),
{
    let (has_header, header_byte_value): (bool, u8) = match header {
        Some(h) => (true, h),
        None => (false, 0),
    };
    let (has_identifier, identifier_value): (bool, u8) = match identifier {
        Some(i) => (true, i),
        None => (false, 0),
    };
    LZMessageDefinition {
        name,
        call_byte_value,
        check_parity,
        is_broadcast,
        has_header,
        header_byte_value,
        data_byte_count,
        has_identifier,
        identifier_value,
        identifier_match_partial,
        min_version_tenths,
        max_version_tenths,
        has_xor,
    }
}

/// The catalog: every message shape the decoder knows, in a stable order
/// used only for deterministic iteration. Precedence between shapes is
/// resolved by the candidate filter, never by position in this table.
/// Shapes whose call pattern, header and identifier requirements can
/// coincide on one byte stream — the plain and the extended broadcast
/// feedback frames, and the two report shapes sharing one header — carry
/// disjoint version windows, so that the version filter always separates
/// them (see [`catalog_integrity`]).
pub open spec fn spec_definitions() -> Seq<LZMessageDefinition> {
    seq![
        mk_def(LZMessageName::NormalRequest, 2, true, false, None, DataByteCount::Fixed(0), None, false, 0, VERSION_TENTHS_MAX, false),
        mk_def(LZMessageName::RequestAcknowledge, 0, true, false, None, DataByteCount::Fixed(0), None, false, 0, VERSION_TENTHS_MAX, false),
        mk_def(LZMessageName::TBD, 1, true, false, None, DataByteCount::Fixed(0), None, false, 0, VERSION_TENTHS_MAX, false),
        mk_def(LZMessageName::BroadcastAllOn, 3, false, true, Some(0x61), DataByteCount::Fixed(0), Some(0x01), false, 0, VERSION_TENTHS_MAX, true),
        mk_def(LZMessageName::BroadcastAllOff, 3, false, true, Some(0x61), DataByteCount::Fixed(0), Some(0x00), false, 0, VERSION_TENTHS_MAX, true),
        mk_def(LZMessageName::BroadcastAllLocoOff, 3, false, true, Some(0x81), DataByteCount::Fixed(1), None, false, 0, VERSION_TENTHS_MAX, true),
        mk_def(LZMessageName::BroadcastProgrammingMode, 3, false, true, Some(0x61), DataByteCount::Fixed(0), Some(0x02), false, 0, VERSION_TENTHS_MAX, true),
        mk_def(LZMessageName::BroadcastFeedback, 3, false, true, Some(0x40), DataByteCount::FromHeaderLowNibble, None, false, 0, 35, true),
        mk_def(LZMessageName::BroadcastFeedbackExtended, 3, false, true, Some(0x43), DataByteCount::Fixed(3), None, false, 36, VERSION_TENTHS_MAX, true),
        mk_def(LZMessageName::ServiceValueReport, 3, true, false, Some(0x63), DataByteCount::Fixed(2), Some(0x10), true, 0, VERSION_TENTHS_MAX, true),
        mk_def(LZMessageName::SoftwareVersionReport23, 3, true, false, Some(0x62), DataByteCount::Fixed(1), Some(0x21), false, 0, 23, true),
        mk_def(LZMessageName::SoftwareVersionReport30, 3, true, false, Some(0x63), DataByteCount::Fixed(2), Some(0x21), false, 30, VERSION_TENTHS_MAX, true),
        mk_def(LZMessageName::StateLZ, 3, true, false, Some(0x62), DataByteCount::Fixed(1), Some(0x22), false, 0, VERSION_TENTHS_MAX, true),
        mk_def(LZMessageName::ExtendedVersionInformation, 3, true, false, Some(0x67), DataByteCount::Fixed(7), None, false, 0, VERSION_TENTHS_MAX, true),
        mk_def(LZMessageName::PoMEventReport, 3, true, false, Some(0x64), DataByteCount::Fixed(4), None, false, 0, 39, true),
        mk_def(LZMessageName::ModelTime, 3, true, false, Some(0x64), DataByteCount::Fixed(4), None, false, 40, VERSION_TENTHS_MAX, true),
        mk_def(LZMessageName::TransmissionError, 3, true, false, Some(0x61), DataByteCount::Fixed(0), Some(0x80), false, 0, VERSION_TENTHS_MAX, true),
        mk_def(LZMessageName::LZBusy, 3, true, false, Some(0x61), DataByteCount::Fixed(0), Some(0x81), false, 0, VERSION_TENTHS_MAX, true),
        mk_def(LZMessageName::CommandNotFound, 3, true, false, Some(0x61), DataByteCount::Fixed(0), Some(0x82), false, 0, VERSION_TENTHS_MAX, true),
        mk_def(LZMessageName::SwitchInfo, 3, true, false, Some(0x42), DataByteCount::Fixed(2), None, false, 0, VERSION_TENTHS_MAX, true),
        mk_def(LZMessageName::SwitchInfoExtended, 3, true, false, Some(0x43), DataByteCount::Fixed(3), None, false, 0, VERSION_TENTHS_MAX, true),
        mk_def(LZMessageName::LocoFreeV15, 3, true, false, Some(0x83), DataByteCount::Fixed(3), None, false, 0, 15, true),
        mk_def(LZMessageName::LocoOccupiedV15, 3, true, false, Some(0xA3), DataByteCount::Fixed(3), None, false, 0, 15, true),
        mk_def(LZMessageName::LocoFreeV23, 3, true, false, Some(0x84), DataByteCount::Fixed(4), None, false, 20, 23, true),
        mk_def(LZMessageName::LocoOccupiedV23, 3, true, false, Some(0xA4), DataByteCount::Fixed(4), None, false, 20, 23, true),
        mk_def(LZMessageName::LocoInfoNormalV30, 3, true, false, Some(0xE4), DataByteCount::Fixed(3), Some(0x00), true, 30, VERSION_TENTHS_MAX, true),
        mk_def(LZMessageName::LocoFunctionStateUpperV36, 3, true, false, Some(0xE3), DataByteCount::Fixed(2), Some(0x52), false, 36, VERSION_TENTHS_MAX, true),
        mk_def(LZMessageName::LocoFunctionStateUpperUpperV40, 3, true, false, Some(0xE6), DataByteCount::Fixed(5), Some(0x53), false, 40, VERSION_TENTHS_MAX, true),
        mk_def(LZMessageName::LocoInfoMultipleLocos, 3, true, false, Some(0xE5), DataByteCount::Fixed(4), Some(0x10), true, 30, VERSION_TENTHS_MAX, true),
        mk_def(LZMessageName::LocoInfoMultipleLocosBase, 3, true, false, Some(0xE2), DataByteCount::Fixed(1), Some(0x20), true, 30, VERSION_TENTHS_MAX, true),
        mk_def(LZMessageName::LocoInfoDoubleLocos, 3, true, false, Some(0xE6), DataByteCount::Fixed(5), Some(0x60), true, 30, VERSION_TENTHS_MAX, true),
        mk_def(LZMessageName::LocoInUseV30, 3, true, false, Some(0xE3), DataByteCount::Fixed(2), Some(0x40), false, 30, VERSION_TENTHS_MAX, true),
        mk_def(LZMessageName::LocoFunctionStateF0F12V30, 3, true, false, Some(0xE3), DataByteCount::Fixed(2), Some(0x50), false, 30, VERSION_TENTHS_MAX, true),
        mk_def(LZMessageName::LocoFunctionStateF13F28V36, 3, true, false, Some(0xE4), DataByteCount::Fixed(3), Some(0x51), false, 36, VERSION_TENTHS_MAX, true),
        mk_def(LZMessageName::LocoFunctionStateF29F68V40, 3, true, false, Some(0xE6), DataByteCount::Fixed(5), Some(0x54), false, 40, VERSION_TENTHS_MAX, true),
        mk_def(LZMessageName::LocoInfoSearchV30, 3, true, false, Some(0xE3), DataByteCount::Fixed(2), Some(0x30), true, 30, VERSION_TENTHS_MAX, true),
        mk_def(LZMessageName::LZErrorsV30, 3, true, false, Some(0xE1), DataByteCount::Fixed(0), Some(0x80), true, 30, VERSION_TENTHS_MAX, true),
    ]
}

/// Builds the catalog. The table is static: loaded once at startup and never
/// mutated afterwards. Its internal validation — coinciding shapes must have
/// disjoint version windows — holds by [`lemma_catalog_integrity`] and is
/// part of this contract.
pub fn get_definitions() -> (defs: Vec<LZMessageDefinition>)
    ensures
        defs@ == spec_definitions(),
        catalog_integrity(defs@),
{
    proof {
        lemma_catalog_integrity();
    }
    let mut defs: Vec<LZMessageDefinition> = Vec::new();
    defs.push(def_entry(LZMessageName::NormalRequest, 2, true, false, None, DataByteCount::Fixed(0), None, false, 0, VERSION_TENTHS_MAX, false));
    defs.push(def_entry(LZMessageName::RequestAcknowledge, 0, true, false, None, DataByteCount::Fixed(0), None, false, 0, VERSION_TENTHS_MAX, false));
    defs.push(def_entry(LZMessageName::TBD, 1, true, false, None, DataByteCount::Fixed(0), None, false, 0, VERSION_TENTHS_MAX, false));
    defs.push(def_entry(LZMessageName::BroadcastAllOn, 3, false, true, Some(0x61), DataByteCount::Fixed(0), Some(0x01), false, 0, VERSION_TENTHS_MAX, true));
    defs.push(def_entry(LZMessageName::BroadcastAllOff, 3, false, true, Some(0x61), DataByteCount::Fixed(0), Some(0x00), false, 0, VERSION_TENTHS_MAX, true));
    defs.push(def_entry(LZMessageName::BroadcastAllLocoOff, 3, false, true, Some(0x81), DataByteCount::Fixed(1), None, false, 0, VERSION_TENTHS_MAX, true));
    defs.push(def_entry(LZMessageName::BroadcastProgrammingMode, 3, false, true, Some(0x61), DataByteCount::Fixed(0), Some(0x02), false, 0, VERSION_TENTHS_MAX, true));
    defs.push(def_entry(LZMessageName::BroadcastFeedback, 3, false, true, Some(0x40), DataByteCount::FromHeaderLowNibble, None, false, 0, 35, true));
    defs.push(def_entry(LZMessageName::BroadcastFeedbackExtended, 3, false, true, Some(0x43), DataByteCount::Fixed(3), None, false, 36, VERSION_TENTHS_MAX, true));
    defs.push(def_entry(LZMessageName::ServiceValueReport, 3, true, false, Some(0x63), DataByteCount::Fixed(2), Some(0x10), true, 0, VERSION_TENTHS_MAX, true));
    defs.push(def_entry(LZMessageName::SoftwareVersionReport23, 3, true, false, Some(0x62), DataByteCount::Fixed(1), Some(0x21), false, 0, 23, true));
    defs.push(def_entry(LZMessageName::SoftwareVersionReport30, 3, true, false, Some(0x63), DataByteCount::Fixed(2), Some(0x21), false, 30, VERSION_TENTHS_MAX, true));
    defs.push(def_entry(LZMessageName::StateLZ, 3, true, false, Some(0x62), DataByteCount::Fixed(1), Some(0x22), false, 0, VERSION_TENTHS_MAX, true));
    defs.push(def_entry(LZMessageName::ExtendedVersionInformation, 3, true, false, Some(0x67), DataByteCount::Fixed(7), None, false, 0, VERSION_TENTHS_MAX, true));
    defs.push(def_entry(LZMessageName::PoMEventReport, 3, true, false, Some(0x64), DataByteCount::Fixed(4), None, false, 0, 39, true));
    defs.push(def_entry(LZMessageName::ModelTime, 3, true, false, Some(0x64), DataByteCount::Fixed(4), None, false, 40, VERSION_TENTHS_MAX, true));
    defs.push(def_entry(LZMessageName::TransmissionError, 3, true, false, Some(0x61), DataByteCount::Fixed(0), Some(0x80), false, 0, VERSION_TENTHS_MAX, true));
    defs.push(def_entry(LZMessageName::LZBusy, 3, true, false, Some(0x61), DataByteCount::Fixed(0), Some(0x81), false, 0, VERSION_TENTHS_MAX, true));
    defs.push(def_entry(LZMessageName::CommandNotFound, 3, true, false, Some(0x61), DataByteCount::Fixed(0), Some(0x82), false, 0, VERSION_TENTHS_MAX, true));
    defs.push(def_entry(LZMessageName::SwitchInfo, 3, true, false, Some(0x42), DataByteCount::Fixed(2), None, false, 0, VERSION_TENTHS_MAX, true));
    defs.push(def_entry(LZMessageName::SwitchInfoExtended, 3, true, false, Some(0x43), DataByteCount::Fixed(3), None, false, 0, VERSION_TENTHS_MAX, true));
    defs.push(def_entry(LZMessageName::LocoFreeV15, 3, true, false, Some(0x83), DataByteCount::Fixed(3), None, false, 0, 15, true));
    defs.push(def_entry(LZMessageName::LocoOccupiedV15, 3, true, false, Some(0xA3), DataByteCount::Fixed(3), None, false, 0, 15, true));
    defs.push(def_entry(LZMessageName::LocoFreeV23, 3, true, false, Some(0x84), DataByteCount::Fixed(4), None, false, 20, 23, true));
    defs.push(def_entry(LZMessageName::LocoOccupiedV23, 3, true, false, Some(0xA4), DataByteCount::Fixed(4), None, false, 20, 23, true));
    defs.push(def_entry(LZMessageName::LocoInfoNormalV30, 3, true, false, Some(0xE4), DataByteCount::Fixed(3), Some(0x00), true, 30, VERSION_TENTHS_MAX, true));
    defs.push(def_entry(LZMessageName::LocoFunctionStateUpperV36, 3, true, false, Some(0xE3), DataByteCount::Fixed(2), Some(0x52), false, 36, VERSION_TENTHS_MAX, true));
    defs.push(def_entry(LZMessageName::LocoFunctionStateUpperUpperV40, 3, true, false, Some(0xE6), DataByteCount::Fixed(5), Some(0x53), false, 40, VERSION_TENTHS_MAX, true));
    defs.push(def_entry(LZMessageName::LocoInfoMultipleLocos, 3, true, false, Some(0xE5), DataByteCount::Fixed(4), Some(0x10), true, 30, VERSION_TENTHS_MAX, true));
    defs.push(def_entry(LZMessageName::LocoInfoMultipleLocosBase, 3, true, false, Some(0xE2), DataByteCount::Fixed(1), Some(0x20), true, 30, VERSION_TENTHS_MAX, true));
    defs.push(def_entry(LZMessageName::LocoInfoDoubleLocos, 3, true, false, Some(0xE6), DataByteCount::Fixed(5), Some(0x60), true, 30, VERSION_TENTHS_MAX, true));
    defs.push(def_entry(LZMessageName::LocoInUseV30, 3, true, false, Some(0xE3), DataByteCount::Fixed(2), Some(0x40), false, 30, VERSION_TENTHS_MAX, true));
    defs.push(def_entry(LZMessageName::LocoFunctionStateF0F12V30, 3, true, false, Some(0xE3), DataByteCount::Fixed(2), Some(0x50), false, 30, VERSION_TENTHS_MAX, true));
    defs.push(def_entry(LZMessageName::LocoFunctionStateF13F28V36, 3, true, false, Some(0xE4), DataByteCount::Fixed(3), Some(0x51), false, 36, VERSION_TENTHS_MAX, true));
    defs.push(def_entry(LZMessageName::LocoFunctionStateF29F68V40, 3, true, false, Some(0xE6), DataByteCount::Fixed(5), Some(0x54), false, 40, VERSION_TENTHS_MAX, true));
    defs.push(def_entry(LZMessageName::LocoInfoSearchV30, 3, true, false, Some(0xE3), DataByteCount::Fixed(2), Some(0x30), true, 30, VERSION_TENTHS_MAX, true));
    defs.push(def_entry(LZMessageName::LZErrorsV30, 3, true, false, Some(0xE1), DataByteCount::Fixed(0), Some(0x80), true, 30, VERSION_TENTHS_MAX, true));
    proof {
        assert(defs@ =~= spec_definitions());
    }
    defs
}

/// Whether the call-byte patterns of two definitions can be satisfied by one
/// and the same accepted call byte: same type code and same broadcast flag.
/// (A valid-parity call byte satisfies any parity requirement, so the parity
/// flags do not separate two shapes.)
pub open spec fn patterns_coincide(a: LZMessageDefinition, b: LZMessageDefinition) -> bool {
    a.call_byte_value == b.call_byte_value && a.is_broadcast == b.is_broadcast
}

/// A shape whose payload length comes from the header's low nibble compares
/// headers on the high nibble only.
pub open spec fn header_nibble_wild(d: LZMessageDefinition) -> bool {
    d.data_byte_count is FromHeaderLowNibble
}

/// Whether one header byte can satisfy both definitions' header
/// requirements.
pub open spec fn headers_coincide(a: LZMessageDefinition, b: LZMessageDefinition) -> bool {
    if a.has_header != b.has_header {
        false
    } else if !a.has_header {
        true
    } else if header_nibble_wild(a) || header_nibble_wild(b) {
        a.header_byte_value / 16 == b.header_byte_value / 16
    } else {
        a.header_byte_value == b.header_byte_value
    }
}

/// Whether one identifier byte can satisfy both definitions' identifier
/// requirements; a definition without an identifier requirement never
/// separates.
pub open spec fn identifiers_coincide(a: LZMessageDefinition, b: LZMessageDefinition) -> bool {
    if !a.has_identifier || !b.has_identifier {
        true
    } else if a.identifier_match_partial || b.identifier_match_partial {
        a.identifier_value / 16 == b.identifier_value / 16
    } else {
        a.identifier_value == b.identifier_value
    }
}

/// Two definitions coincide when one byte stream could satisfy the call,
/// header and identifier requirements of both at once.
pub open spec fn defs_coincide(a: LZMessageDefinition, b: LZMessageDefinition) -> bool {
    patterns_coincide(a, b) && headers_coincide(a, b) && identifiers_coincide(a, b)
}

pub open spec fn version_ranges_disjoint(a: LZMessageDefinition, b: LZMessageDefinition) -> bool {
    a.max_version_tenths < b.min_version_tenths || b.max_version_tenths < a.min_version_tenths
}

/// The integrity condition on one pair: shapes that coincide must be
/// separated by their version windows.
pub open spec fn integrity_pair_ok(a: LZMessageDefinition, b: LZMessageDefinition) -> bool {
    defs_coincide(a, b) ==> version_ranges_disjoint(a, b)
}

/// Catalog integrity: for every pair of distinct definitions whose call
/// pattern, header and identifier requirements (under partial-match masking)
/// coincide, the version ranges are disjoint. This guarantees that at most
/// one definition can survive a full filter pass.
pub open spec fn catalog_integrity(s: Seq<LZMessageDefinition>) -> bool {
    forall|i: int, j: int|
        0 <= i < s.len() && 0 <= j < s.len() && i != j ==> #[trigger] integrity_pair_ok(
            s[i],
            s[j],
        )
}

/// Recursive form of the all-pairs check; unfolding it on the concrete
/// table lets the integrity of the shipped catalog be proved outright.
spec fn def_ok_against_rest(d: LZMessageDefinition, s: Seq<LZMessageDefinition>) -> bool
    decreases s.len(),
{
    s.len() == 0 || (integrity_pair_ok(d, s[0]) && def_ok_against_rest(d, s.drop_first()))
}

spec fn catalog_pairwise_ok(s: Seq<LZMessageDefinition>) -> bool
    decreases s.len(),
{
    s.len() == 0 || (def_ok_against_rest(s[0], s.drop_first()) && catalog_pairwise_ok(
        s.drop_first(),
    ))
}

proof fn lemma_ok_against_rest_index(d: LZMessageDefinition, s: Seq<LZMessageDefinition>, j: int)
    requires
        def_ok_against_rest(d, s),
        0 <= j < s.len(),
    ensures
        integrity_pair_ok(d, s[j]),
    decreases s.len(),
{
    if j > 0 {
        lemma_ok_against_rest_index(d, s.drop_first(), j - 1);
        assert(s.drop_first()[j - 1] == s[j]);
    }
}

proof fn lemma_pairwise_implies_integrity(s: Seq<LZMessageDefinition>)
    requires
        catalog_pairwise_ok(s),
    ensures
        catalog_integrity(s),
    decreases s.len(),
{
    if s.len() > 0 {
        let rest = s.drop_first();
        lemma_pairwise_implies_integrity(rest);
        assert forall|i: int, j: int|
            0 <= i < s.len() && 0 <= j < s.len() && i != j implies #[trigger] integrity_pair_ok(
            s[i],
            s[j],
        ) by {
            if i == 0 {
                lemma_ok_against_rest_index(s[0], rest, j - 1);
            } else if j == 0 {
                lemma_ok_against_rest_index(s[0], rest, i - 1);
            } else {
                assert(rest[i - 1] == s[i]);
                assert(rest[j - 1] == s[j]);
                assert(integrity_pair_ok(rest[i - 1], rest[j - 1]));
            }
        }
    }
}

/// Catalog integrity law: the shipped table satisfies [`catalog_integrity`].
/// Coinciding shapes (such as the plain and the extended broadcast feedback
/// frames, or the two report shapes that share one header) are always
/// separated by disjoint version windows.
#[verifier::rlimit(100)]
#[verifier::spinoff_prover]
pub proof fn lemma_catalog_integrity()
    ensures
        catalog_integrity(spec_definitions()),
{
    reveal_with_fuel(catalog_pairwise_ok, 39);
    reveal_with_fuel(def_ok_against_rest, 39);
    assert(catalog_pairwise_ok(spec_definitions()));
    lemma_pairwise_implies_integrity(spec_definitions());
}

fn integrity_pair_holds(a: &LZMessageDefinition, b: &LZMessageDefinition) -> (r: bool)
    ensures
        r == integrity_pair_ok(*a, *b),
{
    let patterns = a.call_byte_value == b.call_byte_value && a.is_broadcast == b.is_broadcast;
    let a_wild = matches!(a.data_byte_count, DataByteCount::FromHeaderLowNibble);
    let b_wild = matches!(b.data_byte_count, DataByteCount::FromHeaderLowNibble);
    let headers = if a.has_header != b.has_header {
        false
    } else if !a.has_header {
        true
    } else if a_wild || b_wild {
        a.header_byte_value / 16 == b.header_byte_value / 16
    } else {
        a.header_byte_value == b.header_byte_value
    };
    let identifiers = if !a.has_identifier || !b.has_identifier {
        true
    } else if a.identifier_match_partial || b.identifier_match_partial {
        a.identifier_value / 16 == b.identifier_value / 16
    } else {
        a.identifier_value == b.identifier_value
    };
    let disjoint = a.max_version_tenths < b.min_version_tenths || b.max_version_tenths
        < a.min_version_tenths;
    !(patterns && headers && identifiers) || disjoint
}

/// Load-time validation of a definition table: checks every pair of
/// distinct entries for the integrity condition. Returns true exactly when
/// [`catalog_integrity`] holds of the table.
pub fn check_catalog_integrity(defs: &Vec<LZMessageDefinition>) -> (ok: bool)
    ensures
        ok == catalog_integrity(defs@),
{
    let n = defs.len();
    let mut i: usize = 0;
    while i < n
        invariant
            i <= n,
            n == defs@.len(),
            forall|a: int, b: int|
                0 <= a < i && 0 <= b < n && a != b ==> #[trigger] integrity_pair_ok(
                    defs@[a],
                    defs@[b],
                ),
        decreases n - i,
    {
        let mut j: usize = 0;
        while j < n
            invariant
                i < n,
                j <= n,
                n == defs@.len(),
                forall|b: int|
                    0 <= b < j && i != b ==> #[trigger] integrity_pair_ok(defs@[i as int], defs@[b]),
            decreases n - j,
        {
            if j != i {
                if !integrity_pair_holds(&defs[i], &defs[j]) {
                    assert(!integrity_pair_ok(defs@[i as int], defs@[j as int]));
                    return false;
                }
            }
            j += 1;
        }
        i += 1;
    }
    true
}

} // verus!
