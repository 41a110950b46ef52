use vstd::prelude::*;

use crate::catalog::LZMessageDefinition;
use crate::catalog::DataByteCount;
use crate::catalog::get_definitions;
use crate::catalog::header_nibble_wild;
use crate::catalog::spec_definitions;
use crate::classifier::CallFrame;
use crate::classifier::CallKind;
use crate::classifier::parity_valid;
use crate::classifier::spec_parity_valid;
use crate::errors::DecodeError;

verus! {

/// Two-bit call type code under which frames of this kind arrive.
pub open spec fn call_kind_code(kind: CallKind) -> u8 {
    match kind {
        CallKind::SendRequest => 2,
        CallKind::RequestResend => 0,
        CallKind::BroadcastFeedbackPoll => 1,
        CallKind::Unknown => 1,
        CallKind::FramedMessage => 3,
    }
}

/// Seeding predicate: a definition stays when its call-byte pattern is
/// structurally consistent with the classified call frame — same type code,
/// same broadcast flag, and any parity requirement met by the raw byte.
pub open spec fn seed_keeps(d: LZMessageDefinition, frame: CallFrame) -> bool {
    d.call_byte_value == call_kind_code(frame.kind) && d.is_broadcast == frame.is_broadcast && (
    d.check_parity ==> spec_parity_valid(frame.raw_byte))
}

/// Header predicate: no header requirement, or an exact byte match; shapes
/// with a nibble-derived payload length compare the high nibble only.
pub open spec fn header_keeps(d: LZMessageDefinition, byte: u8) -> bool {
    !d.has_header || (if header_nibble_wild(d) {
        d.header_byte_value / 16 == byte / 16
    } else {
        d.header_byte_value == byte
    })
}

/// Identifier predicate: no identifier requirement, an exact match, or —
/// under partial matching — a match of the family-selecting high nibble.
pub open spec fn identifier_keeps(d: LZMessageDefinition, byte: u8) -> bool {
    !d.has_identifier || (if d.identifier_match_partial {
        d.identifier_value / 16 == byte / 16
    } else {
        d.identifier_value == byte
    })
}

/// Version predicate: the definition's inclusive version window contains the
/// currently believed protocol version (in tenths).
pub open spec fn version_keeps(d: LZMessageDefinition, version_tenths: u16) -> bool {
    d.min_version_tenths <= version_tenths && version_tenths <= d.max_version_tenths
}

pub open spec fn seed_filter(s: Seq<LZMessageDefinition>, frame: CallFrame) -> Seq<
    LZMessageDefinition,
> {
    s.filter(|d: LZMessageDefinition| seed_keeps(d, frame))
}

pub open spec fn header_filter(s: Seq<LZMessageDefinition>, byte: u8) -> Seq<
    LZMessageDefinition,
> {
    s.filter(|d: LZMessageDefinition| header_keeps(d, byte))
}

pub open spec fn identifier_filter(s: Seq<LZMessageDefinition>, byte: u8) -> Seq<
    LZMessageDefinition,
> {
    s.filter(|d: LZMessageDefinition| identifier_keeps(d, byte))
}

pub open spec fn version_filter(s: Seq<LZMessageDefinition>, version_tenths: u16) -> Seq<
    LZMessageDefinition,
> {
    s.filter(|d: LZMessageDefinition| version_keeps(d, version_tenths))
}

fn seed_matches(d: &LZMessageDefinition, frame: &CallFrame) -> (r: bool)
    ensures
        r == seed_keeps(*d, *frame),
{
    let code: u8 = match frame.kind {
        CallKind::SendRequest => 2,
        CallKind::RequestResend => 0,
        CallKind::BroadcastFeedbackPoll => 1,
        CallKind::Unknown => 1,
        CallKind::FramedMessage => 3,
    };
    d.call_byte_value == code && d.is_broadcast == frame.is_broadcast && (!d.check_parity
        || parity_valid(frame.raw_byte))
}

fn header_matches(d: &LZMessageDefinition, byte: u8) -> (r: bool)
    ensures
        r == header_keeps(*d, byte),
{
    !d.has_header || (if matches!(d.data_byte_count, DataByteCount::FromHeaderLowNibble) {
        d.header_byte_value / 16 == byte / 16
    } else {
        d.header_byte_value == byte
    })
}

fn identifier_matches(d: &LZMessageDefinition, byte: u8) -> (r: bool)
    ensures
        r == identifier_keeps(*d, byte),
{
    !d.has_identifier || (if d.identifier_match_partial {
        d.identifier_value / 16 == byte / 16
    } else {
        d.identifier_value == byte
    })
}

fn version_matches(d: &LZMessageDefinition, version_tenths: u16) -> (r: bool)
    ensures
        r == version_keeps(*d, version_tenths),
{
    d.min_version_tenths <= version_tenths && version_tenths <= d.max_version_tenths
}

/// The disambiguator: the shrinking set of catalog definitions still
/// consistent with the bytes observed so far in one in-flight decode.
pub struct LZMessageDefinitionFilter {
    pub possible_definitions: Vec<LZMessageDefinition>,
}

impl LZMessageDefinitionFilter {
    /// Starts with the whole catalog as candidates.
    pub fn new() -> (f: LZMessageDefinitionFilter)
        ensures
            f.possible_definitions@ == spec_definitions(),
    {
        LZMessageDefinitionFilter { possible_definitions: get_definitions() }
    }

    /// Seeds the candidate set for a fresh call: any previous set is
    /// discarded and the whole catalog is narrowed to the definitions whose
    /// call-byte pattern is consistent with the classified frame.
    pub fn filter_call(&mut self, frame: &CallFrame)
        ensures
            final (self).possible_definitions@ == seed_filter(spec_definitions(), *frame),
            final (self).possible_definitions@.len() <= spec_definitions().len(),
    {
        let catalog = get_definitions();
        let ghost orig = catalog@;
        let ghost pred = |d: LZMessageDefinition| seed_keeps(d, *frame);
        let mut kept: Vec<LZMessageDefinition> = Vec::new();
        let n = catalog.len();
        let mut i: usize = 0;
        while i < n
            invariant
                i <= n,
                n == orig.len(),
                pred == (|d: LZMessageDefinition| seed_keeps(d, *frame)),
                catalog@ == orig,
                kept@ == orig.take(i as int).filter(pred),
            decreases n - i,
        {
            let d = catalog[i];
            proof {
                assert(orig.take(i as int + 1) =~= orig.take(i as int).push(orig[i as int]));
                orig.take(i as int).lemma_filter_push(orig[i as int], pred);
            }
            if seed_matches(&d, frame) {
                kept.push(d);
            }
            i += 1;
        }
        proof {
            assert(orig.take(n as int) =~= orig);
            orig.lemma_filter_len(pred);
        }
        self.possible_definitions = kept;
    }

    /// Retains the definitions whose header requirement accepts the byte.
    /// The candidate set only ever shrinks.
    pub fn apply_header(&mut self, byte: u8)
        ensures
            final (self).possible_definitions@ == header_filter(
                old(self).possible_definitions@,
                byte,
            ),
            final (self).possible_definitions@.len() <= old(self).possible_definitions@.len(),
    {
        let ghost orig = self.possible_definitions@;
        let ghost pred = |d: LZMessageDefinition| header_keeps(d, byte);
        let mut kept: Vec<LZMessageDefinition> = Vec::new();
        let n = self.possible_definitions.len();
        let mut i: usize = 0;
        while i < n
            invariant
                i <= n,
                n == orig.len(),
                pred == (|d: LZMessageDefinition| header_keeps(d, byte)),
                self.possible_definitions@ == orig,
                kept@ == orig.take(i as int).filter(pred),
            decreases n - i,
        {
            let d = self.possible_definitions[i];
            proof {
                assert(orig.take(i as int + 1) =~= orig.take(i as int).push(orig[i as int]));
                orig.take(i as int).lemma_filter_push(orig[i as int], pred);
            }
            if header_matches(&d, byte) {
                kept.push(d);
            }
            i += 1;
        }
        proof {
            assert(orig.take(n as int) =~= orig);
            orig.lemma_filter_len(pred);
        }
        self.possible_definitions = kept;
    }

    /// Retains the definitions whose identifier requirement accepts the
    /// byte. The candidate set only ever shrinks.
    pub fn apply_identifier(&mut self, byte: u8)
        ensures
            final (self).possible_definitions@ == identifier_filter(
                old(self).possible_definitions@,
                byte,
            ),
            final (self).possible_definitions@.len() <= old(self).possible_definitions@.len(),
    {
        let ghost orig = self.possible_definitions@;
        let ghost pred = |d: LZMessageDefinition| identifier_keeps(d, byte);
        let mut kept: Vec<LZMessageDefinition> = Vec::new();
        let n = self.possible_definitions.len();
        let mut i: usize = 0;
        while i < n
            invariant
                i <= n,
                n == orig.len(),
                pred == (|d: LZMessageDefinition| identifier_keeps(d, byte)),
                self.possible_definitions@ == orig,
                kept@ == orig.take(i as int).filter(pred),
            decreases n - i,
        {
            let d = self.possible_definitions[i];
            proof {
                assert(orig.take(i as int + 1) =~= orig.take(i as int).push(orig[i as int]));
                orig.take(i as int).lemma_filter_push(orig[i as int], pred);
            }
            if identifier_matches(&d, byte) {
                kept.push(d);
            }
            i += 1;
        }
        proof {
            assert(orig.take(n as int) =~= orig);
            orig.lemma_filter_len(pred);
        }
        self.possible_definitions = kept;
    }

    /// Retains the definitions whose version window contains the currently
    /// believed protocol version. The candidate set only ever shrinks.
    pub fn apply_version(&mut self, version_tenths: u16)
        ensures
            final (self).possible_definitions@ == version_filter(
                old(self).possible_definitions@,
                version_tenths,
            ),
            final (self).possible_definitions@.len() <= old(self).possible_definitions@.len(),
    {
        let ghost orig = self.possible_definitions@;
        let ghost pred = |d: LZMessageDefinition| version_keeps(d, version_tenths);
        let mut kept: Vec<LZMessageDefinition> = Vec::new();
        let n = self.possible_definitions.len();
        let mut i: usize = 0;
        while i < n
            invariant
                i <= n,
                n == orig.len(),
                pred == (|d: LZMessageDefinition| version_keeps(d, version_tenths)),
                self.possible_definitions@ == orig,
                kept@ == orig.take(i as int).filter(pred),
            decreases n - i,
        {
            let d = self.possible_definitions[i];
            proof {
                assert(orig.take(i as int + 1) =~= orig.take(i as int).push(orig[i as int]));
                orig.take(i as int).lemma_filter_push(orig[i as int], pred);
            }
            if version_matches(&d, version_tenths) {
                kept.push(d);
            }
            i += 1;
        }
        proof {
            assert(orig.take(n as int) =~= orig);
            orig.lemma_filter_len(pred);
        }
        self.possible_definitions = kept;
    }

    /// Final arbitration: exactly one surviving definition is required.
    /// An empty set is a decode failure; several survivors expose a catalog
    /// defect and are reported, never resolved by picking one.
    pub fn finalize(&self) -> (r: Result<LZMessageDefinition, DecodeError>)
        ensures
            self.possible_definitions@.len() == 1 ==> r == Ok::<LZMessageDefinition, DecodeError>(
                self.possible_definitions@[0],
            ),
            self.possible_definitions@.len() == 0 ==> r == Err::<LZMessageDefinition, DecodeError>(
                DecodeError::NoMatchingDefinition,
            ),
            self.possible_definitions@.len() > 1 ==> r == Err::<LZMessageDefinition, DecodeError>(
                DecodeError::AmbiguousDefinition,
            ),
    {
        if self.possible_definitions.len() == 1 {
            Ok(self.possible_definitions[0])
        } else if self.possible_definitions.len() == 0 {
            Err(DecodeError::NoMatchingDefinition)
        } else {
            Err(DecodeError::AmbiguousDefinition)
        }
    }
}

proof fn lemma_filter_all_kept(s: Seq<LZMessageDefinition>, p: spec_fn(LZMessageDefinition) -> bool)
    requires
        forall|i: int| 0 <= i < s.len() ==> p(#[trigger] s[i]),
    ensures
        s.filter(p) == s,
    decreases s.len(),
{
    reveal(Seq::filter);
    if s.len() > 0 {
        lemma_filter_all_kept(s.drop_last(), p);
        assert(s.filter(p) =~= s);
    } else {
        assert(s.filter(p) =~= s);
    }
}

/// Idempotence law: filtering twice with the same predicate changes nothing
/// beyond the first pass, so re-applying any `apply_*` step with the same
/// byte or version leaves the candidate set as it was.
pub proof fn lemma_filter_idempotent(
    s: Seq<LZMessageDefinition>,
    p: spec_fn(LZMessageDefinition) -> bool,
)
    ensures
        s.filter(p).filter(p) == s.filter(p),
{
    let out = s.filter(p);
    assert forall|i: int| 0 <= i < out.len() implies p(#[trigger] out[i]) by {
        s.lemma_filter_pred(p, i);
    }
    lemma_filter_all_kept(out, p);
}

} // verus!
