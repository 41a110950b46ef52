use vstd::prelude::*;

use crate::catalog::DataByteCount;
use crate::catalog::LZMessageDefinition;
use crate::catalog::LZMessageName;
use crate::catalog::spec_definitions;
use crate::checksum::validate_checksum;
use crate::checksum::xor_seq;
use crate::classifier::CallFrame;
use crate::classifier::CallKind;
use crate::classifier::classify;
use crate::classifier::spec_classify;
use crate::errors::DecodeError;
use crate::filter::LZMessageDefinitionFilter;
use crate::filter::header_filter;
use crate::filter::identifier_filter;
use crate::filter::seed_filter;
use crate::filter::version_filter;
use crate::filter::version_keeps;

verus! {

/// States of the frame assembler. `WaitingForCall` is the initial state;
/// emission and failure are terminal for one frame and return the assembler
/// to `WaitingForCall` for the next byte.
#[derive(Clone, Copy, Debug, PartialEq, Eq, Structural)]
pub enum MessageParserState {
    WaitingForCall,
    WaitingForHeader,
    WaitingForIdentifier,
    WaitingForData,
    ProcessingData,
}

/// The terminal artifact of one successful decode, immutable once built and
/// handed to the domain-model collaborator.
#[derive(Debug)]
pub struct LZMessage {
    pub definition_name: LZMessageName,
    pub call_frame: CallFrame,
    pub header_byte: Option<u8>,
    pub identifier_byte: Option<u8>,
    pub payload: Vec<u8>,
    /// True exactly when the shape requires a checksum and the received
    /// checksum byte matched the frame.
    pub checksum_valid: bool,
}

/// Mathematical image of a decoded message.
pub struct MessageModel {
    pub definition_name: LZMessageName,
    pub call_frame: CallFrame,
    pub header_byte: Option<u8>,
    pub identifier_byte: Option<u8>,
    pub payload: Seq<u8>,
    pub checksum_valid: bool,
}

impl View for LZMessage {
    type V = MessageModel;

    open spec fn view(&self) -> MessageModel {
        MessageModel {
            definition_name: self.definition_name,
            call_frame: self.call_frame,
            header_byte: self.header_byte,
            identifier_byte: self.identifier_byte,
            payload: self.payload@,
            checksum_valid: self.checksum_valid,
        }
    }
}

/// Mathematical image of the assembler between two bytes.
pub struct ParserModel {
    pub state: MessageParserState,
    /// Frame bytes collected so far: header, identifier if present, data —
    /// never the call byte, never the trailing checksum byte.
    pub collected: Seq<u8>,
    pub candidates: Seq<LZMessageDefinition>,
    pub call_frame: Option<CallFrame>,
    pub header_byte: Option<u8>,
    pub identifier_byte: Option<u8>,
    /// Length `collected` will have once all declared frame bytes are in.
    pub expected_total: int,
}

/// What one byte did to the decode: nothing final yet, a finished message,
/// or a definite failure.
pub enum StepOutcome {
    NeedMore,
    Emit(MessageModel),
    Fail(DecodeError),
}

/// Payload byte count a definition declares once the header byte is known:
/// a fixed count, or the low nibble of the header.
pub open spec fn resolved_data_len(d: LZMessageDefinition, header: u8) -> int {
    match d.data_byte_count {
        DataByteCount::Fixed(n) => n as int,
        DataByteCount::FromHeaderLowNibble => (header % 16) as int,
    }
}

/// All candidates declare the same payload length under this header byte.
pub open spec fn lengths_agree(s: Seq<LZMessageDefinition>, header: u8) -> bool {
    forall|i: int|
        0 <= i < s.len() ==> #[trigger] resolved_data_len(s[i], header) == resolved_data_len(
            s[0],
            header,
        )
}

/// Some candidate still requires an identifier byte.
pub open spec fn any_requires_identifier(s: Seq<LZMessageDefinition>) -> bool {
    exists|i: int| 0 <= i < s.len() && (#[trigger] s[i]).has_identifier
}

/// Name emitted for a call kind that carries no framed body. The framed
/// kind never reaches this mapping: its name comes from the finalized
/// catalog definition.
pub open spec fn call_only_name(kind: CallKind) -> LZMessageName {
    match kind {
        CallKind::SendRequest => LZMessageName::NormalRequest,
        CallKind::RequestResend => LZMessageName::RequestAcknowledge,
        CallKind::BroadcastFeedbackPoll => LZMessageName::BroadcastFeedback,
        CallKind::Unknown => LZMessageName::TBD,
        CallKind::FramedMessage => LZMessageName::TBD,
    }
}

/// The assembler as it stands between frames: initial state, nothing
/// collected, the full catalog as candidates.
pub open spec fn reset_model() -> ParserModel {
    ParserModel {
        state: MessageParserState::WaitingForCall,
        collected: Seq::empty(),
        candidates: spec_definitions(),
        call_frame: None,
        header_byte: None,
        identifier_byte: None,
        expected_total: 0,
    }
}

/// First byte of a call: classification failures fail the decode; call-only
/// kinds emit a message carrying just the call frame; a framed-message call
/// seeds the candidate set and waits for the header byte.
pub open spec fn spec_step_call(byte: u8, received_at: u64) -> (ParserModel, StepOutcome) {
    match spec_classify(byte, received_at) {
        Err(e) => (reset_model(), StepOutcome::Fail(e)),
        Ok(frame) => {
            if frame.kind is FramedMessage {
                (
                    ParserModel {
                        state: MessageParserState::WaitingForHeader,
                        collected: Seq::empty(),
                        candidates: seed_filter(spec_definitions(), frame),
                        call_frame: Some(frame),
                        header_byte: None,
                        identifier_byte: None,
                        expected_total: 0,
                    },
                    StepOutcome::NeedMore,
                )
            } else {
                (
                    reset_model(),
                    StepOutcome::Emit(
                        MessageModel {
                            definition_name: call_only_name(frame.kind),
                            call_frame: frame,
                            header_byte: None,
                            identifier_byte: None,
                            payload: Seq::empty(),
                            checksum_valid: false,
                        },
                    ),
                )
            }
        },
    }
}

/// Header byte: an emptied candidate set fails at once; if any survivor
/// still requires an identifier the next byte is read as one; otherwise all
/// survivors must declare one and the same payload length, which fixes how
/// many bytes are owed (survivors that disagree would expose a catalog
/// defect and are reported as ambiguity, never resolved by picking one).
pub open spec fn spec_step_header(m: ParserModel, byte: u8) -> (ParserModel, StepOutcome) {
    let survivors = header_filter(m.candidates, byte);
    if survivors.len() == 0 {
        (reset_model(), StepOutcome::Fail(DecodeError::NoMatchingDefinition))
    } else if any_requires_identifier(survivors) {
        (
            ParserModel {
                state: MessageParserState::WaitingForIdentifier,
                collected: seq![byte],
                candidates: survivors,
                call_frame: m.call_frame,
                header_byte: Some(byte),
                identifier_byte: None,
                expected_total: 0,
            },
            StepOutcome::NeedMore,
        )
    } else if lengths_agree(survivors, byte) {
        let total = 1 + resolved_data_len(survivors[0], byte);
        (
            ParserModel {
                state: if total == 1 {
                    MessageParserState::ProcessingData
                } else {
                    MessageParserState::WaitingForData
                },
                collected: seq![byte],
                candidates: survivors,
                call_frame: m.call_frame,
                header_byte: Some(byte),
                identifier_byte: None,
                expected_total: total,
            },
            StepOutcome::NeedMore,
        )
    } else {
        (reset_model(), StepOutcome::Fail(DecodeError::AmbiguousDefinition))
    }
}

/// Identifier byte: filtered like the header byte, after which the payload
/// length must be settled among the survivors.
pub open spec fn spec_step_identifier(m: ParserModel, byte: u8) -> (ParserModel, StepOutcome) {
    let survivors = identifier_filter(m.candidates, byte);
    let header = m.header_byte.unwrap();
    if survivors.len() == 0 {
        (reset_model(), StepOutcome::Fail(DecodeError::NoMatchingDefinition))
    } else if lengths_agree(survivors, header) {
        let total = 2 + resolved_data_len(survivors[0], header);
        (
            ParserModel {
                state: if total == 2 {
                    MessageParserState::ProcessingData
                } else {
                    MessageParserState::WaitingForData
                },
                collected: m.collected.push(byte),
                candidates: survivors,
                call_frame: m.call_frame,
                header_byte: m.header_byte,
                identifier_byte: Some(byte),
                expected_total: total,
            },
            StepOutcome::NeedMore,
        )
    } else {
        (reset_model(), StepOutcome::Fail(DecodeError::AmbiguousDefinition))
    }
}

/// Data byte: collected until the declared count is reached; the byte after
/// the last data byte is read as the checksum, in `ProcessingData`.
pub open spec fn spec_step_data(m: ParserModel, byte: u8) -> (ParserModel, StepOutcome) {
    let collected = m.collected.push(byte);
    (
        ParserModel {
            state: if collected.len() == m.expected_total {
                MessageParserState::ProcessingData
            } else {
                MessageParserState::WaitingForData
            },
            collected,
            candidates: m.candidates,
            call_frame: m.call_frame,
            header_byte: m.header_byte,
            identifier_byte: m.identifier_byte,
            expected_total: m.expected_total,
        },
        StepOutcome::NeedMore,
    )
}

/// Index of the first data byte inside the collected frame bytes.
pub open spec fn payload_start_of(identifier_byte: Option<u8>) -> int {
    1 + if identifier_byte is Some {
        1int
    } else {
        0int
    }
}

/// Checksum byte, and finalization: the version filter runs now that the
/// full shape is known, exactly one definition must survive, and the folded
/// frame bytes must equal the received checksum byte wherever the shape
/// requires one.
pub open spec fn spec_step_processing(m: ParserModel, byte: u8, version_tenths: u16) -> (
    ParserModel,
    StepOutcome,
) {
    let survivors = version_filter(m.candidates, version_tenths);
    if survivors.len() == 0 {
        (reset_model(), StepOutcome::Fail(DecodeError::NoMatchingDefinition))
    } else if survivors.len() > 1 {
        (reset_model(), StepOutcome::Fail(DecodeError::AmbiguousDefinition))
    } else {
        let d = survivors[0];
        let payload = m.collected.subrange(
            payload_start_of(m.identifier_byte),
            m.collected.len() as int,
        );
        let message = MessageModel {
            definition_name: d.name,
            call_frame: m.call_frame.unwrap(),
            header_byte: m.header_byte,
            identifier_byte: m.identifier_byte,
            payload,
            checksum_valid: d.has_xor,
        };
        if d.has_xor && xor_seq(m.collected) != byte {
            (reset_model(), StepOutcome::Fail(DecodeError::ChecksumError))
        } else {
            (reset_model(), StepOutcome::Emit(message))
        }
    }
}

/// The transition relation of the assembler: one observed byte moves one
/// abstract parser state to the next and yields the step's outcome.
pub open spec fn spec_step(m: ParserModel, byte: u8, received_at: u64, version_tenths: u16) -> (
    ParserModel,
    StepOutcome,
) {
    match m.state {
        MessageParserState::WaitingForCall => spec_step_call(byte, received_at),
        MessageParserState::WaitingForHeader => spec_step_header(m, byte),
        MessageParserState::WaitingForIdentifier => spec_step_identifier(m, byte),
        MessageParserState::WaitingForData => spec_step_data(m, byte),
        MessageParserState::ProcessingData => spec_step_processing(m, byte, version_tenths),
    }
}

/// Whether the executable outcome realizes the abstract step outcome.
pub open spec fn outcome_matches(
    r: Result<Option<LZMessage>, DecodeError>,
    out: StepOutcome,
) -> bool {
    match out {
        StepOutcome::NeedMore => r is Ok && r.unwrap() is None,
        StepOutcome::Emit(message) => r is Ok && r.unwrap() is Some && r.unwrap().unwrap()@
            == message,
        StepOutcome::Fail(e) => r == Err::<Option<LZMessage>, DecodeError>(e),
    }
}

/// Candidate-set liveness: once the header byte has been consumed, an
/// in-flight decode always holds at least one surviving definition.
pub open spec fn live_candidates(m: ParserModel) -> bool {
    (m.state is WaitingForIdentifier || m.state is WaitingForData || m.state is ProcessingData)
        ==> m.candidates.len() > 0
}

/// Law: the candidate set never reaches zero members while bytes are still
/// owed — an emptied set fails the decode at once and is never carried
/// along. [`live_candidates`] is preserved by every step of the assembler.
pub proof fn lemma_live_candidates_preserved(
    m: ParserModel,
    byte: u8,
    received_at: u64,
    version_tenths: u16,
)
    requires
        live_candidates(m),
    ensures
        live_candidates(spec_step(m, byte, received_at, version_tenths).0),
{
}

/// Law: a message emitted at finalization names a definition whose version
/// window contains the protocol version believed at that moment, and that
/// definition is the single survivor of the version filter.
pub proof fn lemma_emitted_definition_respects_version(
    m: ParserModel,
    byte: u8,
    received_at: u64,
    version_tenths: u16,
)
    requires
        m.state is ProcessingData,
        spec_step(m, byte, received_at, version_tenths).1 is Emit,
    ensures
        ({
            let survivors = version_filter(m.candidates, version_tenths);
            &&& survivors.len() == 1
            &&& version_keeps(survivors[0], version_tenths)
            &&& spec_step(m, byte, received_at, version_tenths).1->Emit_0.definition_name
                == survivors[0].name
        }),
{
    let survivors = version_filter(m.candidates, version_tenths);
    m.candidates.lemma_filter_pred(
        |d: LZMessageDefinition| version_keeps(d, version_tenths),
        0,
    );
}

/// Round-trip checksum law at the assembler: a completed frame followed by
/// its own folded checksum never fails with a checksum error, and once any
/// bits of one collected frame byte are flipped, the original checksum byte
/// can no longer yield a message that claims a valid checksum.
pub proof fn lemma_processing_checksum_round_trip(
    m: ParserModel,
    version_tenths: u16,
    i: int,
    flip: u8,
)
    requires
        m.state is ProcessingData,
        0 <= i < m.collected.len(),
        flip != 0,
    ensures
        !(spec_step(m, xor_seq(m.collected), 0, version_tenths).1 matches StepOutcome::Fail(e)
            && e is ChecksumError),
        ({
            let corrupted = ParserModel {
                collected: m.collected.update(i, m.collected[i] ^ flip),
                ..m
            };
            let outcome = spec_step(corrupted, xor_seq(m.collected), 0, version_tenths).1;
            outcome matches StepOutcome::Emit(message) ==> !message.checksum_valid
        }),
{
    crate::checksum::lemma_checksum_detects_bit_flip(m.collected, i, flip);
}

fn call_only_name_of(kind: CallKind) -> (n: LZMessageName)
    ensures
        n == call_only_name(kind),
{
    match kind {
        CallKind::SendRequest => LZMessageName::NormalRequest,
        CallKind::RequestResend => LZMessageName::RequestAcknowledge,
        CallKind::BroadcastFeedbackPoll => LZMessageName::BroadcastFeedback,
        CallKind::Unknown => LZMessageName::TBD,
        CallKind::FramedMessage => LZMessageName::TBD,
    }
}

fn resolved_data_len_of(d: &LZMessageDefinition, header: u8) -> (n: u8)
    ensures
        n as int == resolved_data_len(*d, header),
{
    match d.data_byte_count {
        DataByteCount::Fixed(n) => n,
        DataByteCount::FromHeaderLowNibble => header % 16,
    }
}

fn candidates_any_identifier(defs: &Vec<LZMessageDefinition>) -> (r: bool)
    ensures
        r == any_requires_identifier(defs@),
{
    let n = defs.len();
    let mut i: usize = 0;
    while i < n
        invariant
            i <= n,
            n == defs@.len(),
            forall|j: int| 0 <= j < i ==> !(#[trigger] defs@[j]).has_identifier,
        decreases n - i,
    {
        if defs[i].has_identifier {
            return true;
        }
        i += 1;
    }
    false
}

fn candidates_lengths_agree(defs: &Vec<LZMessageDefinition>, header: u8) -> (r: bool)
    ensures
        r == lengths_agree(defs@, header),
{
    let n = defs.len();
    if n == 0 {
        return true;
    }
    let base = resolved_data_len_of(&defs[0], header);
    let mut i: usize = 0;
    while i < n
        invariant
            i <= n,
            n == defs@.len(),
            n > 0,
            base as int == resolved_data_len(defs@[0], header),
            forall|j: int|
                0 <= j < i ==> #[trigger] resolved_data_len(defs@[j], header) == base as int,
        decreases n - i,
    {
        let here = resolved_data_len_of(&defs[i], header);
        if here != base {
            return false;
        }
        i += 1;
    }
    true
}

/// The frame assembler: consumes the byte stream strictly in arrival order
/// and drives classification, disambiguation, payload collection and
/// checksum validation for one frame at a time.
pub struct MessageParser {
    pub state: MessageParserState,
    pub collected_data: Vec<u8>,
    pub message_filter: LZMessageDefinitionFilter,
    pub call_frame: Option<CallFrame>,
    pub header_byte: Option<u8>,
    pub identifier_byte: Option<u8>,
    pub expected_total: usize,
}

impl View for MessageParser {
    type V = ParserModel;

    open spec fn view(&self) -> ParserModel {
        ParserModel {
            state: self.state,
            collected: self.collected_data@,
            candidates: self.message_filter.possible_definitions@,
            call_frame: self.call_frame,
            header_byte: self.header_byte,
            identifier_byte: self.identifier_byte,
            expected_total: self.expected_total as int,
        }
    }
}

impl MessageParser {
    /// Well-formedness between bytes: each state carries exactly the pieces
    /// of the frame its position in the protocol implies.
    pub open spec fn wf(self) -> bool {
        match self.state {
            MessageParserState::WaitingForCall => true,
            MessageParserState::WaitingForHeader => self.call_frame is Some && self.header_byte
                is None && self.identifier_byte is None && self.collected_data@.len() == 0,
            MessageParserState::WaitingForIdentifier => self.call_frame is Some
                && self.header_byte is Some && self.identifier_byte is None
                && self.collected_data@.len() == 1,
            MessageParserState::WaitingForData => self.call_frame is Some && self.header_byte
                is Some && payload_start_of(self.identifier_byte) <= self.collected_data@.len()
                && self.collected_data@.len() < self.expected_total,
            MessageParserState::ProcessingData => self.call_frame is Some && self.header_byte
                is Some && payload_start_of(self.identifier_byte) <= self.collected_data@.len()
                && self.collected_data@.len() == self.expected_total,
        }
    }

    /// A fresh assembler, waiting for a call byte.
    pub fn new() -> (p: MessageParser)
        ensures
            p.wf(),
            p@ == reset_model(),
    {
        MessageParser {
            state: MessageParserState::WaitingForCall,
            collected_data: Vec::new(),
            message_filter: LZMessageDefinitionFilter::new(),
            call_frame: None,
            header_byte: None,
            identifier_byte: None,
            expected_total: 0,
        }
    }

    fn reset(&mut self)
        ensures
            final (self).wf(),
            final (self)@ == reset_model(),
    {
        self.state = MessageParserState::WaitingForCall;
        self.collected_data = Vec::new();
        self.message_filter = LZMessageDefinitionFilter::new();
        self.call_frame = None;
        self.header_byte = None;
        self.identifier_byte = None;
        self.expected_total = 0;
    }

    /// The state the assembler will read the next byte in.
    pub fn current_state(&self) -> (s: MessageParserState)
        ensures
            s == self@.state,
    {
        self.state
    }

    /// Feeds one byte from the transport into the assembler, under the
    /// currently believed protocol version (in tenths). Returns a finished
    /// message, a definite failure, or `Ok(None)` when more bytes are
    /// needed; after a message or a failure the assembler stands
    /// resynchronized at `WaitingForCall`. The whole behaviour is the
    /// transition relation [`spec_step`].
    pub fn parse_data(&mut self, data: u8, receive_time: u64, version_tenths: u16) -> (r: Result<
        Option<LZMessage>,
        DecodeError,
    >)
        requires
            old(self).wf(),
        ensures
            final (self).wf(),
            final (self)@ == spec_step(old(self)@, data, receive_time, version_tenths).0,
            outcome_matches(r, spec_step(old(self)@, data, receive_time, version_tenths).1),
    {
        match self.state {
            MessageParserState::WaitingForCall => {
                match classify(data, receive_time) {
                    Err(e) => {
                        self.reset();
                        Err(e)
                    },
                    Ok(frame) => {
                        if matches!(frame.kind, CallKind::FramedMessage) {
                            self.message_filter.filter_call(&frame);
                            self.state = MessageParserState::WaitingForHeader;
                            self.collected_data = Vec::new();
                            self.call_frame = Some(frame);
                            self.header_byte = None;
                            self.identifier_byte = None;
                            self.expected_total = 0;
                            Ok(None)
                        } else {
                            let name = call_only_name_of(frame.kind);
                            self.reset();
                            Ok(
                                Some(
                                    LZMessage {
                                        definition_name: name,
                                        call_frame: frame,
                                        header_byte: None,
                                        identifier_byte: None,
                                        payload: Vec::new(),
                                        checksum_valid: false,
                                    },
                                ),
                            )
                        }
                    },
                }
            },
            MessageParserState::WaitingForHeader => {
                self.message_filter.apply_header(data);
                if self.message_filter.possible_definitions.len() == 0 {
                    self.reset();
                    Err(DecodeError::NoMatchingDefinition)
                } else if candidates_any_identifier(&self.message_filter.possible_definitions) {
                    self.state = MessageParserState::WaitingForIdentifier;
                    self.collected_data.push(data);
                    self.header_byte = Some(data);
                    self.expected_total = 0;
                    proof {
                        assert(self.collected_data@ =~= seq![data]);
                    }
                    Ok(None)
                } else if candidates_lengths_agree(
                    &self.message_filter.possible_definitions,
                    data,
                ) {
                    let declared = resolved_data_len_of(
                        &self.message_filter.possible_definitions[0],
                        data,
                    );
                    let total: usize = 1 + declared as usize;
                    self.collected_data.push(data);
                    self.header_byte = Some(data);
                    self.expected_total = total;
                    proof {
                        assert(self.collected_data@ =~= seq![data]);
                    }
                    if total == 1 {
                        self.state = MessageParserState::ProcessingData;
                    } else {
                        self.state = MessageParserState::WaitingForData;
                    }
                    Ok(None)
                } else {
                    self.reset();
                    Err(DecodeError::AmbiguousDefinition)
                }
            },
            MessageParserState::WaitingForIdentifier => {
                self.message_filter.apply_identifier(data);
                let header = self.header_byte.unwrap();
                if self.message_filter.possible_definitions.len() == 0 {
                    self.reset();
                    Err(DecodeError::NoMatchingDefinition)
                } else if candidates_lengths_agree(
                    &self.message_filter.possible_definitions,
                    header,
                ) {
                    let declared = resolved_data_len_of(
                        &self.message_filter.possible_definitions[0],
                        header,
                    );
                    let total: usize = 2 + declared as usize;
                    self.collected_data.push(data);
                    self.identifier_byte = Some(data);
                    self.expected_total = total;
                    if total == 2 {
                        self.state = MessageParserState::ProcessingData;
                    } else {
                        self.state = MessageParserState::WaitingForData;
                    }
                    Ok(None)
                } else {
                    self.reset();
                    Err(DecodeError::AmbiguousDefinition)
                }
            },
            MessageParserState::WaitingForData => {
                self.collected_data.push(data);
                if self.collected_data.len() == self.expected_total {
                    self.state = MessageParserState::ProcessingData;
                }
                Ok(None)
            },
            MessageParserState::ProcessingData => {
                self.message_filter.apply_version(version_tenths);
                match self.message_filter.finalize() {
                    Err(e) => {
                        self.reset();
                        Err(e)
                    },
                    Ok(d) => {
                        let frame = self.call_frame.unwrap();
                        let start: usize = if self.identifier_byte.is_some() {
                            2
                        } else {
                            1
                        };
                        let len = self.collected_data.len();
                        let ghost coll = self.collected_data@;
                        let mut payload: Vec<u8> = Vec::new();
                        let mut i: usize = start;
                        while i < len
                            invariant
                                start <= i <= len,
                                len == coll.len(),
                                self.collected_data@ == coll,
                                payload@ == coll.subrange(start as int, i as int),
                            decreases len - i,
                        {
                            proof {
                                assert(coll.subrange(start as int, i as int + 1) =~= coll.subrange(
                                    start as int,
                                    i as int,
                                ).push(coll[i as int]));
                            }
                            payload.push(self.collected_data[i]);
                            i += 1;
                        }
                        if d.has_xor {
                            if validate_checksum(&self.collected_data, data) {
                                let message = LZMessage {
                                    definition_name: d.name,
                                    call_frame: frame,
                                    header_byte: self.header_byte,
                                    identifier_byte: self.identifier_byte,
                                    payload,
                                    checksum_valid: true,
                                };
                                self.reset();
                                Ok(Some(message))
                            } else {
                                self.reset();
                                Err(DecodeError::ChecksumError)
                            }
                        } else {
                            let message = LZMessage {
                                definition_name: d.name,
                                call_frame: frame,
                                header_byte: self.header_byte,
                                identifier_byte: self.identifier_byte,
                                payload,
                                checksum_valid: false,
                            };
                            self.reset();
                            Ok(Some(message))
                        }
                    },
                }
            },
        }
    }
}

} // verus!
