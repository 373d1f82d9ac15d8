//! The durable admission marker: who owns the run, at which epoch, and whether
//! that ownership is still held.
//!
//! A marker records a phase instead of being deleted. A deleted file records no
//! phase: a follow-on process finding nothing cannot tell a clean release from a
//! marker that was never written. And with deletion out of the store's vocabulary
//! no recovery path can reach for it.
//!
//! Two encodings decode; one is produced. The legacy encoding is the sixteen bytes
//! of a writer token; it carries no epoch and no phase and decodes as held by an
//! unnamed writer. The extended encoding is a fixed-width record: magic, version,
//! phase, epoch, token and writer id. Anything else is refused, not repaired.
use vstd::prelude::*;

use crate::bytes::{
    append_bytes, big_endian_digits, copy_bytes, copy_range, from_little_endian, le_bytes, le_value,
    little_endian, little_endian_round_trip, radix_of_eight,
};
use crate::contract::{opt_view, res_view, same_id, LeaseEpoch, WriterId};
use crate::error::{
    unproven, unproven_error, FacadeError, FacadeErrorView, FacadeResult,
};
use crate::text::{
    decimal, decimal_text, join, join3, tagged, tagged_text, utf8_fault, utf8_text,
};

verus! {

/// Version byte of the extended encoding.
pub const VERSION: u8 = 1;

/// Byte length of the legacy encoding: the raw bytes of a writer token.
pub const LEGACY_MARKER_BYTES: usize = 16;

/// Byte length of every extended record.
///
/// Fixed, so that every overwrite is total: a shorter record written over a longer
/// one would leave the old tail behind.
pub const EXTENDED_MARKER_BYTES: usize = 256;

/// Offset the writer id starts at within an extended record.
pub const WRITER_ID_OFFSET: usize = 36;

/// Longest writer id an extended record can carry.
pub const MAX_WRITER_ID_BYTES: usize = 220;

/// The opaque sixteen-byte writer token a marker holds.
///
/// Its bytes are the identity a session proves it is the same writer with; its age
/// is never authority.
#[derive(Clone, Copy, Debug, PartialEq, Eq, PartialOrd, Ord, Hash)]
pub struct WriterToken(pub [u8; 16]);

impl View for WriterToken {
    type V = Seq<u8>;

    open spec fn view(&self) -> Seq<u8> {
        self.0@
    }
}

impl WriterToken {
    /// The token's raw bytes, as the legacy encoding stores them.
    pub fn as_bytes(&self) -> (r: &[u8; 16])
        ensures
            r@ == self@,
    {
        &self.0
    }
}

/// Whether the recorded owner still holds admission. There is no expiry: this
/// records only what a writer actually did.
#[derive(Clone, Copy, Debug, PartialEq, Eq, Structural)]
pub enum AdmissionPhase {
    /// A writer acquired admission and has not released it.
    Held,
    /// The recorded writer released admission cooperatively.
    Released,
}

/// The code a phase is recorded as.
pub open spec fn phase_code(phase: AdmissionPhase) -> u8 {
    match phase {
        AdmissionPhase::Held => 1,
        AdmissionPhase::Released => 2,
    }
}

/// The phase a code records.
pub open spec fn phase_of(code: u8) -> Option<AdmissionPhase> {
    if code == 1 {
        Some(AdmissionPhase::Held)
    } else if code == 2 {
        Some(AdmissionPhase::Released)
    } else {
        None
    }
}

impl AdmissionPhase {
    fn code(self) -> (r: u8)
        ensures
            r == phase_code(self),
    {
        match self {
            AdmissionPhase::Held => 1,
            AdmissionPhase::Released => 2,
        }
    }

    fn from_code(code: u8) -> (r: Option<Self>)
        ensures
            r == phase_of(code),
    {
        if code == 1 {
            Some(AdmissionPhase::Held)
        } else if code == 2 {
            Some(AdmissionPhase::Released)
        } else {
            None
        }
    }
}

/// What a marker's bytes could not be made to mean.
#[derive(Debug, PartialEq, Eq)]
pub enum MarkerError {
    /// The bytes match neither encoding, or the extended encoding is inconsistent.
    Malformed(String),
    /// A recorded epoch went backwards relative to one already observed.
    EpochRegressed {
        /// Highest epoch previously observed.
        seen: LeaseEpoch,
        /// Epoch just read from the marker.
        observed: LeaseEpoch,
    },
    /// The writer id does not fit a fixed-width record.
    WriterIdTooLong {
        /// Length of the offered id.
        len: usize,
        /// The most a record can carry.
        max: usize,
    },
}

/// The content of a [`MarkerError`].
pub enum MarkerErrorView {
    /// See [`MarkerError::Malformed`].
    Malformed(Seq<char>),
    /// See [`MarkerError::EpochRegressed`].
    EpochRegressed {
        /// Highest epoch previously observed.
        seen: LeaseEpoch,
        /// Epoch just read from the marker.
        observed: LeaseEpoch,
    },
    /// See [`MarkerError::WriterIdTooLong`].
    WriterIdTooLong {
        /// Length of the offered id.
        len: usize,
        /// The most a record can carry.
        max: usize,
    },
}

impl View for MarkerError {
    type V = MarkerErrorView;

    open spec fn view(&self) -> MarkerErrorView {
        match *self {
            MarkerError::Malformed(detail) => MarkerErrorView::Malformed(detail@),
            MarkerError::EpochRegressed { seen, observed } => MarkerErrorView::EpochRegressed {
                seen,
                observed,
            },
            MarkerError::WriterIdTooLong { len, max } => MarkerErrorView::WriterIdTooLong {
                len,
                max,
            },
        }
    }
}

/// How a marker failure is rendered.
pub open spec fn marker_error_text(error: MarkerErrorView) -> Seq<char> {
    match error {
        MarkerErrorView::Malformed(detail) => "admission marker is malformed: "@ + detail,
        MarkerErrorView::EpochRegressed { seen, observed } =>
            "admission epoch regressed: observed "@ + tagged("LeaseEpoch"@, observed.0 as nat)
            + " after "@ + tagged("LeaseEpoch"@, seen.0 as nat),
        MarkerErrorView::WriterIdTooLong { len, max } => "writer id is "@ + decimal(len as nat)
            + " bytes; a marker record holds at most "@ + decimal(max as nat),
    }
}

impl MarkerError {
    /// How this failure is rendered.
    pub fn text(&self) -> (r: String)
        ensures
            r@ == marker_error_text(self@),
    {
        match self {
            MarkerError::Malformed(detail) => join(
                "admission marker is malformed: ",
                detail.as_str(),
            ),
            MarkerError::EpochRegressed { seen, observed } => join3(
                "admission epoch regressed: observed ",
                tagged_text("LeaseEpoch", observed.0).as_str(),
                " after ",
            ).concat(tagged_text("LeaseEpoch", seen.0).as_str()),
            MarkerError::WriterIdTooLong { len, max } => join3(
                "writer id is ",
                decimal_text(*len as u64).as_str(),
                " bytes; a marker record holds at most ",
            ).concat(decimal_text(*max as u64).as_str()),
        }
    }

    /// Render as the authority-domain failure a caller acts on: unreadable or
    /// contradictory ownership evidence is a safe stop.
    pub fn to_facade(&self) -> (r: FacadeError)
        ensures
            r@ == unproven(marker_error_text(self@)),
    {
        unproven_error(self.text().as_str())
    }
}

/// The durable ownership record for one run.
#[derive(Debug, PartialEq, Eq)]
pub struct AdmissionMarker {
    token: WriterToken,
    writer: Option<WriterId>,
    epoch: LeaseEpoch,
    phase: AdmissionPhase,
    legacy: bool,
}

/// The content of an [`AdmissionMarker`].
pub struct AdmissionMarkerView {
    /// The writer token.
    pub token: Seq<u8>,
    /// The writer id, absent for a legacy marker.
    pub writer: Option<Seq<char>>,
    /// The epoch the recorded ownership was acquired at.
    pub epoch: LeaseEpoch,
    /// Whether the recorded owner still holds admission.
    pub phase: AdmissionPhase,
    /// Whether this record came from the legacy encoding.
    pub legacy: bool,
}

impl View for AdmissionMarker {
    type V = AdmissionMarkerView;

    closed spec fn view(&self) -> AdmissionMarkerView {
        AdmissionMarkerView {
            token: self.token@,
            writer: opt_view(self.writer),
            epoch: self.epoch,
            phase: self.phase,
            legacy: self.legacy,
        }
    }
}

/// The eight bytes every extended record begins with.
pub open spec fn marker_magic() -> Seq<u8> {
    seq![85u8, 77u8, 66u8, 82u8, 65u8, 87u8, 82u8, 76u8]
}

/// The bytes of the writer id a marker records; none for a legacy marker.
pub open spec fn writer_bytes(marker: AdmissionMarkerView) -> Seq<u8> {
    match marker.writer {
        Some(id) => vstd::utf8::encode_utf8(id),
        None => Seq::empty(),
    }
}

/// What a marker encodes to: a fixed-width record, or a refusal of a writer id
/// that does not fit.
pub open spec fn marker_bytes(marker: AdmissionMarkerView) -> Result<Seq<u8>, MarkerErrorView> {
    let id = writer_bytes(marker);
    if id.len() > MAX_WRITER_ID_BYTES {
        Err(
            MarkerErrorView::WriterIdTooLong { len: id.len() as usize, max: MAX_WRITER_ID_BYTES },
        )
    } else {
        Ok(
            marker_magic() + seq![VERSION, phase_code(marker.phase)] + le_bytes(
                marker.epoch.0 as nat,
                8,
            ) + marker.token + le_bytes(id.len(), 2) + id + Seq::new(
                (MAX_WRITER_ID_BYTES - id.len()) as nat,
                |i: int| 0u8,
            ),
        )
    }
}

/// The length an extended record declares its writer id to have.
pub open spec fn declared_length(bytes: Seq<u8>) -> nat {
    le_value(bytes.subrange(34, 36))
}

/// The writer id bytes of an extended record.
pub open spec fn declared_id(bytes: Seq<u8>) -> Seq<u8> {
    bytes.subrange(
        WRITER_ID_OFFSET as int,
        WRITER_ID_OFFSET as int + declared_length(bytes) as int,
    )
}

/// What marker bytes decode to. Length alone separates the two encodings.
pub open spec fn decode_marker(bytes: Seq<u8>) -> Result<AdmissionMarkerView, MarkerErrorView> {
    if bytes.len() == LEGACY_MARKER_BYTES {
        Ok(
            AdmissionMarkerView {
                token: bytes,
                writer: None,
                epoch: LeaseEpoch(0),
                phase: AdmissionPhase::Held,
                legacy: true,
            },
        )
    } else if bytes.len() != EXTENDED_MARKER_BYTES {
        Err(
            MarkerErrorView::Malformed(
                decimal(bytes.len()) + " bytes is neither the "@ + decimal(
                    LEGACY_MARKER_BYTES as nat,
                ) + "-byte legacy lock nor a "@ + decimal(EXTENDED_MARKER_BYTES as nat)
                    + "-byte record"@,
            ),
        )
    } else if bytes.take(8) != marker_magic() {
        Err(MarkerErrorView::Malformed("unrecognised magic"@))
    } else if bytes[8] != VERSION {
        Err(
            MarkerErrorView::Malformed(
                "unsupported marker version "@ + decimal(bytes[8] as nat),
            ),
        )
    } else {
        match phase_of(bytes[9]) {
            None => Err(
                MarkerErrorView::Malformed("unknown phase code "@ + decimal(bytes[9] as nat)),
            ),
            Some(phase) => if declared_length(bytes) > MAX_WRITER_ID_BYTES {
                Err(
                    MarkerErrorView::Malformed(
                        "writer id declares "@ + decimal(declared_length(bytes))
                            + " bytes, more than the "@ + decimal(MAX_WRITER_ID_BYTES as nat)
                            + " a record holds"@,
                    ),
                )
            } else if !vstd::utf8::valid_utf8(declared_id(bytes)) {
                Err(
                    MarkerErrorView::Malformed(
                        "writer id is not UTF-8: "@ + utf8_fault(declared_id(bytes)),
                    ),
                )
            } else {
                Ok(
                    AdmissionMarkerView {
                        token: bytes.subrange(18, 34),
                        writer: Some(vstd::utf8::decode_utf8(declared_id(bytes))),
                        epoch: LeaseEpoch(le_value(bytes.subrange(10, 18)) as u64),
                        phase,
                        legacy: false,
                    },
                )
            },
        }
    }
}

fn token_at(bytes: &[u8], from: usize) -> (r: WriterToken)
    requires
        from <= 18,
        from + 16 <= bytes@.len(),
    ensures
        r@ == bytes@.subrange(from as int, from + 16),
{
    let mut token: [u8; 16] = [0u8; 16];
    let mut i: usize = 0;
    while i < 16
        invariant
            i <= 16,
            from <= 18,
            from + 16 <= bytes@.len(),
            forall|j: int| 0 <= j < i ==> token@[j] == bytes@[from + j],
        decreases 16 - i,
    {
        token[i] = bytes[from + i];
        i += 1;
    }
    proof {
        assert(token@ =~= bytes@.subrange(from as int, from + 16));
    }
    WriterToken(token)
}

fn has_magic(bytes: &[u8]) -> (r: bool)
    requires
        bytes@.len() >= 8,
    ensures
        r == (bytes@.take(8) == marker_magic()),
{
    let magic: [u8; 8] = [85u8, 77u8, 66u8, 82u8, 65u8, 87u8, 82u8, 76u8];
    proof {
        assert(magic@ =~= marker_magic());
    }
    let mut i: usize = 0;
    while i < 8
        invariant
            i <= 8,
            bytes@.len() >= 8,
            magic@ == marker_magic(),
            magic@.len() == 8,
            forall|j: int| 0 <= j < i ==> bytes@[j] == magic@[j],
        decreases 8 - i,
    {
        if bytes[i] != magic[i] {
            proof {
                assert(bytes@.take(8)[i as int] != marker_magic()[i as int]);
            }
            return false;
        }
        i += 1;
    }
    proof {
        assert(bytes@.take(8) =~= marker_magic());
    }
    true
}

impl AdmissionMarker {
    /// A marker this provider is about to write.
    pub fn new(
        token: WriterToken,
        writer: WriterId,
        epoch: LeaseEpoch,
        phase: AdmissionPhase,
    ) -> (r: Self)
        ensures
            r@ == (AdmissionMarkerView {
                token: token@,
                writer: Some(writer@),
                epoch,
                phase,
                legacy: false,
            }),
    {
        AdmissionMarker { token, writer: Some(writer), epoch, phase, legacy: false }
    }

    /// The writer token.
    pub fn token(&self) -> (r: WriterToken)
        ensures
            r@ == self@.token,
    {
        self.token
    }

    /// The writer id, absent for a legacy marker that records only a token.
    pub fn writer(&self) -> (r: Option<&WriterId>)
        ensures
            match r {
                Some(id) => self@.writer == Some(id@),
                None => self@.writer is None,
            },
    {
        match &self.writer {
            Some(id) => Some(id),
            None => None,
        }
    }

    /// The epoch the recorded ownership was acquired at; zero for a legacy marker,
    /// which keeps the ladder monotone without inventing a generation.
    pub fn epoch(&self) -> (r: LeaseEpoch)
        ensures
            r == self@.epoch,
    {
        self.epoch
    }

    /// Whether the recorded owner still holds admission.
    pub fn phase(&self) -> (r: AdmissionPhase)
        ensures
            r == self@.phase,
    {
        self.phase
    }

    /// Whether this record came from the legacy encoding.
    pub fn is_legacy(&self) -> (r: bool)
        ensures
            r == self@.legacy,
    {
        self.legacy
    }

    /// Whether `token` is the token this marker records.
    pub fn is_held_by(&self, token: WriterToken) -> (r: bool)
        ensures
            r == (self@.token == token@),
    {
        let same = same_id(&self.token.0, &token.0);
        proof {
            if self@.token == token@ {
                assert(self.token.0@ =~= token.0@);
                assert(self.token.0 =~= token.0);
            }
        }
        same
    }

    /// The same ownership, released. The epoch does not move: the next acquirer is
    /// what advances it.
    pub fn released(&self) -> (r: Self)
        ensures
            r@ == (AdmissionMarkerView {
                phase: AdmissionPhase::Released,
                legacy: false,
                ..self@
            }),
    {
        AdmissionMarker {
            token: self.token,
            writer: match &self.writer {
                Some(id) => Some(id.clone()),
                None => None,
            },
            epoch: self.epoch,
            phase: AdmissionPhase::Released,
            legacy: false,
        }
    }

    /// Encode as a fixed-width extended record. A writer id that does not fit is
    /// refused rather than truncated.
    pub fn encode(&self) -> (r: Result<Vec<u8>, MarkerError>)
        ensures
            res_view(r) == marker_bytes(self@),
            r matches Ok(bytes) ==> bytes@.len() == EXTENDED_MARKER_BYTES,
    {
        let id: Vec<u8> = match &self.writer {
            Some(name) => copy_bytes(name.0.as_str().as_bytes()),
            None => Vec::new(),
        };
        proof {
            assert(id@ =~= writer_bytes(self@));
        }
        if id.len() > MAX_WRITER_ID_BYTES {
            return Err(
                MarkerError::WriterIdTooLong { len: id.len(), max: MAX_WRITER_ID_BYTES },
            );
        }
        let mut bytes: Vec<u8> = vec![
            85u8,
            77u8,
            66u8,
            82u8,
            65u8,
            87u8,
            82u8,
            76u8,
            VERSION,
            self.phase.code(),
        ];
        proof {
            assert(bytes@ =~= marker_magic() + seq![VERSION, phase_code(self.phase)]);
            little_endian_round_trip(self.epoch.0 as nat, 8);
            little_endian_round_trip(id@.len(), 2);
        }
        append_bytes(&mut bytes, little_endian(self.epoch.0, 8).as_slice());
        append_bytes(&mut bytes, &self.token.0);
        append_bytes(&mut bytes, little_endian(id.len() as u64, 2).as_slice());
        append_bytes(&mut bytes, id.as_slice());
        let ghost front = bytes@;
        while bytes.len() < EXTENDED_MARKER_BYTES
            invariant
                front.len() <= bytes@.len() <= EXTENDED_MARKER_BYTES,
                bytes@ == front + Seq::new((bytes@.len() - front.len()) as nat, |i: int| 0u8),
            decreases EXTENDED_MARKER_BYTES - bytes@.len(),
        {
            bytes.push(0);
            proof {
                assert(bytes@ =~= front + Seq::new(
                    (bytes@.len() - front.len()) as nat,
                    |i: int| 0u8,
                ));
            }
        }
        Ok(bytes)
    }

    /// Decode either encoding. Anything of another length is refused, which is
    /// also what a partially written record looks like.
    pub fn decode(bytes: &[u8]) -> (r: Result<Self, MarkerError>)
        ensures
            res_view(r) == decode_marker(bytes@),
    {
        if bytes.len() == LEGACY_MARKER_BYTES {
            let token = token_at(bytes, 0);
            proof {
                assert(bytes@.subrange(0, 16) =~= bytes@);
            }
            return Ok(
                AdmissionMarker {
                    token,
                    writer: None,
                    epoch: LeaseEpoch(0),
                    // Presence is authority; its lack of a phase is no release.
                    phase: AdmissionPhase::Held,
                    legacy: true,
                },
            );
        }
        if bytes.len() != EXTENDED_MARKER_BYTES {
            return Err(
                MarkerError::Malformed(
                    join3(
                        decimal_text(bytes.len() as u64).as_str(),
                        " bytes is neither the ",
                        decimal_text(LEGACY_MARKER_BYTES as u64).as_str(),
                    ).concat("-byte legacy lock nor a ").concat(
                        decimal_text(EXTENDED_MARKER_BYTES as u64).as_str(),
                    ).concat("-byte record"),
                ),
            );
        }
        if !has_magic(bytes) {
            return Err(MarkerError::Malformed("unrecognised magic".to_owned()));
        }
        if bytes[8] != VERSION {
            return Err(
                MarkerError::Malformed(
                    join("unsupported marker version ", decimal_text(bytes[8] as u64).as_str()),
                ),
            );
        }
        let phase = match AdmissionPhase::from_code(bytes[9]) {
            Some(phase) => phase,
            None => {
                return Err(
                    MarkerError::Malformed(
                        join("unknown phase code ", decimal_text(bytes[9] as u64).as_str()),
                    ),
                );
            },
        };
        let epoch = LeaseEpoch(from_little_endian(copy_range(bytes, 10, 18).as_slice()));
        let token = token_at(bytes, 18);
        let id_len: u64 = from_little_endian(copy_range(bytes, 34, 36).as_slice());
        proof {
            radix_of_eight();
            big_endian_digits(bytes@.subrange(34, 36).reverse());
        }
        if id_len > MAX_WRITER_ID_BYTES as u64 {
            return Err(
                MarkerError::Malformed(
                    join3(
                        "writer id declares ",
                        decimal_text(id_len).as_str(),
                        " bytes, more than the ",
                    ).concat(decimal_text(MAX_WRITER_ID_BYTES as u64).as_str()).concat(
                        " a record holds",
                    ),
                ),
            );
        }
        let id = copy_range(bytes, WRITER_ID_OFFSET, WRITER_ID_OFFSET + id_len as usize);
        proof {
            assert(id@ =~= declared_id(bytes@));
        }
        match utf8_text(id.as_slice()) {
            Err(reason) => Err(
                MarkerError::Malformed(join("writer id is not UTF-8: ", reason.as_str())),
            ),
            Ok(text) => Ok(
                AdmissionMarker {
                    token,
                    writer: Some(WriterId(text)),
                    epoch,
                    phase,
                    legacy: false,
                },
            ),
        }
    }
}

/// An extended record reads back as the marker it was written from.
pub proof fn a_marker_survives_its_encoding(marker: AdmissionMarkerView)
    requires
        marker.token.len() == LEGACY_MARKER_BYTES,
        marker.writer is Some,
        !marker.legacy,
    ensures
        marker_bytes(marker) matches Ok(bytes) ==> bytes.len() == EXTENDED_MARKER_BYTES
            && decode_marker(bytes) == Ok::<AdmissionMarkerView, MarkerErrorView>(marker),
{
    if let Ok(bytes) = marker_bytes(marker) {
        let id = writer_bytes(marker);
        radix_of_eight();
        little_endian_round_trip(marker.epoch.0 as nat, 8);
        little_endian_round_trip(id.len(), 2);
        assert(bytes.take(8) =~= marker_magic());
        assert(bytes.subrange(10, 18) =~= le_bytes(marker.epoch.0 as nat, 8));
        assert(bytes.subrange(18, 34) =~= marker.token);
        assert(bytes.subrange(34, 36) =~= le_bytes(id.len(), 2));
        assert(declared_id(bytes) =~= id);
        vstd::utf8::encode_utf8_valid_utf8(marker.writer->0);
        vstd::utf8::encode_utf8_decode_utf8(marker.writer->0);
    }
}

/// A legacy lock always reads as held, never as released.
pub proof fn a_legacy_lock_is_held(bytes: Seq<u8>)
    requires
        bytes.len() == LEGACY_MARKER_BYTES,
    ensures
        decode_marker(bytes) matches Ok(marker) && marker.phase == AdmissionPhase::Held
            && marker.legacy,
{
}

/// What an exclusive create found.
#[derive(Clone, Copy, Debug, PartialEq, Eq, Structural)]
pub enum ExclusiveCreate {
    /// This caller created it.
    Created,
    /// The name already exists.
    Exists,
}

impl View for ExclusiveCreate {
    type V = ExclusiveCreate;

    open spec fn view(&self) -> ExclusiveCreate {
        *self
    }
}

/// The durable store one run's admission marker lives in.
///
/// `state` stands for whatever decides an answer; the other spec functions say
/// what each call answers and which state follows it. There is no way to delete a
/// marker: handover is [`AdmissionPhase::Released`] written in place.
///
/// A create and a claim have to be atomic where the marker is kept: two callers
/// racing one must produce exactly one [`ExclusiveCreate::Created`].
pub trait MarkerStore: Sized {
    /// Everything that decides what this store answers.
    type State;

    /// The present state.
    spec fn state(&self) -> Self::State;

    /// What an exclusive create of `bytes` answers, and the state after it.
    spec fn creating(state: Self::State, bytes: Seq<u8>) -> (
        Result<ExclusiveCreate, FacadeErrorView>,
        Self::State,
    );

    /// What a read answers, and the state after it.
    spec fn reading(state: Self::State) -> (
        Result<Option<Seq<u8>>, FacadeErrorView>,
        Self::State,
    );

    /// What an overwrite with `bytes` answers, and the state after it.
    spec fn overwriting(state: Self::State, bytes: Seq<u8>) -> (
        Result<(), FacadeErrorView>,
        Self::State,
    );

    /// What a claim on succeeding to `epoch` answers, and the state after it.
    spec fn claiming(state: Self::State, epoch: LeaseEpoch) -> (
        Result<ExclusiveCreate, FacadeErrorView>,
        Self::State,
    );

    /// Create the marker, failing without modification if it already exists.
    fn create_exclusive(&mut self, bytes: &[u8]) -> (r: FacadeResult<ExclusiveCreate>)
        ensures
            (res_view(r), (*final(self)).state()) == Self::creating((*old(self)).state(), bytes@),
    ;

    /// Read the marker's bytes, or `None` when the run has never had one.
    fn read(&mut self) -> (r: FacadeResult<Option<Vec<u8>>>)
        ensures
            (
                match r {
                    Ok(found) => Ok(opt_view(found)),
                    Err(error) => Err(error@),
                },
                (*final(self)).state(),
            ) == Self::reading((*old(self)).state()),
    ;

    /// Replace an existing marker's bytes.
    fn overwrite(&mut self, bytes: &[u8]) -> (r: FacadeResult<()>)
        ensures
            (res_view(r), (*final(self)).state()) == Self::overwriting((*old(self)).state(), bytes@),
    ;

    /// Stake an exclusive claim on succeeding to `epoch`.
    ///
    /// Succession reads a released marker and writes a held one, which two
    /// contenders could both do. The claim is the serialisation point: whoever
    /// creates it wins. A claim is never deleted.
    fn claim_succession(&mut self, epoch: LeaseEpoch) -> (r: FacadeResult<ExclusiveCreate>)
        ensures
            (res_view(r), (*final(self)).state()) == Self::claiming((*old(self)).state(), epoch),
    ;
}

/// One store can back two sessions without either of them owning it.
impl<S: MarkerStore> MarkerStore for &mut S {
    type State = S::State;

    open spec fn state(&self) -> S::State {
        (**self).state()
    }

    open spec fn creating(state: S::State, bytes: Seq<u8>) -> (
        Result<ExclusiveCreate, FacadeErrorView>,
        S::State,
    ) {
        S::creating(state, bytes)
    }

    open spec fn reading(state: S::State) -> (
        Result<Option<Seq<u8>>, FacadeErrorView>,
        S::State,
    ) {
        S::reading(state)
    }

    open spec fn overwriting(state: S::State, bytes: Seq<u8>) -> (
        Result<(), FacadeErrorView>,
        S::State,
    ) {
        S::overwriting(state, bytes)
    }

    open spec fn claiming(state: S::State, epoch: LeaseEpoch) -> (
        Result<ExclusiveCreate, FacadeErrorView>,
        S::State,
    ) {
        S::claiming(state, epoch)
    }

    fn create_exclusive(&mut self, bytes: &[u8]) -> (r: FacadeResult<ExclusiveCreate>) {
        (**self).create_exclusive(bytes)
    }

    fn read(&mut self) -> (r: FacadeResult<Option<Vec<u8>>>) {
        (**self).read()
    }

    fn overwrite(&mut self, bytes: &[u8]) -> (r: FacadeResult<()>) {
        (**self).overwrite(bytes)
    }

    fn claim_succession(&mut self, epoch: LeaseEpoch) -> (r: FacadeResult<ExclusiveCreate>) {
        (**self).claim_succession(epoch)
    }
}

/// An in-memory [`MarkerStore`] whose contents survive the session that wrote
/// them.
///
/// Two sessions sharing one store are two sessions sharing one run's marker.
#[derive(Debug)]
pub struct MemoryMarkerStore {
    bytes: Option<Vec<u8>>,
    fail_next: Option<FacadeError>,
    claimed: Vec<u64>,
}

/// The content of a [`MemoryMarkerStore`].
pub struct MemoryView {
    /// The marker's bytes, where there are any.
    pub bytes: Option<Seq<u8>>,
    /// The failure the next call answers with, where one is due.
    pub fault: Option<FacadeErrorView>,
    /// The epochs some contender has staked a claim on.
    pub claimed: Set<u64>,
}

impl View for MemoryMarkerStore {
    type V = MemoryView;

    closed spec fn view(&self) -> MemoryView {
        MemoryView {
            bytes: opt_view(self.bytes),
            fault: opt_view(self.fail_next),
            claimed: self.claimed@.to_set(),
        }
    }
}

impl MemoryMarkerStore {
    /// An empty store: the run has no marker yet.
    pub fn empty() -> (r: Self)
        ensures
            r@ == (MemoryView { bytes: None, fault: None, claimed: Set::empty() }),
    {
        let r = MemoryMarkerStore { bytes: None, fail_next: None, claimed: Vec::new() };
        proof {
            assert(r@.claimed =~= Set::<u64>::empty());
        }
        r
    }

    /// A store already holding `bytes`, as a follow-on process would find them.
    pub fn holding(bytes: Vec<u8>) -> (r: Self)
        ensures
            r@ == (MemoryView { bytes: Some(bytes@), fault: None, claimed: Set::empty() }),
    {
        let r = MemoryMarkerStore { bytes: Some(bytes), fail_next: None, claimed: Vec::new() };
        proof {
            assert(r@.claimed =~= Set::<u64>::empty());
        }
        r
    }

    /// Fail the next store call with `error`, and behave normally afterwards.
    pub fn fail_next(&mut self, error: FacadeError)
        ensures
            final(self)@ == (MemoryView { fault: Some(error@), ..old(self)@ }),
    {
        self.fail_next = Some(error);
    }

    /// The bytes currently stored.
    pub fn bytes(&self) -> (r: Option<&[u8]>)
        ensures
            match r {
                Some(bytes) => self@.bytes == Some(bytes@),
                None => self@.bytes is None,
            },
    {
        match &self.bytes {
            Some(bytes) => Some(bytes.as_slice()),
            None => None,
        }
    }

    fn take_fault(&mut self) -> (r: FacadeResult<()>)
        ensures
            final(self)@ == (MemoryView { fault: None, ..old(self)@ }),
            match old(self)@.fault {
                Some(error) => r is Err && r->Err_0@ == error,
                None => r is Ok,
            },
    {
        match self.fail_next.take() {
            Some(error) => Err(error),
            None => Ok(()),
        }
    }

    fn is_claimed(&self, epoch: u64) -> (r: bool)
        ensures
            r == self@.claimed.contains(epoch),
    {
        let mut i: usize = 0;
        while i < self.claimed.len()
            invariant
                i <= self.claimed@.len(),
                forall|j: int| 0 <= j < i ==> self.claimed@[j] != epoch,
            decreases self.claimed@.len() - i,
        {
            if self.claimed[i] == epoch {
                return true;
            }
            i += 1;
        }
        false
    }
}

impl MarkerStore for MemoryMarkerStore {
    type State = MemoryView;

    open spec fn state(&self) -> MemoryView {
        self@
    }

    open spec fn creating(state: MemoryView, bytes: Seq<u8>) -> (
        Result<ExclusiveCreate, FacadeErrorView>,
        MemoryView,
    ) {
        let ready = MemoryView { fault: None, ..state };
        match state.fault {
            Some(error) => (Err(error), ready),
            None => if state.bytes is Some {
                (Ok(ExclusiveCreate::Exists), ready)
            } else {
                (Ok(ExclusiveCreate::Created), MemoryView { bytes: Some(bytes), ..ready })
            },
        }
    }

    open spec fn reading(state: MemoryView) -> (
        Result<Option<Seq<u8>>, FacadeErrorView>,
        MemoryView,
    ) {
        let ready = MemoryView { fault: None, ..state };
        match state.fault {
            Some(error) => (Err(error), ready),
            None => (Ok(state.bytes), ready),
        }
    }

    open spec fn overwriting(state: MemoryView, bytes: Seq<u8>) -> (
        Result<(), FacadeErrorView>,
        MemoryView,
    ) {
        let ready = MemoryView { fault: None, ..state };
        match state.fault {
            Some(error) => (Err(error), ready),
            None => (Ok(()), MemoryView { bytes: Some(bytes), ..ready }),
        }
    }

    open spec fn claiming(state: MemoryView, epoch: LeaseEpoch) -> (
        Result<ExclusiveCreate, FacadeErrorView>,
        MemoryView,
    ) {
        let ready = MemoryView { fault: None, ..state };
        match state.fault {
            Some(error) => (Err(error), ready),
            None => if state.claimed.contains(epoch.0) {
                (Ok(ExclusiveCreate::Exists), ready)
            } else {
                (
                    Ok(ExclusiveCreate::Created),
                    MemoryView { claimed: state.claimed.insert(epoch.0), ..ready },
                )
            },
        }
    }

    fn create_exclusive(&mut self, bytes: &[u8]) -> (r: FacadeResult<ExclusiveCreate>) {
        match self.take_fault() {
            Err(error) => {
                return Err(error);
            },
            Ok(()) => {},
        }
        if self.bytes.is_some() {
            return Ok(ExclusiveCreate::Exists);
        }
        self.bytes = Some(copy_bytes(bytes));
        Ok(ExclusiveCreate::Created)
    }

    fn read(&mut self) -> (r: FacadeResult<Option<Vec<u8>>>) {
        match self.take_fault() {
            Err(error) => {
                return Err(error);
            },
            Ok(()) => {},
        }
        Ok(
            match &self.bytes {
                Some(bytes) => Some(copy_bytes(bytes.as_slice())),
                None => None,
            },
        )
    }

    fn overwrite(&mut self, bytes: &[u8]) -> (r: FacadeResult<()>) {
        match self.take_fault() {
            Err(error) => {
                return Err(error);
            },
            Ok(()) => {},
        }
        self.bytes = Some(copy_bytes(bytes));
        Ok(())
    }

    fn claim_succession(&mut self, epoch: LeaseEpoch) -> (r: FacadeResult<ExclusiveCreate>) {
        match self.take_fault() {
            Err(error) => {
                return Err(error);
            },
            Ok(()) => {},
        }
        if self.is_claimed(epoch.0) {
            return Ok(ExclusiveCreate::Exists);
        }
        let ghost earlier = self.claimed@;
        self.claimed.push(epoch.0);
        proof {
            assert(self.claimed@.to_set() =~= earlier.to_set().insert(epoch.0)) by {
                assert forall|e: u64| self.claimed@.contains(e) == (earlier.contains(e) || e
                    == epoch.0) by {
                    assert(self.claimed@[earlier.len() as int] == epoch.0);
                    if earlier.contains(e) {
                        let i = choose|i: int| 0 <= i < earlier.len() && earlier[i] == e;
                        assert(self.claimed@[i] == e);
                    }
                }
            }
        }
        Ok(ExclusiveCreate::Created)
    }
}

/// Of all claims on one epoch in one store only the first is granted, and no other
/// call withdraws it.
pub proof fn a_succession_is_claimed_once(state: MemoryView, epoch: LeaseEpoch, bytes: Seq<u8>)
    requires
        state.claimed.contains(epoch.0),
    ensures
        MemoryMarkerStore::claiming(state, epoch).0 != Ok::<ExclusiveCreate, FacadeErrorView>(
            ExclusiveCreate::Created,
        ),
        MemoryMarkerStore::claiming(state, epoch).1.claimed.contains(epoch.0),
        MemoryMarkerStore::creating(state, bytes).1.claimed.contains(epoch.0),
        MemoryMarkerStore::reading(state).1.claimed.contains(epoch.0),
        MemoryMarkerStore::overwriting(state, bytes).1.claimed.contains(epoch.0),
{
}

/// A marker that exists is never created again, and no call takes it away.
pub proof fn a_marker_is_created_once(state: MemoryView, epoch: LeaseEpoch, bytes: Seq<u8>)
    requires
        state.bytes is Some,
    ensures
        MemoryMarkerStore::creating(state, bytes).0 != Ok::<ExclusiveCreate, FacadeErrorView>(
            ExclusiveCreate::Created,
        ),
        MemoryMarkerStore::creating(state, bytes).1.bytes == state.bytes,
        MemoryMarkerStore::reading(state).1.bytes == state.bytes,
        MemoryMarkerStore::overwriting(state, bytes).1.bytes is Some,
        MemoryMarkerStore::claiming(state, epoch).1.bytes == state.bytes,
{
}

} // verus!
