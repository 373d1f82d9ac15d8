//! Acquiring, denying and cooperatively releasing writer authority.
//!
//! A held marker denies every acquirer, the same token included: a restarted
//! process presenting its predecessor's token has proven only that it can read a
//! file. Nothing here reads a clock.
//!
//! The one legitimate transition is a release the previous owner recorded. It
//! advances the epoch by exactly one, and a claim on the next epoch decides which
//! of several contenders makes it.
//!
//! A release that lets uncertain old I/O overlap a new owner is worse than none,
//! so [`AdmissionControl::release`] demands [`OutstandingIo::Excluded`].
use vstd::prelude::*;

pub mod ladder;

use crate::contract::{
    hyphenated, opt_view, LeaseEpoch, RunId, TakeoverPolicy, WriterId,
};
use crate::error::{
    unproven, unproven_error, AuthorityError, AuthorityErrorView, FacadeError, FacadeErrorView,
};
use crate::text::{join3, tagged, tagged_text};

use super::marker::{
    a_marker_survives_its_encoding, decode_marker, marker_bytes, marker_error_text,
    AdmissionMarker, AdmissionMarkerView, AdmissionPhase, ExclusiveCreate, MarkerError,
    MarkerErrorView, MarkerStore, MemoryMarkerStore, MemoryView, WriterToken,
};

verus! {

/// What a session presents when asking for admission.
#[derive(Debug, PartialEq, Eq)]
pub struct AdmissionRequest {
    /// Who is asking.
    pub writer: WriterId,
    /// The token this session would record in the marker.
    pub token: WriterToken,
    /// The takeover policy. Only [`TakeoverPolicy::Refuse`] is supported; the
    /// others are answered, not ignored.
    pub takeover: TakeoverPolicy,
}

/// The content of an [`AdmissionRequest`].
pub struct AdmissionRequestView {
    /// Who is asking.
    pub writer: Seq<char>,
    /// The token this session would record in the marker.
    pub token: Seq<u8>,
    /// Whether a takeover is asked for.
    pub takeover: bool,
}

impl View for AdmissionRequest {
    type V = AdmissionRequestView;

    open spec fn view(&self) -> AdmissionRequestView {
        AdmissionRequestView {
            writer: self.writer@,
            token: self.token@,
            takeover: !(self.takeover is Refuse),
        }
    }
}

impl AdmissionRequest {
    /// A request that never asks for takeover, the only shape that is admitted.
    pub fn cooperative(writer: WriterId, token: WriterToken) -> (r: Self)
        ensures
            r.writer == writer,
            r.token == token,
            r.takeover is Refuse,
    {
        AdmissionRequest { writer, token, takeover: TakeoverPolicy::Refuse }
    }
}

/// Proof that this session holds admission for one run at one epoch.
///
/// Only this module makes one, so every value came from a marker this process
/// created or legitimately succeeded to.
#[derive(Debug, PartialEq, Eq)]
pub struct Admitted {
    run: RunId,
    writer: WriterId,
    token: WriterToken,
    epoch: LeaseEpoch,
}

/// The content of an [`Admitted`].
pub struct AdmittedView {
    /// The run this admission is scoped to.
    pub run: RunId,
    /// The admitted writer.
    pub writer: Seq<char>,
    /// The token recorded in the durable marker.
    pub token: Seq<u8>,
    /// The epoch this admission was granted at.
    pub epoch: LeaseEpoch,
}

impl View for Admitted {
    type V = AdmittedView;

    closed spec fn view(&self) -> AdmittedView {
        AdmittedView {
            run: self.run,
            writer: self.writer@,
            token: self.token@,
            epoch: self.epoch,
        }
    }
}

impl Admitted {
    /// The run this admission is scoped to.
    pub fn run(&self) -> (r: RunId)
        ensures
            r == self@.run,
    {
        self.run
    }

    /// The admitted writer.
    pub fn writer(&self) -> (r: &WriterId)
        ensures
            r@ == self@.writer,
    {
        &self.writer
    }

    /// The token recorded in the durable marker.
    pub fn token(&self) -> (r: WriterToken)
        ensures
            r@ == self@.token,
    {
        self.token
    }

    /// The epoch this admission was granted at.
    pub fn epoch(&self) -> (r: LeaseEpoch)
        ensures
            r == self@.epoch,
    {
        self.epoch
    }
}

/// What [`AdmissionControl::acquire`] settled.
#[derive(Debug)]
pub enum AdmissionOutcome {
    /// Admission granted. The marker durably records this session as the owner.
    Admitted(Admitted),
    /// Another session holds admission, or has claimed the succession to it. No
    /// takeover was attempted.
    Denied {
        /// The recorded owner, absent when only a token or a claim records it.
        holder: Option<WriterId>,
        /// The epoch that owner holds or claimed.
        holder_epoch: LeaseEpoch,
        /// The verbatim authority failure.
        error: FacadeError,
    },
    /// Admission could not be decided: unreadable evidence, a regressed epoch, a
    /// takeover request, or a store failure. Every case is a safe stop.
    Refused(FacadeError),
}

/// The content of an [`AdmissionOutcome`].
pub enum AdmissionOutcomeView {
    /// See [`AdmissionOutcome::Admitted`].
    Admitted(AdmittedView),
    /// See [`AdmissionOutcome::Denied`].
    Denied {
        /// The recorded owner.
        holder: Option<Seq<char>>,
        /// The epoch that owner holds or claimed.
        holder_epoch: LeaseEpoch,
        /// The verbatim authority failure.
        error: FacadeErrorView,
    },
    /// See [`AdmissionOutcome::Refused`].
    Refused(FacadeErrorView),
}

impl View for AdmissionOutcome {
    type V = AdmissionOutcomeView;

    open spec fn view(&self) -> AdmissionOutcomeView {
        match *self {
            AdmissionOutcome::Admitted(admitted) => AdmissionOutcomeView::Admitted(admitted@),
            AdmissionOutcome::Denied { holder, holder_epoch, error } => {
                AdmissionOutcomeView::Denied {
                    holder: opt_view(holder),
                    holder_epoch,
                    error: error@,
                }
            },
            AdmissionOutcome::Refused(error) => AdmissionOutcomeView::Refused(error@),
        }
    }
}

impl AdmissionOutcome {
    /// The proof, when admission was granted.
    pub fn admitted(self) -> (r: Option<Admitted>)
        ensures
            opt_view(r) == (match self@ {
                AdmissionOutcomeView::Admitted(admitted) => Some(admitted),
                _ => None,
            }),
    {
        match self {
            AdmissionOutcome::Admitted(admitted) => Some(admitted),
            _ => None,
        }
    }

    /// The verbatim failure, when this outcome carries one.
    pub fn error(&self) -> (r: Option<&FacadeError>)
        ensures
            match self@ {
                AdmissionOutcomeView::Admitted(_) => r is None,
                AdmissionOutcomeView::Denied { error, .. } => r is Some && r->0@ == error,
                AdmissionOutcomeView::Refused(error) => r is Some && r->0@ == error,
            },
    {
        match self {
            AdmissionOutcome::Admitted(_) => None,
            AdmissionOutcome::Denied { error, .. } => Some(error),
            AdmissionOutcome::Refused(error) => Some(error),
        }
    }
}

/// Whether old I/O can be ruled out at release time.
#[derive(Debug, PartialEq, Eq)]
pub enum OutstandingIo {
    /// Every call this session issued is proven withdrawn or settled.
    Excluded,
    /// Some call's disposition is unknown, so a new owner could overlap it.
    Unknown {
        /// What could not be ruled out, recorded verbatim.
        detail: String,
    },
}

/// What [`AdmissionControl::release`] settled.
#[derive(Debug)]
pub enum ReleaseOutcome {
    /// The marker durably records a cooperative release at this epoch.
    Released {
        /// The epoch the released ownership held.
        epoch: LeaseEpoch,
    },
    /// Release refused; this session still holds admission.
    Retained {
        /// The proof, handed back so the session can carry on or stop blocked.
        admitted: Box<Admitted>,
        /// The verbatim reason.
        error: FacadeError,
    },
}

/// The content of a [`ReleaseOutcome`].
pub enum ReleaseOutcomeView {
    /// See [`ReleaseOutcome::Released`].
    Released {
        /// The epoch the released ownership held.
        epoch: LeaseEpoch,
    },
    /// See [`ReleaseOutcome::Retained`].
    Retained {
        /// The proof.
        admitted: AdmittedView,
        /// The verbatim reason.
        error: FacadeErrorView,
    },
}

impl View for ReleaseOutcome {
    type V = ReleaseOutcomeView;

    open spec fn view(&self) -> ReleaseOutcomeView {
        match *self {
            ReleaseOutcome::Released { epoch } => ReleaseOutcomeView::Released { epoch },
            ReleaseOutcome::Retained { admitted, error } => ReleaseOutcomeView::Retained {
                admitted: admitted@,
                error: error@,
            },
        }
    }
}

/// Admission control over one run's durable marker.
///
/// The epoch ladder is kept here: an epoch that went backwards between two reads
/// means the durable evidence was rewritten underneath this process.
#[derive(Debug)]
pub struct AdmissionControl<S: MarkerStore> {
    store: S,
    run: RunId,
    highest_epoch_seen: LeaseEpoch,
}

/// The content of an [`AdmissionControl`].
pub struct ControlView<W> {
    /// The state of the store.
    pub store: W,
    /// The run.
    pub run: RunId,
    /// The highest epoch observed.
    pub highest: LeaseEpoch,
}

/// What reading and decoding the marker yields.
pub open spec fn inspected(read: Result<Option<Seq<u8>>, FacadeErrorView>) -> Result<
    Option<AdmissionMarkerView>,
    FacadeErrorView,
> {
    match read {
        Err(error) => Err(error),
        Ok(None) => Ok(None),
        Ok(Some(bytes)) => match decode_marker(bytes) {
            Err(error) => Err(unproven(marker_error_text(error))),
            Ok(marker) => Ok(Some(marker)),
        },
    }
}

/// The marker that records a session as the owner.
pub open spec fn ownership(request: AdmissionRequestView, epoch: LeaseEpoch) -> AdmissionMarkerView {
    AdmissionMarkerView {
        token: request.token,
        writer: Some(request.writer),
        epoch,
        phase: AdmissionPhase::Held,
        legacy: false,
    }
}

/// The proof of admission at `epoch`.
pub open spec fn grant(run: RunId, request: AdmissionRequestView, epoch: LeaseEpoch) -> AdmittedView {
    AdmittedView { run, writer: request.writer, token: request.token, epoch }
}

/// The denial a held marker answers with.
pub open spec fn held_by(run: RunId, existing: AdmissionMarkerView) -> AdmissionOutcomeView {
    AdmissionOutcomeView::Denied {
        holder: existing.writer,
        holder_epoch: existing.epoch,
        error: FacadeErrorView::Authority(
            AuthorityErrorView::AdmissionRefused(
                "run "@ + hyphenated(run.0@) + " is held by "@ + (match existing.writer {
                    Some(id) => id,
                    None => "an unnamed legacy writer"@,
                }) + " at "@ + tagged("LeaseEpoch"@, existing.epoch.0 as nat)
                    + "; a held marker is never taken over on a timeout"@,
            ),
        ),
    }
}

/// The denial of a contender that lost the race to succeed.
pub open spec fn outrun(run: RunId, epoch: LeaseEpoch) -> AdmissionOutcomeView {
    AdmissionOutcomeView::Denied {
        holder: None,
        holder_epoch: epoch,
        error: FacadeErrorView::Authority(
            AuthorityErrorView::AdmissionRefused(
                "run "@ + hyphenated(run.0@) + " is being succeeded to at "@ + tagged(
                    "LeaseEpoch"@,
                    epoch.0 as nat,
                ) + " by another session, which claimed that epoch first"@,
            ),
        ),
    }
}

/// Succeed to a released marker: claim the next epoch, and record the ownership.
pub open spec fn succeed_run<S: MarkerStore>(
    control: ControlView<S::State>,
    request: AdmissionRequestView,
    existing: AdmissionMarkerView,
) -> (AdmissionOutcomeView, ControlView<S::State>) {
    if existing.epoch.0 == u64::MAX {
        (
            AdmissionOutcomeView::Refused(
                unproven("admission epoch would overflow; refusing rather than wrapping"@),
            ),
            control,
        )
    } else {
        let epoch = LeaseEpoch((existing.epoch.0 + 1) as u64);
        match marker_bytes(ownership(request, epoch)) {
            Err(error) => (
                AdmissionOutcomeView::Refused(unproven(marker_error_text(error))),
                control,
            ),
            Ok(bytes) => {
                let (claim, staked) = S::claiming(control.store, epoch);
                match claim {
                    Err(error) => (
                        AdmissionOutcomeView::Refused(error),
                        ControlView { store: staked, ..control },
                    ),
                    Ok(ExclusiveCreate::Exists) => (
                        outrun(control.run, epoch),
                        ControlView { store: staked, ..control },
                    ),
                    Ok(ExclusiveCreate::Created) => {
                        let (written, after) = S::overwriting(staked, bytes);
                        match written {
                            Err(error) => (
                                AdmissionOutcomeView::Refused(error),
                                ControlView { store: after, ..control },
                            ),
                            Ok(()) => (
                                AdmissionOutcomeView::Admitted(
                                    grant(control.run, request, epoch),
                                ),
                                ControlView { store: after, highest: epoch, ..control },
                            ),
                        }
                    },
                }
            },
        }
    }
}

/// Decide admission over a marker that exists.
pub open spec fn contend_run<S: MarkerStore>(
    control: ControlView<S::State>,
    request: AdmissionRequestView,
) -> (AdmissionOutcomeView, ControlView<S::State>) {
    let (read, seen) = S::reading(control.store);
    let looked = ControlView { store: seen, ..control };
    match inspected(read) {
        Err(error) => (AdmissionOutcomeView::Refused(error), looked),
        Ok(None) => (
            AdmissionOutcomeView::Refused(
                unproven("marker existed for the exclusive create and was absent on read"@),
            ),
            looked,
        ),
        Ok(Some(existing)) => if existing.epoch.0 < control.highest.0 {
            (
                AdmissionOutcomeView::Refused(
                    unproven(
                        marker_error_text(
                            MarkerErrorView::EpochRegressed {
                                seen: control.highest,
                                observed: existing.epoch,
                            },
                        ),
                    ),
                ),
                looked,
            )
        } else {
            let climbed = ControlView { highest: existing.epoch, ..looked };
            match existing.phase {
                AdmissionPhase::Held => (held_by(control.run, existing), climbed),
                AdmissionPhase::Released => succeed_run::<S>(climbed, request, existing),
            }
        },
    }
}

/// Ask for admission.
pub open spec fn acquire_run<S: MarkerStore>(
    control: ControlView<S::State>,
    request: AdmissionRequestView,
) -> (AdmissionOutcomeView, ControlView<S::State>) {
    if request.takeover {
        (
            AdmissionOutcomeView::Refused(
                FacadeErrorView::Authority(AuthorityErrorView::TakeoverRefused),
            ),
            control,
        )
    } else {
        match marker_bytes(ownership(request, LeaseEpoch(1))) {
            Err(error) => (
                AdmissionOutcomeView::Refused(unproven(marker_error_text(error))),
                control,
            ),
            Ok(bytes) => {
                let (created, after) = S::creating(control.store, bytes);
                let tried = ControlView { store: after, ..control };
                match created {
                    Err(error) => (AdmissionOutcomeView::Refused(error), tried),
                    Ok(ExclusiveCreate::Created) => (
                        AdmissionOutcomeView::Admitted(
                            grant(control.run, request, LeaseEpoch(1)),
                        ),
                        ControlView { highest: LeaseEpoch(1), ..tried },
                    ),
                    Ok(ExclusiveCreate::Exists) => contend_run::<S>(tried, request),
                }
            },
        }
    }
}

/// Release admission. It is withheld while old I/O cannot be excluded.
pub open spec fn release_run<S: MarkerStore>(
    control: ControlView<S::State>,
    admitted: AdmittedView,
    outstanding: Option<Seq<char>>,
) -> (ReleaseOutcomeView, ControlView<S::State>) {
    match outstanding {
        Some(detail) => (
            ReleaseOutcomeView::Retained {
                admitted,
                error: FacadeErrorView::Authority(
                    AuthorityErrorView::AdmissionRefused(
                        "release withheld: outstanding I/O could not be excluded ("@ + detail
                            + ")"@,
                    ),
                ),
            },
            control,
        ),
        None => match marker_bytes(
            AdmissionMarkerView {
                token: admitted.token,
                writer: Some(admitted.writer),
                epoch: admitted.epoch,
                phase: AdmissionPhase::Released,
                legacy: false,
            },
        ) {
            Err(error) => (
                ReleaseOutcomeView::Retained {
                    admitted,
                    error: unproven(marker_error_text(error)),
                },
                control,
            ),
            Ok(bytes) => {
                let (written, after) = S::overwriting(control.store, bytes);
                (
                    match written {
                        Ok(()) => ReleaseOutcomeView::Released { epoch: admitted.epoch },
                        Err(error) => ReleaseOutcomeView::Retained { admitted, error },
                    },
                    ControlView { store: after, ..control },
                )
            },
        },
    }
}

/// What could not be ruled out at release time.
pub open spec fn doubt(outstanding: OutstandingIo) -> Option<Seq<char>> {
    match outstanding {
        OutstandingIo::Excluded => None,
        OutstandingIo::Unknown { detail } => Some(detail@),
    }
}

impl<S: MarkerStore> AdmissionControl<S> {
    /// What this control holds.
    pub closed spec fn content(&self) -> ControlView<S::State> {
        ControlView {
            store: self.store.state(),
            run: self.run,
            highest: self.highest_epoch_seen,
        }
    }

    /// Admission control for `run` over `store`.
    pub fn new(run: RunId, store: S) -> (r: Self)
        ensures
            r.content() == (ControlView {
                store: store.state(),
                run,
                highest: LeaseEpoch(0),
            }),
    {
        AdmissionControl { store, run, highest_epoch_seen: LeaseEpoch(0) }
    }

    /// The highest epoch this control has ever observed in the marker.
    pub fn highest_epoch_seen(&self) -> (r: LeaseEpoch)
        ensures
            r == self.content().highest,
    {
        self.highest_epoch_seen
    }

    /// The underlying store, for a caller inspecting durable evidence.
    pub fn store(&self) -> (r: &S)
        ensures
            (*r).state() == self.content().store,
    {
        &self.store
    }

    /// The underlying store, mutably.
    pub fn store_mut(&mut self) -> (r: &mut S)
        ensures
            (*r).state() == old(self).content().store,
            final(self).content() == (ControlView {
                store: (*final(r)).state(),
                ..old(self).content()
            }),
    {
        &mut self.store
    }

    /// Read the marker as it currently stands, without changing it.
    pub fn inspect(&mut self) -> (r: Result<Option<AdmissionMarker>, FacadeError>)
        ensures
            ({
                let (read, after) = S::reading(old(self).content().store);
                &&& final(self).content() == (ControlView {
                    store: after,
                    ..old(self).content()
                })
                &&& (match r {
                    Ok(found) => Ok(opt_view(found)),
                    Err(error) => Err(error@),
                }) == inspected(read)
            }),
    {
        match self.store.read() {
            Err(error) => Err(error),
            Ok(None) => Ok(None),
            Ok(Some(bytes)) => match AdmissionMarker::decode(bytes.as_slice()) {
                Ok(marker) => Ok(Some(marker)),
                Err(error) => Err(error.to_facade()),
            },
        }
    }

    /// Ask for admission.
    ///
    /// No clock is consulted. The only way to be admitted over an existing marker
    /// is for that marker to record a release the previous owner performed, and
    /// for this session to be the one that claims the next epoch.
    pub fn acquire(&mut self, request: &AdmissionRequest) -> (r: AdmissionOutcome)
        ensures
            (r@, final(self).content()) == acquire_run::<S>(old(self).content(), request@),
    {
        match &request.takeover {
            TakeoverPolicy::Refuse => {},
            // Opaque bytes are no proof of termination, and nothing here can fence.
            _ => {
                return AdmissionOutcome::Refused(
                    FacadeError::Authority(AuthorityError::TakeoverRefused),
                );
            },
        }
        let fresh = AdmissionMarker::new(
            request.token,
            request.writer.clone(),
            LeaseEpoch(1),
            AdmissionPhase::Held,
        );
        let encoded = match fresh.encode() {
            Ok(bytes) => bytes,
            Err(error) => {
                return AdmissionOutcome::Refused(error.to_facade());
            },
        };
        match self.store.create_exclusive(encoded.as_slice()) {
            Err(error) => AdmissionOutcome::Refused(error),
            Ok(ExclusiveCreate::Created) => {
                self.highest_epoch_seen = LeaseEpoch(1);
                AdmissionOutcome::Admitted(
                    Admitted {
                        run: self.run,
                        writer: request.writer.clone(),
                        token: request.token,
                        epoch: LeaseEpoch(1),
                    },
                )
            },
            Ok(ExclusiveCreate::Exists) => self.contend(request),
        }
    }

    fn contend(&mut self, request: &AdmissionRequest) -> (r: AdmissionOutcome)
        ensures
            (r@, final(self).content()) == contend_run::<S>(old(self).content(), request@),
    {
        let existing = match self.inspect() {
            Err(error) => {
                return AdmissionOutcome::Refused(error);
            },
            // The create said the name exists, so finding nothing is a
            // contradiction, not an invitation to retry the create.
            Ok(None) => {
                return AdmissionOutcome::Refused(
                    unproven_error(
                        "marker existed for the exclusive create and was absent on read",
                    ),
                );
            },
            Ok(Some(marker)) => marker,
        };
        if existing.epoch().0 < self.highest_epoch_seen.0 {
            return AdmissionOutcome::Refused(
                MarkerError::EpochRegressed {
                    seen: self.highest_epoch_seen,
                    observed: existing.epoch(),
                }.to_facade(),
            );
        }
        self.highest_epoch_seen = existing.epoch();
        match existing.phase() {
            AdmissionPhase::Held => {
                let holder = match existing.writer() {
                    Some(id) => Some(id.clone()),
                    None => None,
                };
                let named = match existing.writer() {
                    Some(id) => id.0.clone(),
                    None => "an unnamed legacy writer".to_owned(),
                };
                AdmissionOutcome::Denied {
                    holder,
                    holder_epoch: existing.epoch(),
                    error: FacadeError::Authority(
                        AuthorityError::AdmissionRefused(
                            join3("run ", self.run.text().as_str(), " is held by ").concat(
                                named.as_str(),
                            ).concat(" at ").concat(
                                tagged_text("LeaseEpoch", existing.epoch().0).as_str(),
                            ).concat("; a held marker is never taken over on a timeout"),
                        ),
                    ),
                }
            },
            AdmissionPhase::Released => self.succeed(request, &existing),
        }
    }

    fn succeed(&mut self, request: &AdmissionRequest, existing: &AdmissionMarker) -> (r:
        AdmissionOutcome)
        ensures
            (r@, final(self).content()) == succeed_run::<S>(
                old(self).content(),
                request@,
                existing@,
            ),
    {
        if existing.epoch().0 == u64::MAX {
            return AdmissionOutcome::Refused(
                unproven_error("admission epoch would overflow; refusing rather than wrapping"),
            );
        }
        let epoch = LeaseEpoch(existing.epoch().0 + 1);
        let claimed = AdmissionMarker::new(
            request.token,
            request.writer.clone(),
            epoch,
            AdmissionPhase::Held,
        );
        let encoded = match claimed.encode() {
            Ok(bytes) => bytes,
            Err(error) => {
                return AdmissionOutcome::Refused(error.to_facade());
            },
        };
        match self.store.claim_succession(epoch) {
            Err(error) => {
                return AdmissionOutcome::Refused(error);
            },
            Ok(ExclusiveCreate::Exists) => {
                return AdmissionOutcome::Denied {
                    holder: None,
                    holder_epoch: epoch,
                    error: FacadeError::Authority(
                        AuthorityError::AdmissionRefused(
                            join3(
                                "run ",
                                self.run.text().as_str(),
                                " is being succeeded to at ",
                            ).concat(tagged_text("LeaseEpoch", epoch.0).as_str()).concat(
                                " by another session, which claimed that epoch first",
                            ),
                        ),
                    ),
                };
            },
            Ok(ExclusiveCreate::Created) => {},
        }
        match self.store.overwrite(encoded.as_slice()) {
            Err(error) => {
                return AdmissionOutcome::Refused(error);
            },
            Ok(()) => {},
        }
        self.highest_epoch_seen = epoch;
        AdmissionOutcome::Admitted(
            Admitted {
                run: self.run,
                writer: request.writer.clone(),
                token: request.token,
                epoch,
            },
        )
    }

    /// Release admission cooperatively on a graceful shutdown.
    ///
    /// Consumes the proof: after a successful release this session has no value
    /// that could authorise a further mutation.
    pub fn release(&mut self, admitted: Admitted, outstanding: OutstandingIo) -> (r:
        ReleaseOutcome)
        ensures
            (r@, final(self).content()) == release_run::<S>(
                old(self).content(),
                admitted@,
                doubt(outstanding),
            ),
    {
        if let OutstandingIo::Unknown { detail } = &outstanding {
            return ReleaseOutcome::Retained {
                error: FacadeError::Authority(
                    AuthorityError::AdmissionRefused(
                        join3(
                            "release withheld: outstanding I/O could not be excluded (",
                            detail.as_str(),
                            ")",
                        ),
                    ),
                ),
                admitted: Box::new(admitted),
            };
        }
        let released = AdmissionMarker::new(
            admitted.token,
            admitted.writer.clone(),
            admitted.epoch,
            AdmissionPhase::Released,
        );
        let encoded = match released.encode() {
            Ok(bytes) => bytes,
            Err(error) => {
                return ReleaseOutcome::Retained {
                    admitted: Box::new(admitted),
                    error: error.to_facade(),
                };
            },
        };
        match self.store.overwrite(encoded.as_slice()) {
            Ok(()) => ReleaseOutcome::Released { epoch: admitted.epoch },
            Err(error) => ReleaseOutcome::Retained { admitted: Box::new(admitted), error },
        }
    }

    /// Refuse a takeover. Always.
    pub fn takeover(&self) -> (r: FacadeError)
        ensures
            r@ == FacadeErrorView::Authority(AuthorityErrorView::TakeoverRefused),
    {
        FacadeError::Authority(AuthorityError::TakeoverRefused)
    }
}

/// A held marker admits nobody, whoever asks, with whichever token, at any time.
pub proof fn a_held_marker_admits_nobody<S: MarkerStore>(
    control: ControlView<S::State>,
    request: AdmissionRequestView,
)
    requires
        inspected(S::reading(control.store).0) matches Ok(Some(existing)) && existing.phase
            == AdmissionPhase::Held,
    ensures
        !(contend_run::<S>(control, request).0 is Admitted),
{
}

/// A takeover is always refused, and touches nothing.
pub proof fn a_takeover_is_refused<S: MarkerStore>(
    control: ControlView<S::State>,
    request: AdmissionRequestView,
)
    requires
        request.takeover,
    ensures
        acquire_run::<S>(control, request) == (
            AdmissionOutcomeView::Refused(
                FacadeErrorView::Authority(AuthorityErrorView::TakeoverRefused),
            ),
            control,
        ),
{
}

/// Whoever is admitted over an existing marker found it released, claimed the next
/// epoch before anyone else, and is admitted at exactly that epoch.
pub proof fn a_succession_follows_a_release_and_a_claim<S: MarkerStore>(
    control: ControlView<S::State>,
    request: AdmissionRequestView,
)
    ensures
        contend_run::<S>(control, request).0 matches AdmissionOutcomeView::Admitted(admitted)
            ==> {
            let (read, seen) = S::reading(control.store);
            &&& inspected(read) matches Ok(Some(existing)) && existing.phase
                == AdmissionPhase::Released && admitted.epoch.0 == existing.epoch.0 + 1
            &&& S::claiming(seen, admitted.epoch).0 == Ok::<ExclusiveCreate, FacadeErrorView>(
                ExclusiveCreate::Created,
            )
            &&& admitted.run == control.run
        },
{
}

/// The ladder of epochs a control has observed never goes down while admission is
/// contended.
pub proof fn the_epoch_ladder_never_goes_down<S: MarkerStore>(
    control: ControlView<S::State>,
    request: AdmissionRequestView,
)
    ensures
        contend_run::<S>(control, request).1.highest.0 >= control.highest.0,
{
}

/// Once a session is admitted over a store, nobody else is: whoever asks there next,
/// through whichever control and whatever fails in between, is not admitted, and the
/// marker stands as the admitted session wrote it.
pub proof fn an_admission_excludes_every_other(
    control: ControlView<MemoryView>,
    request: AdmissionRequestView,
    rival: ControlView<MemoryView>,
    late: AdmissionRequestView,
)
    requires
        request.token.len() == 16,
        rival.store == (MemoryView {
            fault: rival.store.fault,
            ..acquire_run::<MemoryMarkerStore>(control, request).1.store
        }),
    ensures
        acquire_run::<MemoryMarkerStore>(control, request).0 is Admitted ==> {
            let (outcome, after) = acquire_run::<MemoryMarkerStore>(rival, late);
            &&& !(outcome is Admitted)
            &&& after.store.bytes == rival.store.bytes
            &&& after.store.claimed == rival.store.claimed
        },
{
    let (first, held) = acquire_run::<MemoryMarkerStore>(control, request);
    if let AdmissionOutcomeView::Admitted(admitted) = first {
        a_marker_survives_its_encoding(ownership(request, admitted.epoch));
    }
}

/// A marker that records a release admits the next session at the next epoch
/// wherever the claim and the write succeed.
pub proof fn a_release_admits_the_next_session<S: MarkerStore>(
    control: ControlView<S::State>,
    request: AdmissionRequestView,
    existing: AdmissionMarkerView,
)
    requires
        existing.phase == AdmissionPhase::Released,
        existing.epoch.0 < u64::MAX,
        control.highest.0 <= existing.epoch.0,
        inspected(S::reading(control.store).0) == Ok::<
            Option<AdmissionMarkerView>,
            FacadeErrorView,
        >(Some(existing)),
        marker_bytes(ownership(request, LeaseEpoch((existing.epoch.0 + 1) as u64))) is Ok,
        S::claiming(
            S::reading(control.store).1,
            LeaseEpoch((existing.epoch.0 + 1) as u64),
        ).0 == Ok::<ExclusiveCreate, FacadeErrorView>(ExclusiveCreate::Created),
        S::overwriting(
            S::claiming(
                S::reading(control.store).1,
                LeaseEpoch((existing.epoch.0 + 1) as u64),
            ).1,
            marker_bytes(ownership(request, LeaseEpoch((existing.epoch.0 + 1) as u64)))->Ok_0,
        ).0 is Ok,
    ensures
        contend_run::<S>(control, request).0 == AdmissionOutcomeView::Admitted(
            grant(control.run, request, LeaseEpoch((existing.epoch.0 + 1) as u64)),
        ),
{
}

/// A withheld release writes nothing: the marker still reads as held.
pub proof fn a_withheld_release_writes_nothing<S: MarkerStore>(
    control: ControlView<S::State>,
    admitted: AdmittedView,
    detail: Seq<char>,
)
    ensures
        release_run::<S>(control, admitted, Some(detail)).0 is Retained,
        release_run::<S>(control, admitted, Some(detail)).1 == control,
{
}

/// A released marker reads back as the owner's, at its own epoch, released.
pub proof fn a_recorded_release_reads_back(admitted: AdmittedView)
    requires
        admitted.token.len() == 16,
    ensures
        ({
            let released = AdmissionMarkerView {
                token: admitted.token,
                writer: Some(admitted.writer),
                epoch: admitted.epoch,
                phase: AdmissionPhase::Released,
                legacy: false,
            };
            marker_bytes(released) matches Ok(bytes) ==> inspected(Ok(Some(bytes))) == Ok::<
                Option<AdmissionMarkerView>,
                FacadeErrorView,
            >(Some(released))
        }),
{
    a_marker_survives_its_encoding(
        AdmissionMarkerView {
            token: admitted.token,
            writer: Some(admitted.writer),
            epoch: admitted.epoch,
            phase: AdmissionPhase::Released,
            legacy: false,
        },
    );
}

} // verus!
