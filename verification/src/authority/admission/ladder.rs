//! Who is admitted to a run, and at which epoch.
use vstd::prelude::*;

use crate::authority::marker::{
    a_marker_survives_its_encoding, decode_marker, AdmissionMarkerView, AdmissionPhase,
    MemoryMarkerStore, MemoryView, MAX_WRITER_ID_BYTES,
};
use crate::contract::LeaseEpoch;

use super::{
    acquire_run, ownership, release_run, AdmissionOutcomeView, AdmissionRequestView, AdmittedView,
    ControlView, ReleaseOutcomeView,
};

verus! {

/// The marker a store holds, where it holds one that can be read.
pub open spec fn held_marker(store: MemoryView) -> Option<AdmissionMarkerView> {
    match store.bytes {
        None => None,
        Some(bytes) => match decode_marker(bytes) {
            Ok(marker) => Some(marker),
            Err(_) => None,
        },
    }
}

/// Whether a store records that `writer` with `token` is, or was, admitted at `epoch`.
pub open spec fn records(
    store: MemoryView,
    writer: Seq<char>,
    token: Seq<u8>,
    epoch: LeaseEpoch,
    phase: AdmissionPhase,
) -> bool {
    held_marker(store) matches Some(marker) && marker.writer == Some(writer) && marker.token
        == token && marker.epoch == epoch && marker.phase == phase && !marker.legacy
}

/// Whether a writer's name fits in a marker.
pub open spec fn can_be_recorded(writer: Seq<char>) -> bool {
    vstd::utf8::encode_utf8(writer).len() <= MAX_WRITER_ID_BYTES
}

/// Whether the marker of a store lets the next session in: it was released, no later
/// epoch was seen, and nobody has claimed the epoch after it.
pub open spec fn lets_the_next_in(control: ControlView<MemoryView>) -> bool {
    held_marker(control.store) matches Some(marker) && marker.phase == AdmissionPhase::Released
        && control.highest.0 <= marker.epoch.0 < u64::MAX && !control.store.claimed.contains(
        (marker.epoch.0 + 1) as u64,
    )
}

/// A session that does not ask for a takeover, under a name that can be recorded, is
/// admitted exactly where the run has no marker or one that lets the next session in: at
/// the first epoch, or at the one after the release. The store then records it as the
/// holder. Where it is not admitted, the marker stays as it was.
pub proof fn a_session_is_admitted_exactly_when(
    control: ControlView<MemoryView>,
    request: AdmissionRequestView,
)
    requires
        control.store.fault is None,
        request.token.len() == 16,
    ensures
        ({
            let (outcome, after) = acquire_run::<MemoryMarkerStore>(control, request);
            &&& outcome is Admitted <==> !request.takeover && can_be_recorded(request.writer) && (
            control.store.bytes is None || lets_the_next_in(control))
            &&& outcome matches AdmissionOutcomeView::Admitted(admitted) ==> {
                &&& admitted.run == control.run
                &&& admitted.writer == request.writer
                &&& admitted.token == request.token
                &&& admitted.epoch.0 == (match held_marker(control.store) {
                    None => 1,
                    Some(marker) => marker.epoch.0 + 1,
                })
                &&& records(
                    after.store,
                    request.writer,
                    request.token,
                    admitted.epoch,
                    AdmissionPhase::Held,
                )
                &&& after.highest == admitted.epoch
                &&& after.store.fault is None
                &&& forall|epoch: u64| #[trigger]
                    after.store.claimed.contains(epoch) ==> control.store.claimed.contains(epoch)
                        || epoch == admitted.epoch.0
            }
            &&& !(outcome is Admitted) ==> after.store.bytes == control.store.bytes
            &&& after.run == control.run
        }),
{
    a_marker_survives_its_encoding(ownership(request, LeaseEpoch(1)));
    if let Some(marker) = held_marker(control.store) {
        if marker.epoch.0 < u64::MAX {
            a_marker_survives_its_encoding(
                ownership(request, LeaseEpoch((marker.epoch.0 + 1) as u64)),
            );
        }
    }
}

/// A release succeeds exactly where no old I/O is in doubt, and leaves the marker with
/// the same writer, token and epoch, released; where it is withheld, nothing is written.
pub proof fn an_admission_is_released_exactly_when(
    control: ControlView<MemoryView>,
    admitted: AdmittedView,
    doubt: Option<Seq<char>>,
)
    requires
        control.store.fault is None,
        admitted.token.len() == 16,
        can_be_recorded(admitted.writer),
    ensures
        ({
            let (outcome, after) = release_run::<MemoryMarkerStore>(control, admitted, doubt);
            &&& outcome is Released <==> doubt is None
            &&& outcome matches ReleaseOutcomeView::Released { epoch } ==> {
                &&& epoch == admitted.epoch
                &&& records(
                    after.store,
                    admitted.writer,
                    admitted.token,
                    admitted.epoch,
                    AdmissionPhase::Released,
                )
                &&& after.highest == control.highest
                &&& after.run == control.run
                &&& after.store.claimed == control.store.claimed
                &&& after.store.fault is None
            }
            &&& outcome is Retained ==> after == control
        }),
{
    a_marker_survives_its_encoding(
        AdmissionMarkerView {
            token: admitted.token,
            writer: Some(admitted.writer),
            epoch: admitted.epoch,
            phase: AdmissionPhase::Released,
            legacy: false,
        },
    );
}

/// Sessions follow one another: once the session that was admitted has released, the
/// next one is admitted, at the very next epoch, unless that epoch was claimed before.
pub proof fn sessions_follow_one_another(
    control: ControlView<MemoryView>,
    first: AdmissionRequestView,
    second: AdmissionRequestView,
)
    requires
        control.store.fault is None,
        first.token.len() == 16,
        second.token.len() == 16,
        !second.takeover,
        can_be_recorded(second.writer),
    ensures
        ({
            let (outcome, held) = acquire_run::<MemoryMarkerStore>(control, first);
            outcome matches AdmissionOutcomeView::Admitted(admitted) ==> {
                let (_, released) = release_run::<MemoryMarkerStore>(held, admitted, None);
                let (next, _) = acquire_run::<MemoryMarkerStore>(released, second);
                admitted.epoch.0 < u64::MAX && !control.store.claimed.contains(
                    (admitted.epoch.0 + 1) as u64,
                ) ==> (next matches AdmissionOutcomeView::Admitted(granted) && granted.epoch.0
                    == admitted.epoch.0 + 1 && granted.writer == second.writer && granted.token
                    == second.token && granted.run == control.run)
            }
        }),
{
    let (outcome, held) = acquire_run::<MemoryMarkerStore>(control, first);
    a_session_is_admitted_exactly_when(control, first);
    if let AdmissionOutcomeView::Admitted(admitted) = outcome {
        an_admission_is_released_exactly_when(held, admitted, None);
        let (_, released) = release_run::<MemoryMarkerStore>(held, admitted, None);
        a_session_is_admitted_exactly_when(released, second);
    }
}

} // verus!
