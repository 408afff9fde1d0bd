use vstd::prelude::*;

use crate::codec::{decode_spec, DecodeError};
use crate::event::{kind_of, ClickEvent, EventKind, NavigationEvent};
use crate::navigation::{dispatch_outcome, DispatchOutcome};
use crate::payload::{number_field, Payload};

verus! {

/// A payload that decodes as an event of `kind`, delivered to a bound control
/// whose listener is free, reaches the listener as exactly that event, which
/// is of `kind`.
pub proof fn lemma_valid_payload_is_delivered(state: Map<nat, bool>, id: nat, kind: EventKind, p: Payload)
    requires
        state.dom().contains(id),
        !state[id],
        decode_spec(kind, p) is Ok,
    ensures
        dispatch_outcome(state, id, decode_spec(kind, p)) == DispatchOutcome::Delivered(
            decode_spec(kind, p)->Ok_0,
        ),
        kind_of(decode_spec(kind, p)->Ok_0) == kind,
{
    match kind {
        EventKind::Click => {},
    }
}

/// Right after a control is bound, a payload that decodes as an event of
/// `kind` reaches its listener as exactly that event.
pub proof fn lemma_fresh_binding_receives_valid_payload(
    before: Map<nat, bool>,
    id: nat,
    kind: EventKind,
    p: Payload,
)
    requires
        !before.dom().contains(id),
        decode_spec(kind, p) is Ok,
    ensures
        dispatch_outcome(before.insert(id, false), id, decode_spec(kind, p))
            == DispatchOutcome::Delivered(decode_spec(kind, p)->Ok_0),
{
    lemma_valid_payload_is_delivered(before.insert(id, false), id, kind, p);
}

/// An object payload with numbers under `x` and `y` decodes as the click at
/// that position.
pub proof fn lemma_click_payload_decodes(p: Payload)
    requires
        number_field(p, "x"@) is Some,
        number_field(p, "y"@) is Some,
    ensures
        decode_spec(EventKind::Click, p) == Ok::<NavigationEvent, DecodeError>(
            NavigationEvent::Click(
                ClickEvent { x: number_field(p, "x"@)->0, y: number_field(p, "y"@)->0 },
            ),
        ),
{
}

/// A payload that does not decode never reaches the listener; when the
/// control is bound, the decode error is the outcome.
pub proof fn lemma_malformed_payload_is_not_delivered(
    state: Map<nat, bool>,
    id: nat,
    kind: EventKind,
    p: Payload,
)
    requires
        decode_spec(kind, p) is Err,
    ensures
        !(dispatch_outcome(state, id, decode_spec(kind, p)) is Delivered),
        state.dom().contains(id) ==> dispatch_outcome(state, id, decode_spec(kind, p))
            == DispatchOutcome::DecodeFailed(decode_spec(kind, p)->Err_0),
{
}

/// While a callback of a control's listener runs, a further delivery to that
/// control is refused as busy and does not reach the listener.
pub proof fn lemma_reentrant_delivery_is_busy(
    state: Map<nat, bool>,
    id: nat,
    decoded: Result<NavigationEvent, DecodeError>,
)
    requires
        state.dom().contains(id),
        state[id],
        decoded is Ok,
    ensures
        dispatch_outcome(state, id, decoded) == DispatchOutcome::Busy,
{
}

/// After a control is released, every delivery to it finds it gone, whatever
/// the payload.
pub proof fn lemma_released_control_is_gone(
    state: Map<nat, bool>,
    id: nat,
    decoded: Result<NavigationEvent, DecodeError>,
)
    ensures
        dispatch_outcome(state.remove(id), id, decoded) == DispatchOutcome::FacadeGone,
{
}

/// Two controls bound one after the other are distinct, start with free
/// listeners, and share no dispatch state: what happens to one's listener,
/// busy or released, does not change the outcome of a delivery to the other.
pub proof fn lemma_two_bindings_are_independent(s0: Map<nat, bool>, a: nat, b: nat)
    requires
        !s0.dom().contains(a),
        !s0.insert(a, false).dom().contains(b),
    ensures
        a != b,
        !s0.insert(a, false).insert(b, false)[a],
        !s0.insert(a, false).insert(b, false)[b],
        forall|busy: bool, d: Result<NavigationEvent, DecodeError>|
            #[trigger] dispatch_outcome(s0.insert(a, false).insert(b, false).insert(a, busy), b, d)
                == dispatch_outcome(s0.insert(a, false).insert(b, false), b, d),
        forall|busy: bool, d: Result<NavigationEvent, DecodeError>|
            #[trigger] dispatch_outcome(s0.insert(a, false).insert(b, false).insert(b, busy), a, d)
                == dispatch_outcome(s0.insert(a, false).insert(b, false), a, d),
        forall|d: Result<NavigationEvent, DecodeError>|
            dispatch_outcome(s0.insert(a, false).insert(b, false).remove(a), b, d)
                == #[trigger] dispatch_outcome(s0.insert(a, false).insert(b, false), b, d),
        forall|d: Result<NavigationEvent, DecodeError>|
            dispatch_outcome(s0.insert(a, false).insert(b, false).remove(b), a, d)
                == #[trigger] dispatch_outcome(s0.insert(a, false).insert(b, false), a, d),
{
    let s2 = s0.insert(a, false).insert(b, false);
    assert forall|busy: bool, d: Result<NavigationEvent, DecodeError>|
        #[trigger] dispatch_outcome(s2.insert(a, busy), b, d) == dispatch_outcome(s2, b, d) by {
        assert(s2.insert(a, busy).dom().contains(b));
    }
    assert forall|busy: bool, d: Result<NavigationEvent, DecodeError>|
        #[trigger] dispatch_outcome(s2.insert(b, busy), a, d) == dispatch_outcome(s2, a, d) by {
        assert(s2.insert(b, busy).dom().contains(a));
    }
}

} // verus!
