//! The single-flight laws of the reducer.
//!
//! A component and its transport form a small system: dispatching a request
//! raises the number of outstanding requests by one, and a settlement can
//! only be delivered for a request that is actually outstanding. This module
//! states that system as a transition relation over `spec_reduce` and proves
//! the laws that make the design safe: at most one request is ever
//! outstanding, a trigger while one is in flight is swallowed, settlements
//! store exactly what they carry, field edits stay out of the request
//! bookkeeping, and a repeated settlement is a harmless no-op.

use vstd::prelude::*;

use crate::state::{init_view, spec_reduce, IntentLabel, ModelView};

verus! {

/// A component model together with the number of its requests that have been
/// dispatched and have not settled yet.
pub struct FlightState<P> {
    pub model: ModelView<P>,
    pub outstanding: nat,
}

/// The whole system starts with a fresh model and nothing outstanding.
pub open spec fn sys_init<P>() -> FlightState<P> {
    FlightState { model: init_view::<P>(), outstanding: 0 }
}

/// One step of the system: the reducer interprets the intent; a dispatching
/// step hands one request to the transport, and a delivered settlement takes
/// one back.
pub open spec fn sys_step<P>(st: FlightState<P>, intent: IntentLabel<P>) -> FlightState<P> {
    let next = spec_reduce(st.model, intent).0;
    let step = spec_reduce(st.model, intent).1;
    let grown: nat = if step.dispatch {
        st.outstanding + 1
    } else {
        st.outstanding
    };
    let shrunk: nat = match intent {
        IntentLabel::RequestCompleted(_) => if grown > 0 {
            (grown - 1) as nat
        } else {
            0
        },
        _ => grown,
    };
    FlightState { model: next, outstanding: shrunk }
}

/// The transport can only deliver a settlement for a request that is
/// actually outstanding.
pub open spec fn deliverable<P>(st: FlightState<P>, intent: IntentLabel<P>) -> bool {
    intent is RequestCompleted ==> st.outstanding > 0
}

/// The system after a whole sequence of intents.
pub open spec fn sys_run<P>(st: FlightState<P>, intents: Seq<IntentLabel<P>>) -> FlightState<P>
    decreases intents.len(),
{
    if intents.len() == 0 {
        st
    } else {
        sys_step(sys_run(st, intents.drop_last()), intents.last())
    }
}

/// A sequence of intents the transport could really produce: every
/// settlement in it is delivered while a request is outstanding.
pub open spec fn admissible_from<P>(st: FlightState<P>, intents: Seq<IntentLabel<P>>) -> bool
    decreases intents.len(),
{
    intents.len() == 0 || (admissible_from(st, intents.drop_last())
        && deliverable(sys_run(st, intents.drop_last()), intents.last()))
}

/// The in-flight flag counts the outstanding requests exactly.
pub open spec fn flight_inv<P>(st: FlightState<P>) -> bool {
    st.outstanding == if st.model.request_in_flight {
        1nat
    } else {
        0nat
    }
}

proof fn lemma_step_preserves_inv<P>(st: FlightState<P>, intent: IntentLabel<P>)
    requires
        flight_inv(st),
        deliverable(st, intent),
    ensures
        flight_inv(sys_step(st, intent)),
{
}

proof fn lemma_run_preserves_inv<P>(st: FlightState<P>, intents: Seq<IntentLabel<P>>)
    requires
        flight_inv(st),
        admissible_from(st, intents),
    ensures
        flight_inv(sys_run(st, intents)),
    decreases intents.len(),
{
    if intents.len() > 0 {
        lemma_run_preserves_inv(st, intents.drop_last());
        lemma_step_preserves_inv(sys_run(st, intents.drop_last()), intents.last());
    }
}

proof fn lemma_admissible_take<P>(st: FlightState<P>, intents: Seq<IntentLabel<P>>, k: int)
    requires
        admissible_from(st, intents),
        0 <= k <= intents.len(),
    ensures
        admissible_from(st, intents.take(k)),
    decreases intents.len(),
{
    if k == intents.len() {
        assert(intents.take(k) =~= intents);
    } else {
        lemma_admissible_take(st, intents.drop_last(), k);
        assert(intents.drop_last().take(k) =~= intents.take(k));
    }
}

/// Law: along any run of the system that the transport could really
/// produce, at most one request is outstanding at any time — here after
/// every prefix of the run — and the in-flight flag records it exactly.
pub proof fn lemma_single_flight<P>(intents: Seq<IntentLabel<P>>, k: int)
    requires
        admissible_from(sys_init::<P>(), intents),
        0 <= k <= intents.len(),
    ensures
        sys_run(sys_init::<P>(), intents.take(k)).outstanding <= 1,
        flight_inv(sys_run(sys_init::<P>(), intents.take(k))),
{
    lemma_admissible_take(sys_init::<P>(), intents, k);
    lemma_run_preserves_inv(sys_init::<P>(), intents.take(k));
}

/// Law: a trigger while a request is in flight changes nothing — the model
/// is untouched, nothing is re-rendered, and no second request is
/// dispatched.
pub proof fn lemma_trigger_swallowed<P>(m: ModelView<P>)
    requires
        m.request_in_flight,
    ensures
        spec_reduce(m, IntentLabel::<P>::TriggerAction).0 == m,
        !spec_reduce(m, IntentLabel::<P>::TriggerAction).1.rerender,
        !spec_reduce(m, IntentLabel::<P>::TriggerAction).1.dispatch,
{
}

/// Law: a successful settlement while a request is in flight clears the
/// flag and stores the payload; the stored error and the fields are left
/// exactly as they were.
pub proof fn lemma_completion_ok<P>(m: ModelView<P>, r: P)
    requires
        m.request_in_flight,
    ensures
        ({
            let m2 = spec_reduce(m, IntentLabel::<P>::RequestCompleted(Result::Ok(r))).0;
            &&& !m2.request_in_flight
            &&& m2.last_response == Option::<P>::Some(r)
            &&& m2.last_error == m.last_error
            &&& m2.fields == m.fields
        }),
{
}

/// Law: a field edit that decoded touches only the field map — the
/// in-flight flag, the stored response and the stored error are unchanged.
pub proof fn lemma_field_change_isolated<P>(m: ModelView<P>, name: Seq<char>, v: Seq<char>)
    ensures
        ({
            let m2 = spec_reduce(m, IntentLabel::<P>::FieldChanged(name, Result::Ok(v))).0;
            &&& m2.request_in_flight == m.request_in_flight
            &&& m2.last_response == m.last_response
            &&& m2.last_error == m.last_error
            &&& m2.fields == m.fields.insert(name, v)
        }),
{
}

/// Law: settling twice with the same payload is safe — the first settlement
/// leaves the in-flight flag cleared, so the second changes nothing, asks
/// for no re-render and dispatches nothing.
pub proof fn lemma_completion_idempotent<P>(m: ModelView<P>, res: Result<P, Seq<char>>)
    ensures
        ({
            let first = spec_reduce(m, IntentLabel::RequestCompleted(res)).0;
            let again = spec_reduce(first, IntentLabel::RequestCompleted(res));
            &&& again.0 == first
            &&& !again.1.rerender
            &&& !again.1.dispatch
        }),
{
}

} // verus!
