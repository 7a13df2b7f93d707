//! From events to launches: which scripts a batch of events calls for.
//!
//! The launches of a batch are fixed by the registry and the events alone.
//! What becomes of one launch comes back as a [`SpawnOutcome`], which is
//! counted and changes nothing else: a script that does not start keeps
//! no other script from being tried.

use vstd::prelude::*;
use super::api::types;
use super::errors::SpawnError;
use super::event_structs::SyncthingEvent;
use super::registry::{registered, Invocation, ScriptInvocation, ScriptRegistry};

verus! {

/// A script to start, and the seconds to wait before it is started. Each
/// launch waits for itself: none waits for another.
#[derive(Debug, PartialEq)]
pub struct Launch {
    pub invocation: ScriptInvocation,
    pub delay_seconds: u8,
}

impl View for Launch {
    type V = (Invocation, u8);

    open spec fn view(&self) -> (Invocation, u8) {
        (self.invocation@, self.delay_seconds)
    }
}

impl Clone for Launch {
    fn clone(&self) -> (r: Self)
        ensures
            r@ == self@,
    {
        Launch { invocation: self.invocation.clone(), delay_seconds: self.delay_seconds }
    }
}

/// A list of launches, as the contracts see it.
pub open spec fn plan(v: Seq<Launch>) -> Seq<(Invocation, u8)> {
    Seq::new(v.len(), |i: int| v[i]@)
}

/// One launch for each invocation, in their order, each with the delay.
pub open spec fn delayed(invocations: Seq<Invocation>, delay: u8) -> Seq<(Invocation, u8)> {
    Seq::new(invocations.len(), |i: int| (invocations[i], delay))
}

/// The launches that a batch of events calls for: those of the first
/// event, then those of the second, and so on. An event of a type without
/// scripts adds none.
pub open spec fn planned(
    registry: Seq<(Seq<char>, Seq<Invocation>)>,
    event_types: Seq<Seq<char>>,
    delay: u8,
) -> Seq<(Invocation, u8)>
    decreases event_types.len(),
{
    if event_types.len() == 0 {
        Seq::empty()
    } else {
        planned(registry, event_types.drop_last(), delay) + delayed(
            registered(registry, event_types.last()),
            delay,
        )
    }
}

/// Adds the launches of one type of event to `out`.
fn extend(out: &mut Vec<Launch>, registry: &ScriptRegistry, event_type: &str, delay: u8)
    ensures
        plan(final(out)@) == plan(old(out)@) + delayed(
            registry.invocations_for(event_type@),
            delay,
        ),
{
    let ghost before = plan(out@);
    let ghost wanted = delayed(registry.invocations_for(event_type@), delay);
    match registry.position(event_type) {
        Some(i) => {
            let entries = registry.entries();
            let invocations = &entries[i].invocations;
            let mut k: usize = 0;
            assert(plan(out@) =~= before + wanted.subrange(0, 0));
            while k < invocations.len()
                invariant
                    k <= invocations.len(),
                    wanted.len() == invocations@.len(),
                    forall|n: int| 0 <= n < wanted.len() ==> wanted[n] == (invocations@[n]@, delay),
                    plan(out@) == before + wanted.subrange(0, k as int),
                decreases invocations.len() - k,
            {
                let ghost so_far = out@;
                out.push(Launch { invocation: invocations[k].clone(), delay_seconds: delay });
                assert(plan(out@) =~= plan(so_far).push(wanted[k as int]));
                assert(wanted.subrange(0, k as int + 1) =~= wanted.subrange(0, k as int).push(
                    wanted[k as int],
                ));
                assert(plan(out@) =~= before + wanted.subrange(0, k as int + 1));
                k += 1;
            }
            assert(wanted.subrange(0, k as int) =~= wanted);
        },
        None => {
            assert(plan(out@) =~= before + wanted);
        },
    }
}

/// The launches that an event of this type calls for: one for each script
/// registered for the type, in their order, and none where none is
/// registered.
pub fn dispatch(registry: &ScriptRegistry, event_type: &str, delay_seconds: u8) -> (r: Vec<Launch>)
    ensures
        plan(r@) == delayed(registry.invocations_for(event_type@), delay_seconds),
{
    let mut out: Vec<Launch> = Vec::new();
    extend(&mut out, registry, event_type, delay_seconds);
    assert(plan(out@) =~= delayed(registry.invocations_for(event_type@), delay_seconds));
    out
}

/// The launches that a batch of events calls for, event after event.
pub fn dispatch_batch(
    registry: &ScriptRegistry,
    events: &Vec<SyncthingEvent>,
    delay_seconds: u8,
) -> (r: Vec<Launch>)
    ensures
        plan(r@) == planned(registry@, types(events@), delay_seconds),
{
    let ghost all = types(events@);
    let mut out: Vec<Launch> = Vec::new();
    let mut i: usize = 0;
    assert(plan(out@) =~= planned(registry@, all.subrange(0, 0), delay_seconds));
    while i < events.len()
        invariant
            i <= events.len(),
            all == types(events@),
            plan(out@) == planned(registry@, all.subrange(0, i as int), delay_seconds),
        decreases events.len() - i,
    {
        let ghost upto = all.subrange(0, i as int + 1);
        assert(upto.drop_last() =~= all.subrange(0, i as int));
        assert(upto.last() == events@[i as int].type_@);
        extend(&mut out, registry, events[i].type_.as_str(), delay_seconds);
        i += 1;
    }
    assert(all.subrange(0, i as int) =~= all);
    out
}

/// What became of one launch: the process that runs the script, by its
/// id, or why none was started.
pub type SpawnOutcome = Result<u32, SpawnError>;

/// How many of the outcomes are a started script.
pub open spec fn started(outcomes: Seq<SpawnOutcome>) -> nat
    decreases outcomes.len(),
{
    if outcomes.len() == 0 {
        0
    } else {
        started(outcomes.drop_last()) + if outcomes.last() is Ok {
            1nat
        } else {
            0nat
        }
    }
}

/// The count of a list of outcomes.
#[derive(Debug, Clone, Copy, PartialEq, Eq)]
pub struct DispatchReport {
    pub started: usize,
    pub failed: usize,
}

/// Counts the scripts that were started and those that were not.
pub fn report(outcomes: &Vec<SpawnOutcome>) -> (r: DispatchReport)
    ensures
        r.started == started(outcomes@),
        r.started + r.failed == outcomes@.len(),
{
    let mut r = DispatchReport { started: 0, failed: 0 };
    let mut i: usize = 0;
    while i < outcomes.len()
        invariant
            i <= outcomes.len(),
            r.started == started(outcomes@.subrange(0, i as int)),
            r.started + r.failed == i,
        decreases outcomes.len() - i,
    {
        assert(outcomes@.subrange(0, i as int + 1).drop_last() =~= outcomes@.subrange(
            0,
            i as int,
        ));
        match &outcomes[i] {
            Ok(_) => {
                r.started += 1;
            },
            Err(_) => {
                r.failed += 1;
            },
        }
        i += 1;
    }
    assert(outcomes@.subrange(0, i as int) =~= outcomes@);
    r
}

} // verus!
