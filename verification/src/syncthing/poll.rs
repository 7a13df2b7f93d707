//! The poll loop as a machine: it is told what happened and says what to
//! do next. Whoever runs it does the waiting, the fetching and the
//! starting of scripts.
//!
//! The loop asks for events once when it is started. After a batch it
//! waits for the timer and asks again. It ends on the first fetch that
//! gives no events. What becomes of a script is no concern of the loop.

use vstd::prelude::*;
use super::api::{cursor_after, ids, types, SyncthingApi};
use super::client::{refusal, Fetched};
use super::decode::FromJson;
use super::dispatcher::{delayed, dispatch_batch, plan, planned, Launch, SpawnOutcome};
use super::errors::NetworkError;
use super::event_structs::SyncthingEvent;
use super::json::{slot, JsonModel, Slot};
use super::json_text::parsed_text;
use super::registry::{registered, Invocation, ScriptRegistry};
use super::text::decimal;

verus! {

/// Where the loop stands.
#[derive(Debug, Clone, Copy, PartialEq, Eq)]
pub enum Phase {
    /// Made, and not yet started.
    Ready,
    /// Events were asked for; the answer is awaited.
    Fetching,
    /// A batch was dealt with; the timer is awaited.
    Waiting,
    /// A fetch gave no events: the loop has ended.
    Stopped,
}

/// What the loop is told.
#[derive(Debug, PartialEq)]
pub enum PollEvent {
    /// The loop is to begin.
    Started,
    /// The timer has fired.
    Tick,
    /// A request for events came to this.
    Fetched(Fetched),
    /// A launch came to this.
    Spawned(SpawnOutcome),
}

/// What the loop asks for.
#[derive(Debug, PartialEq)]
pub enum PollAction {
    /// Ask the daemon for events at this address.
    Fetch { url: String },
    /// Start these scripts, each after its delay and none waiting for
    /// another, and wait for the timer. `events` is the batch that calls
    /// for them; both are empty where the daemon had nothing new.
    Launch { events: Vec<SyncthingEvent>, launches: Vec<Launch> },
    /// Report the error and end.
    Stop { error: NetworkError },
    /// Nothing.
    Idle,
}

/// What stays as it is while the loop runs: the daemon's address, the
/// registered scripts, and the delay of every launch.
pub struct Setup {
    pub address: Seq<char>,
    pub registry: Seq<(Seq<char>, Seq<Invocation>)>,
    pub delay: u8,
}

/// What changes while the loop runs: the phase, and the id of the last
/// event seen.
pub struct LoopState {
    pub phase: Phase,
    pub cursor: Option<u64>,
}

/// What the loop is told, as the contracts see it. Of a fetch they see
/// the error that it ends in, or the id and the type of each event that it
/// gave.
pub enum Happening {
    Started,
    Tick,
    Batch { ids: Seq<u64>, types: Seq<Seq<char>> },
    Refused(NetworkError),
    Spawned(SpawnOutcome),
}

/// What the loop asks for, as the contracts see it.
pub enum Request {
    Fetch { url: Seq<char> },
    Launch { launches: Seq<(Invocation, u8)> },
    Stop { error: NetworkError },
    Idle,
}

/// The id of an event record.
pub open spec fn record_id(record: JsonModel) -> u64 {
    match slot(record, "id"@, 0, 5) {
        Slot::Found(JsonModel::Number(n)) => match n.as_int() {
            Some(id) if 0 <= id <= u64::MAX => id as u64,
            _ => 0,
        },
        _ => 0,
    }
}

/// The type of an event record, as the daemon names it.
pub open spec fn record_type(record: JsonModel) -> Seq<char> {
    match slot(record, "type"@, 2, 5) {
        Slot::Found(JsonModel::Text(t)) => t,
        _ => Seq::empty(),
    }
}

/// The records of a document that is a list.
pub open spec fn records(document: JsonModel) -> Seq<JsonModel> {
    match document {
        JsonModel::Array(items) => items,
        _ => Seq::empty(),
    }
}

/// Where events are asked for: after the cursor, or all that the daemon
/// holds where there is no cursor.
pub open spec fn request_text(address: Seq<char>, cursor: Option<u64>) -> Seq<char> {
    match cursor {
        Some(id) => address + "/rest/events?since="@ + decimal(id as nat),
        None => address + "/rest/events"@,
    }
}

/// What an event tells the loop.
pub open spec fn happening(event: PollEvent) -> Happening {
    match event {
        PollEvent::Started => Happening::Started,
        PollEvent::Tick => Happening::Tick,
        PollEvent::Spawned(outcome) => Happening::Spawned(outcome),
        PollEvent::Fetched(fetched) => match refusal(fetched) {
            Some(error) => Happening::Refused(error),
            None => {
                let document = match fetched {
                    Fetched::Response { status, body } => match parsed_text(body@) {
                        Some(m) => m,
                        None => JsonModel::Null,
                    },
                    Fetched::Failed { cause } => JsonModel::Null,
                };
                Happening::Batch {
                    ids: Seq::new(
                        records(document).len(),
                        |i: int| record_id(records(document)[i]),
                    ),
                    types: Seq::new(
                        records(document).len(),
                        |i: int| record_type(records(document)[i]),
                    ),
                }
            },
        },
    }
}

/// What an action asks for.
pub open spec fn asks(action: PollAction) -> Request {
    match action {
        PollAction::Fetch { url } => Request::Fetch { url: url@ },
        PollAction::Launch { events, launches } => Request::Launch { launches: plan(launches@) },
        PollAction::Stop { error } => Request::Stop { error },
        PollAction::Idle => Request::Idle,
    }
}

/// One step of the loop: the state it comes to, and what it asks for.
///
/// Started, or on a tick of the timer it waited for, the loop asks for the
/// events after its cursor. On the batch it waited for, it asks for the
/// launches that the batch calls for, moves its cursor to the last event
/// of the batch, and waits for the timer. On the error it waited for, it
/// ends. Anything else changes nothing and asks for nothing.
pub open spec fn next(setup: Setup, state: LoopState, h: Happening) -> (LoopState, Request) {
    match (state.phase, h) {
        (Phase::Ready, Happening::Started) => (
            LoopState { phase: Phase::Fetching, cursor: state.cursor },
            Request::Fetch { url: request_text(setup.address, state.cursor) },
        ),
        (Phase::Waiting, Happening::Tick) => (
            LoopState { phase: Phase::Fetching, cursor: state.cursor },
            Request::Fetch { url: request_text(setup.address, state.cursor) },
        ),
        (Phase::Fetching, Happening::Batch { ids, types }) => (
            LoopState { phase: Phase::Waiting, cursor: cursor_after(state.cursor, ids) },
            Request::Launch { launches: planned(setup.registry, types, setup.delay) },
        ),
        (Phase::Fetching, Happening::Refused(error)) => (
            LoopState { phase: Phase::Stopped, cursor: state.cursor },
            Request::Stop { error },
        ),
        _ => (state, Request::Idle),
    }
}

/// The ids and the types of the events that were read from a document are
/// those of its records.
pub proof fn lemma_events_of_records(events: Vec<SyncthingEvent>, document: JsonModel)
    requires
        events.reads(Slot::Found(document)),
    ensures
        ids(events@) == Seq::new(
            records(document).len(),
            |i: int| record_id(records(document)[i]),
        ),
        types(events@) == Seq::new(
            records(document).len(),
            |i: int| record_type(records(document)[i]),
        ),
{
    let items = records(document);
    assert(Slot::Found(document)->Found_0->Array_0 == items);
    assert forall|i: int| 0 <= i < items.len() implies events@[i].id == record_id(items[i])
        && events@[i].type_@ == record_type(items[i]) by {
        assert(events@[i].reads(Slot::Found(items[i])));
    }
    assert(ids(events@) =~= Seq::new(items.len(), |i: int| record_id(items[i])));
    assert(types(events@) =~= Seq::new(items.len(), |i: int| record_type(items[i])));
}

/// The poll loop: the stream with its cursor, the scripts, and the phase.
#[derive(Debug, PartialEq)]
pub struct PollLoop {
    api: SyncthingApi,
    scripts: ScriptRegistry,
    script_delay: u8,
    phase: Phase,
}

impl PollLoop {
    /// What stays as it is while the loop runs.
    pub closed spec fn setup(&self) -> Setup {
        Setup {
            address: self.api.client.address@,
            registry: self.scripts@,
            delay: self.script_delay,
        }
    }

    /// What changes while the loop runs.
    pub closed spec fn state(&self) -> LoopState {
        LoopState { phase: self.phase, cursor: self.api.last_seen }
    }

    /// A loop over the stream `api` with the scripts `scripts`, not yet
    /// started.
    pub fn new(api: SyncthingApi, scripts: ScriptRegistry, script_delay: u8) -> (r: PollLoop)
        ensures
            r.setup() == (Setup {
                address: api.client.address@,
                registry: scripts@,
                delay: script_delay,
            }),
            r.state() == (LoopState { phase: Phase::Ready, cursor: api.last_seen }),
    {
        PollLoop { api, scripts, script_delay, phase: Phase::Ready }
    }

    /// The id of the last event that the loop has seen.
    pub fn last_seen(&self) -> (r: Option<u64>)
        ensures
            r == self.state().cursor,
    {
        self.api.last_seen
    }

    /// Where the loop stands.
    pub fn current_phase(&self) -> (r: Phase)
        ensures
            r == self.state().phase,
    {
        self.phase
    }

    /// Tells the loop what happened; it says what to do next. The loop
    /// goes as [`next`] says. With the launches of a batch it hands out
    /// the events of the batch, as they were read from the body of the
    /// answer.
    pub fn step(&mut self, event: PollEvent) -> (r: PollAction)
        ensures
            final(self).setup() == old(self).setup(),
            (final(self).state(), asks(r)) == next(
                old(self).setup(),
                old(self).state(),
                happening(event),
            ),
            r matches PollAction::Launch { events, launches } ==> {
                &&& event matches PollEvent::Fetched(Fetched::Response { status, body })
                &&& parsed_text(body@) matches Some(m)
                &&& events.reads(Slot::Found(m))
            },
    {
        match (self.phase, event) {
            (Phase::Ready, PollEvent::Started) | (Phase::Waiting, PollEvent::Tick) => {
                self.phase = Phase::Fetching;
                PollAction::Fetch { url: self.api.request_url() }
            },
            (Phase::Fetching, PollEvent::Fetched(fetched)) => match self.api.update(&fetched) {
                Ok(events) => {
                    proof {
                        let document = parsed_text(fetched->body@)->Some_0;
                        lemma_events_of_records(events, document);
                    }
                    let launches = dispatch_batch(&self.scripts, &events, self.script_delay);
                    self.phase = Phase::Waiting;
                    PollAction::Launch { events, launches }
                },
                Err(error) => {
                    self.phase = Phase::Stopped;
                    PollAction::Stop { error }
                },
            },
            _ => PollAction::Idle,
        }
    }
}

/// The state of the loop after one thing after another has happened.
pub open spec fn run(setup: Setup, state: LoopState, happenings: Seq<Happening>) -> LoopState
    decreases happenings.len(),
{
    if happenings.len() == 0 {
        state
    } else {
        next(setup, run(setup, state, happenings.drop_last()), happenings.last()).0
    }
}

/// What has happened, without what became of the launches.
pub open spec fn without_outcomes(happenings: Seq<Happening>) -> Seq<Happening>
    decreases happenings.len(),
{
    if happenings.len() == 0 {
        happenings
    } else if happenings.last() is Spawned {
        without_outcomes(happenings.drop_last())
    } else {
        without_outcomes(happenings.drop_last()).push(happenings.last())
    }
}

/// A script that does not start keeps nothing from happening: what becomes
/// of a launch, an error or not, changes nothing and asks for nothing, and
/// the loop comes to the same state as if it had never been told.
pub proof fn lemma_outcomes_are_passed_over(
    setup: Setup,
    state: LoopState,
    happenings: Seq<Happening>,
)
    ensures
        forall|outcome: SpawnOutcome| #[trigger]
            next(setup, state, Happening::Spawned(outcome)) == (state, Request::Idle),
        run(setup, state, happenings) == run(setup, state, without_outcomes(happenings)),
    decreases happenings.len(),
{
    if happenings.len() > 0 {
        lemma_outcomes_are_passed_over(setup, state, happenings.drop_last());
        if !(happenings.last() is Spawned) {
            let kept = without_outcomes(happenings);
            assert(kept.drop_last() =~= without_outcomes(happenings.drop_last()));
        }
    }
}

/// A loop that has ended stays as it is, whatever it is told.
pub proof fn lemma_stopped_is_the_end(setup: Setup, state: LoopState, happenings: Seq<Happening>)
    requires
        state.phase == Phase::Stopped,
    ensures
        run(setup, state, happenings) == state,
    decreases happenings.len(),
{
    if happenings.len() > 0 {
        lemma_stopped_is_the_end(setup, state, happenings.drop_last());
    }
}

/// The cursor moves only with a batch that holds an event, and then to the
/// last event of the batch; the loop ends only on the error of a fetch.
pub proof fn lemma_what_moves_the_loop(setup: Setup, state: LoopState, h: Happening)
    ensures
        next(setup, state, h).0.cursor != state.cursor ==> state.phase == Phase::Fetching && (h
            matches Happening::Batch { ids, types } && ids.len() > 0 && next(
            setup,
            state,
            h,
        ).0.cursor == Some(ids.last())),
        next(setup, state, h).0.phase == Phase::Stopped ==> state.phase == Phase::Stopped || (
        state.phase == Phase::Fetching && h is Refused),
{
}

/// The ids of the events of some cycles, one batch after another.
pub open spec fn observed(batches: Seq<Seq<u64>>) -> Seq<u64>
    decreases batches.len(),
{
    if batches.len() == 0 {
        Seq::empty()
    } else {
        observed(batches.drop_last()) + batches.last()
    }
}

/// The cursor after some cycles, each of which gave one of the batches.
pub open spec fn cursor_after_all(cursor: Option<u64>, batches: Seq<Seq<u64>>) -> Option<u64>
    decreases batches.len(),
{
    if batches.len() == 0 {
        cursor
    } else {
        cursor_after(cursor_after_all(cursor, batches.drop_last()), batches.last())
    }
}

/// What happens over some cycles of a loop that waits for an answer: each
/// cycle brings a batch, given by the ids and the types of its events, and
/// then a tick of the timer.
pub open spec fn rounds(batches: Seq<(Seq<u64>, Seq<Seq<char>>)>) -> Seq<Happening>
    decreases batches.len(),
{
    if batches.len() == 0 {
        Seq::empty()
    } else {
        rounds(batches.drop_last()).push(
            Happening::Batch { ids: batches.last().0, types: batches.last().1 },
        ).push(Happening::Tick)
    }
}

/// The ids of each of some batches.
pub open spec fn batch_ids(batches: Seq<(Seq<u64>, Seq<Seq<char>>)>) -> Seq<Seq<u64>> {
    Seq::new(batches.len(), |i: int| batches[i].0)
}

/// Over cycles that all give events or none, the loop keeps asking, and
/// its cursor is the cursor after all the batches.
pub proof fn lemma_cursor_over_cycles(
    setup: Setup,
    state: LoopState,
    batches: Seq<(Seq<u64>, Seq<Seq<char>>)>,
)
    requires
        state.phase == Phase::Fetching,
    ensures
        run(setup, state, rounds(batches)) == (LoopState {
            phase: Phase::Fetching,
            cursor: cursor_after_all(state.cursor, batch_ids(batches)),
        }),
    decreases batches.len(),
{
    if batches.len() > 0 {
        let earlier = batches.drop_last();
        lemma_cursor_over_cycles(setup, state, earlier);
        let all = rounds(batches);
        let batch = Happening::Batch { ids: batches.last().0, types: batches.last().1 };
        assert(all.drop_last() =~= rounds(earlier).push(batch));
        assert(all.drop_last().drop_last() =~= rounds(earlier));
        assert(batch_ids(batches).drop_last() =~= batch_ids(earlier));
        let before = run(setup, state, rounds(earlier));
        assert(run(setup, state, all.drop_last()) == next(setup, before, batch).0);
        assert(run(setup, state, all) == next(
            setup,
            run(setup, state, all.drop_last()),
            Happening::Tick,
        ).0);
    } else {
        assert(batch_ids(batches) =~= Seq::<Seq<u64>>::empty());
    }
}

/// Every id is above those before it.
pub open spec fn increasing(ids: Seq<u64>) -> bool {
    forall|i: int, j: int| 0 <= i < j < ids.len() ==> ids[i] < ids[j]
}

/// The ids of the first cycles are the first of the ids of all.
proof fn lemma_observed_take(batches: Seq<Seq<u64>>, cycles: int)
    requires
        0 <= cycles <= batches.len(),
    ensures
        observed(batches.take(cycles)).len() <= observed(batches).len(),
        observed(batches.take(cycles)) == observed(batches).take(
            observed(batches.take(cycles)).len() as int,
        ),
    decreases batches.len(),
{
    if cycles == batches.len() {
        assert(batches.take(cycles) =~= batches);
        assert(observed(batches).take(observed(batches).len() as int) =~= observed(batches));
    } else {
        assert(batches.drop_last().take(cycles) =~= batches.take(cycles));
        lemma_observed_take(batches.drop_last(), cycles);
        let part = observed(batches.take(cycles));
        assert(part =~= observed(batches).take(part.len() as int));
    }
}

/// Where the ids of the events go up, the cursor follows the highest: after
/// each cycle it is the highest id seen so far, and before any event was
/// seen it is what it was at the start.
pub proof fn lemma_cursor_is_highest_id(cursor: Option<u64>, batches: Seq<Seq<u64>>, cycles: int)
    requires
        increasing(observed(batches)),
        0 <= cycles <= batches.len(),
    ensures
        ({
            let seen = observed(batches.take(cycles));
            let now = cursor_after_all(cursor, batches.take(cycles));
            &&& seen.len() == 0 ==> now == cursor
            &&& seen.len() > 0 ==> now == Some(seen.last())
            &&& forall|i: int| 0 <= i < seen.len() ==> seen[i] <= seen.last()
        }),
    decreases cycles,
{
    let first = batches.take(cycles);
    let seen = observed(first);
    lemma_observed_take(batches, cycles);
    assert(increasing(seen));
    if cycles > 0 {
        assert(first.drop_last() =~= batches.take(cycles - 1));
        lemma_cursor_is_highest_id(cursor, batches, cycles - 1);
        if first.last().len() == 0 {
            assert(seen =~= observed(first.drop_last()));
        }
    }
}

/// One cursor is not behind another: no cursor is behind none, and an id is
/// not behind a lower one.
pub open spec fn not_behind(later: Option<u64>, earlier: Option<u64>) -> bool {
    match (earlier, later) {
        (None, _) => true,
        (Some(a), Some(b)) => a <= b,
        (Some(_), None) => false,
    }
}

/// Where the ids of the events go up, from above the cursor at the start,
/// the cursor never goes back: after more cycles it is not behind where it
/// was after fewer.
pub proof fn lemma_cursor_never_goes_back(
    cursor: Option<u64>,
    batches: Seq<Seq<u64>>,
    fewer: int,
    more: int,
)
    requires
        increasing(observed(batches)),
        cursor matches Some(start) ==> forall|i: int|
            0 <= i < observed(batches).len() ==> start < observed(batches)[i],
        0 <= fewer <= more <= batches.len(),
    ensures
        not_behind(
            cursor_after_all(cursor, batches.take(more)),
            cursor_after_all(cursor, batches.take(fewer)),
        ),
{
    let early = observed(batches.take(fewer));
    let late = observed(batches.take(more));
    lemma_cursor_is_highest_id(cursor, batches, fewer);
    lemma_cursor_is_highest_id(cursor, batches, more);
    lemma_observed_take(batches, more);
    assert(batches.take(more).take(fewer) =~= batches.take(fewer));
    lemma_observed_take(batches.take(more), fewer);
    if early.len() > 0 {
        assert(early.last() == late[early.len() - 1]);
    } else if late.len() > 0 {
        assert(late.last() == observed(batches)[late.len() - 1]);
    }
}

/// Cycles without events change nothing: the cursor stays where it was,
/// however many cycles there are, and no script is launched.
pub proof fn lemma_empty_cycles_change_nothing(
    cursor: Option<u64>,
    batches: Seq<Seq<u64>>,
    registry: Seq<(Seq<char>, Seq<Invocation>)>,
    delay: u8,
)
    requires
        forall|k: int| 0 <= k < batches.len() ==> (#[trigger] batches[k]).len() == 0,
    ensures
        cursor_after_all(cursor, batches) == cursor,
        planned(registry, Seq::empty(), delay) == Seq::<(Invocation, u8)>::empty(),
    decreases batches.len(),
{
    if batches.len() > 0 {
        lemma_empty_cycles_change_nothing(cursor, batches.drop_last(), registry, delay);
    }
}

/// Every event gets its launches, and no others: in the launches of a
/// batch, those of event `k` stand together, after those of the events
/// before it, and they are one launch for each script registered for the
/// type of the event, in the order of the registry. An event of a type
/// without scripts has none.
pub proof fn lemma_launches_of_each_event(
    registry: Seq<(Seq<char>, Seq<Invocation>)>,
    event_types: Seq<Seq<char>>,
    delay: u8,
    k: int,
)
    requires
        0 <= k < event_types.len(),
    ensures
        ({
            let all = planned(registry, event_types, delay);
            let start = planned(registry, event_types.take(k), delay).len();
            let own = delayed(registered(registry, event_types[k]), delay);
            &&& own.len() == registered(registry, event_types[k]).len()
            &&& start + own.len() <= all.len()
            &&& all.subrange(start as int, start as int + own.len()) == own
        }),
    decreases event_types.len(),
{
    let all = planned(registry, event_types, delay);
    let before = planned(registry, event_types.drop_last(), delay);
    let start = planned(registry, event_types.take(k), delay).len();
    let own = delayed(registered(registry, event_types[k]), delay);
    if k == event_types.len() - 1 {
        assert(event_types.take(k) =~= event_types.drop_last());
        assert(all.subrange(start as int, start as int + own.len()) =~= own);
    } else {
        assert(event_types.drop_last().take(k) =~= event_types.take(k));
        lemma_launches_of_each_event(registry, event_types.drop_last(), delay, k);
        assert(all.subrange(start as int, start as int + own.len()) =~= before.subrange(
            start as int,
            start as int + own.len(),
        ));
    }
}

} // verus!
