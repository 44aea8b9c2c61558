//! What holds of a session over any sequence of events.

use vstd::prelude::*;
use crate::air_quality::Reading;
use crate::baseline::{MyBaseline, Stored};
use crate::error::SensorError;
use crate::humidity::HumidityEncoding;
use crate::session::{Action, Cycle, Event, InitStep, Session};

verus! {

/// The session that `start` becomes after `events`, in their order.
pub open spec fn run(start: Session, events: Seq<Event>) -> Session
    decreases events.len(),
{
    if events.len() == 0 {
        start
    } else {
        run(start, events.drop_last()).step(events.last()).0
    }
}

/// The action answered to the last of `events`.
pub open spec fn last_answer(start: Session, events: Seq<Event>) -> Action
    recommends
        events.len() > 0,
{
    run(start, events.drop_last()).step(events.last()).1
}

/// The actions answered to `events`, one for each, in their order.
pub open spec fn answers(start: Session, events: Seq<Event>) -> Seq<Action>
    decreases events.len(),
{
    if events.len() == 0 {
        Seq::empty()
    } else {
        answers(start, events.drop_last()).push(last_answer(start, events))
    }
}

/// One more event moves the session by one step and adds one answer.
pub proof fn lemma_one_more_event(start: Session, events: Seq<Event>, event: Event)
    ensures
        run(start, events.push(event)) == run(start, events).step(event).0,
        answers(start, events.push(event)) == answers(start, events).push(
            run(start, events).step(event).1,
        ),
{
    assert(events.push(event).drop_last() =~= events);
}

/// The number of measurement cycles that `events` began.
pub open spec fn cycles_begun(start: Session, events: Seq<Event>) -> nat
    decreases events.len(),
{
    if events.len() == 0 {
        0
    } else {
        cycles_begun(start, events.drop_last()) + if last_answer(start, events) is ReadBaseline {
            1nat
        } else {
            0nat
        }
    }
}

/// The number of measurement cycles that `events` ended, with a reading or
/// with an error.
pub open spec fn cycles_ended(start: Session, events: Seq<Event>) -> nat
    decreases events.len(),
{
    if events.len() == 0 {
        0
    } else {
        cycles_ended(start, events.drop_last()) + if last_answer(start, events).releases() {
            1nat
        } else {
            0nat
        }
    }
}

impl Action {
    /// Whether the action is a transfer on the sensor's bus.
    pub open spec fn uses_bus(self) -> bool {
        self is OpenBus || self is InitSensor || self is RestoreBaseline || self is ReadBaseline
            || self is SetHumidity || self is Measure || self is MeasureRaw
    }

    /// Whether the action ends a measurement cycle and lets go of the
    /// sensor.
    pub open spec fn releases(self) -> bool {
        self is Deliver || self is Fail
    }
}

/// One measurement at a time: whatever the events, the cycles begun and the
/// cycles ended differ by the one cycle in flight, if there is one.
pub proof fn lemma_one_cycle_at_a_time(start: Session, events: Seq<Event>)
    ensures
        cycles_begun(start, events) + (if start.in_flight() { 1nat } else { 0nat }) == cycles_ended(
            start,
            events,
        ) + (if run(start, events).in_flight() { 1nat } else { 0nat }),
    decreases events.len(),
{
    if events.len() > 0 {
        lemma_one_cycle_at_a_time(start, events.drop_last());
    }
}

/// A request that meets a cycle in flight, or a start-up under way, waits:
/// it is answered `Busy` and changes nothing. A cycle begins only when a
/// request meets a session that is ready.
pub proof fn lemma_requests_wait_their_turn(session: Session, event: Event)
    ensures
        event is Request && (session.in_flight() || session is Initializing) ==> session.step(event)
            == (session, Action::Busy),
        session.step(event).1 is ReadBaseline <==> session is Ready && event is Request,
        session.step(event).1 is ReadBaseline ==> session.step(event).0.in_flight(),
{
}

/// The bus belongs to start-up or to the cycle in flight: an action that
/// transfers on the bus leaves the session initialising or measuring, and
/// a session that is idle, failed or not yet started answers no event but
/// `Start` or a request when ready with such an action.
pub proof fn lemma_bus_has_one_user(session: Session, event: Event)
    ensures
        session.step(event).1.uses_bus() ==> session.step(event).0 is Initializing
            || session.step(event).0 is Measuring,
        session.step(event).1.uses_bus() && !(session is Initializing || session is Measuring)
            ==> (session is Uninitialized && event is Start) || (session is Ready
            && event is Request),
{
}

/// A failed measurement does not poison the session: once ready, the
/// session is ready or measuring for ever after, whatever is reported.
pub proof fn lemma_ready_stays_in_service(start: Session, events: Seq<Event>)
    requires
        start is Ready || start is Measuring,
    ensures
        run(start, events) is Ready || run(start, events) is Measuring,
    decreases events.len(),
{
    if events.len() > 0 {
        lemma_ready_stays_in_service(start, events.drop_last());
    }
}

/// A failed start-up is final: the session stays failed with the same error
/// and answers every event by aborting with it.
pub proof fn lemma_failure_is_final(error: SensorError, events: Seq<Event>)
    ensures
        run(Session::Failed(error), events) == Session::Failed(error),
        events.len() > 0 ==> last_answer(Session::Failed(error), events) == Action::Abort(error),
    decreases events.len(),
{
    if events.len() > 0 {
        lemma_failure_is_final(error, events.drop_last());
    }
}

/// Start-up never goes on past a corrupt baseline or a bus failure: a
/// session becomes ready only by finding no baseline or by restoring the one
/// it found, and it fails with nothing but these two errors.
pub proof fn lemma_startup_outcomes(session: Session, event: Event)
    requires
        session is Uninitialized || session is Initializing,
    ensures
        session.step(event).0 is Ready ==> session.step(event).1 is Serve && ({
            ||| event == Event::BaselineLoaded(None)
            ||| event is BaselineRestored
        }),
        event is BaselineCorrupt && session == Session::Initializing(
            InitStep::LoadBaseline,
        ) ==> session.step(event) == (
            Session::Failed(SensorError::BaselineCorrupt),
            Action::Abort(SensorError::BaselineCorrupt),
        ),
        session.step(event).0 matches Session::Failed(error) ==> error.fatal_at_startup(),
        !(session.step(event).0 is Measuring),
{
}

/// A cycle makes progress: every event that it takes up leaves fewer
/// actions to come, so a cycle is over after at most five of them; and it
/// is over exactly when the action lets go of the sensor.
pub proof fn lemma_cycle_progress(cycle: Cycle, event: Event)
    ensures
        cycle.step(event).0 matches Some(next) ==> {
            ||| next == cycle && (cycle.step(event).1 is Ignore || cycle.step(event).1 is Busy)
            ||| next.actions_left() < cycle.actions_left()
        },
        1 <= cycle.actions_left() <= 5,
        cycle.step(event).0 is None ==> cycle.step(event).1.releases(),
        cycle.step(event).1.releases() ==> cycle.step(event).0 is None,
{
}

/// The order within a cycle: the humidity is pushed only once the baseline
/// has been handed to the store, and the store's refusal does not stop the
/// cycle.
pub proof fn lemma_save_comes_first(cycle: Cycle, event: Event)
    ensures
        cycle.step(event).1 is SetHumidity ==> cycle is SaveBaseline && event is BaselineSaved,
        cycle.step(event).1 is SaveBaseline ==> cycle is ReadBaseline && event is BaselineRead,
        cycle is SaveBaseline && event is BaselineSaved ==> cycle.step(event).0 is Some && (
        cycle.step(event).1 is SetHumidity || cycle.step(event).1 is Measure),
{
}

/// Baselines pass through the session as they are: the record restored at
/// start-up is the record that was loaded, and the record stored in a cycle
/// is the baseline that the sensor reported.
pub proof fn lemma_baselines_pass_unchanged(session: Session, event: Event, baseline: MyBaseline)
    ensures
        session.step(event).1 == Action::RestoreBaseline(baseline) ==> event
            == Event::BaselineLoaded(Some(baseline)),
        session.step(event).1 == Action::SaveBaseline(baseline) ==> event == Event::BaselineRead(
            baseline,
        ),
        session == Session::Initializing(InitStep::LoadBaseline) ==> session.step(
            Event::of_stored(baseline.as_fields()),
        ).1 == Action::RestoreBaseline(baseline),
{
}

/// What a caller reports during a start-up in which the bus and the sensor
/// play along, and `stored` is what it finds in the store.
pub open spec fn startup_events(stored: Stored) -> Seq<Event> {
    let common = seq![
        Event::Start,
        Event::BusOpened,
        Event::SensorInitialized,
        Event::of_stored(stored),
    ];
    if stored.baseline() matches Ok(Some(_)) {
        common.push(Event::BaselineRestored)
    } else {
        common
    }
}

/// Start-up as a whole. With nothing stored the session comes to serve on
/// the sensor's own baseline, and nothing is pushed into the sensor; with a
/// record stored, that record is restored and then the session serves; with
/// a corrupt store the session fails at once and never serves.
pub proof fn lemma_startup_script(stored: Stored)
    ensures
        stored.baseline() == Ok::<Option<MyBaseline>, SensorError>(None) ==> {
            &&& run(Session::Uninitialized, startup_events(stored)) == Session::Ready
            &&& answers(Session::Uninitialized, startup_events(stored)) == seq![
                Action::OpenBus,
                Action::InitSensor,
                Action::LoadBaseline,
                Action::Serve,
            ]
        },
        stored.baseline() matches Ok(Some(baseline)) ==> {
            &&& run(Session::Uninitialized, startup_events(stored)) == Session::Ready
            &&& answers(Session::Uninitialized, startup_events(stored)) == seq![
                Action::OpenBus,
                Action::InitSensor,
                Action::LoadBaseline,
                Action::RestoreBaseline(baseline),
                Action::Serve,
            ]
        },
        stored.baseline() is Err ==> {
            &&& run(Session::Uninitialized, startup_events(stored)) == Session::Failed(
                SensorError::BaselineCorrupt,
            )
            &&& answers(Session::Uninitialized, startup_events(stored)) == seq![
                Action::OpenBus,
                Action::InitSensor,
                Action::LoadBaseline,
                Action::Abort(SensorError::BaselineCorrupt),
            ]
        },
{
    let start = Session::Uninitialized;
    let e0 = Seq::<Event>::empty();
    let e1 = e0.push(Event::Start);
    let e2 = e1.push(Event::BusOpened);
    let e3 = e2.push(Event::SensorInitialized);
    let e4 = e3.push(Event::of_stored(stored));
    lemma_one_more_event(start, e0, Event::Start);
    lemma_one_more_event(start, e1, Event::BusOpened);
    lemma_one_more_event(start, e2, Event::SensorInitialized);
    lemma_one_more_event(start, e3, Event::of_stored(stored));
    assert(e4 =~= seq![
        Event::Start,
        Event::BusOpened,
        Event::SensorInitialized,
        Event::of_stored(stored),
    ]);
    assert(answers(start, e3) =~= seq![Action::OpenBus, Action::InitSensor, Action::LoadBaseline]);
    match stored.baseline() {
        Ok(Some(baseline)) => {
            lemma_one_more_event(start, e4, Event::BaselineRestored);
            assert(answers(start, startup_events(stored)) =~= seq![
                Action::OpenBus,
                Action::InitSensor,
                Action::LoadBaseline,
                Action::RestoreBaseline(baseline),
                Action::Serve,
            ]);
        },
        Ok(None) => {
            assert(answers(start, e4) =~= seq![
                Action::OpenBus,
                Action::InitSensor,
                Action::LoadBaseline,
                Action::Serve,
            ]);
        },
        Err(_) => {
            assert(answers(start, e4) =~= seq![
                Action::OpenBus,
                Action::InitSensor,
                Action::LoadBaseline,
                Action::Abort(SensorError::BaselineCorrupt),
            ]);
        },
    }
}

/// What a caller reports during a cycle in which the bus plays along: the
/// baseline read, whether it was stored, the humidity taken if there was
/// one to push, and the two measurements.
pub open spec fn cycle_events(
    humidity: Option<HumidityEncoding>,
    baseline: MyBaseline,
    saved: bool,
    reading: Reading,
) -> Seq<Event> {
    let head = seq![
        Event::Request(humidity),
        Event::BaselineRead(baseline),
        Event::BaselineSaved(saved),
    ];
    let tail = seq![
        Event::Measured { co2eq: reading.co2, tvoc: reading.tvoc },
        Event::RawMeasured { h2: reading.h2, ethanol: reading.etha },
    ];
    if humidity is Some {
        head.push(Event::HumiditySet) + tail
    } else {
        head + tail
    }
}

/// What the session asks for during such a cycle.
pub open spec fn cycle_actions(
    humidity: Option<HumidityEncoding>,
    baseline: MyBaseline,
    saved: bool,
    reading: Reading,
) -> Seq<Action> {
    let head = seq![Action::ReadBaseline, Action::SaveBaseline(baseline)];
    let tail = seq![
        Action::Measure,
        Action::MeasureRaw,
        Action::Deliver { reading, baseline_saved: saved },
    ];
    match humidity {
        Some(encoding) => head.push(Action::SetHumidity(encoding)) + tail,
        None => head + tail,
    }
}

/// A measurement cycle as a whole. The session reads the sensor's baseline
/// and has it stored, pushes the humidity if the request brought one and
/// only then, measures, reads the raw signals and delivers exactly what the
/// sensor reported, whether or not the baseline could be stored; then it is
/// ready again.
pub proof fn lemma_cycle_script(
    humidity: Option<HumidityEncoding>,
    baseline: MyBaseline,
    saved: bool,
    reading: Reading,
)
    ensures
        run(Session::Ready, cycle_events(humidity, baseline, saved, reading)) == Session::Ready,
        answers(Session::Ready, cycle_events(humidity, baseline, saved, reading)) == cycle_actions(
            humidity,
            baseline,
            saved,
            reading,
        ),
{
    let start = Session::Ready;
    let measured = Event::Measured { co2eq: reading.co2, tvoc: reading.tvoc };
    let raw = Event::RawMeasured { h2: reading.h2, ethanol: reading.etha };
    let e0 = Seq::<Event>::empty();
    let e1 = e0.push(Event::Request(humidity));
    let e2 = e1.push(Event::BaselineRead(baseline));
    let e3 = e2.push(Event::BaselineSaved(saved));
    lemma_one_more_event(start, e0, Event::Request(humidity));
    lemma_one_more_event(start, e1, Event::BaselineRead(baseline));
    lemma_one_more_event(start, e2, Event::BaselineSaved(saved));
    match humidity {
        Some(encoding) => {
            let e4 = e3.push(Event::HumiditySet);
            let e5 = e4.push(measured);
            let e6 = e5.push(raw);
            lemma_one_more_event(start, e3, Event::HumiditySet);
            lemma_one_more_event(start, e4, measured);
            lemma_one_more_event(start, e5, raw);
            assert(e6 =~= cycle_events(humidity, baseline, saved, reading));
            assert(answers(start, e6) =~= cycle_actions(humidity, baseline, saved, reading));
        },
        None => {
            let e4 = e3.push(measured);
            let e5 = e4.push(raw);
            lemma_one_more_event(start, e3, measured);
            lemma_one_more_event(start, e4, raw);
            assert(e5 =~= cycle_events(humidity, baseline, saved, reading));
            assert(answers(start, e5) =~= cycle_actions(humidity, baseline, saved, reading));
        },
    }
}

/// A bus failure at any point of a cycle ends it with that error and
/// leaves the session ready, so that the next request is served.
pub proof fn lemma_bus_failure_ends_the_cycle(cycle: Cycle, next: Option<HumidityEncoding>)
    requires
        cycle.awaits_bus(),
    ensures
        Session::Measuring(cycle).step(Event::BusFailed) == (
            Session::Ready,
            Action::Fail(SensorError::BusError),
        ),
        Session::Measuring(cycle).step(Event::BusFailed).0.step(Event::Request(next)).1
            == Action::ReadBaseline,
{
}

} // verus!
