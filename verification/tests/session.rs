use airsense::air_quality::Reading;
use airsense::baseline::MyBaseline;
use airsense::error::SensorError;
use airsense::humidity::HumidityEncoding;
use airsense::session::{Action, Cycle, Event, InitStep, Session};

const STORED: MyBaseline = MyBaseline { co2eq: 35_000, tvoc: 36_500 };
const DRIFTED: MyBaseline = MyBaseline { co2eq: 35_012, tvoc: 36_498 };
const HUMID: HumidityEncoding = HumidityEncoding { integer: 9, fractional: 115 };

fn run(session: &mut Session, events: &[Event]) -> Vec<Action> {
    events.iter().map(|event| session.handle(*event)).collect()
}

fn ready() -> Session {
    let mut session = Session::new();
    run(
        &mut session,
        &[Event::Start, Event::BusOpened, Event::SensorInitialized, Event::BaselineLoaded(None)],
    );
    assert_eq!(session, Session::Ready);
    session
}

#[test]
fn a_new_session_is_uninitialized() {
    assert_eq!(Session::new(), Session::Uninitialized);
}

#[test]
fn startup_without_a_stored_baseline_serves_with_the_sensor_default() {
    let mut session = Session::new();
    let actions = run(
        &mut session,
        &[Event::Start, Event::BusOpened, Event::SensorInitialized, Event::BaselineLoaded(None)],
    );
    assert_eq!(
        actions,
        vec![Action::OpenBus, Action::InitSensor, Action::LoadBaseline, Action::Serve]
    );
    assert_eq!(session, Session::Ready);
}

#[test]
fn startup_with_a_stored_baseline_restores_it_before_serving() {
    let mut session = Session::new();
    let actions = run(
        &mut session,
        &[
            Event::Start,
            Event::BusOpened,
            Event::SensorInitialized,
            Event::BaselineLoaded(Some(STORED)),
        ],
    );
    assert_eq!(
        actions,
        vec![
            Action::OpenBus,
            Action::InitSensor,
            Action::LoadBaseline,
            Action::RestoreBaseline(STORED)
        ]
    );
    assert_eq!(session, Session::Initializing(InitStep::RestoreBaseline));
    assert_eq!(session.handle(Event::Request(None)), Action::Busy);
    assert_eq!(session.handle(Event::BaselineRestored), Action::Serve);
    assert_eq!(session, Session::Ready);
}

#[test]
fn startup_with_a_corrupt_baseline_fails_fast() {
    let mut session = Session::new();
    let actions = run(
        &mut session,
        &[Event::Start, Event::BusOpened, Event::SensorInitialized, Event::BaselineCorrupt],
    );
    assert_eq!(actions[3], Action::Abort(SensorError::BaselineCorrupt));
    assert_eq!(session, Session::Failed(SensorError::BaselineCorrupt));
    assert_eq!(session.handle(Event::Request(None)), Action::Abort(SensorError::BaselineCorrupt));
    assert_eq!(
        session.handle(Event::BaselineLoaded(None)),
        Action::Abort(SensorError::BaselineCorrupt)
    );
    assert_eq!(session.handle(Event::Start), Action::Abort(SensorError::BaselineCorrupt));
    assert_eq!(session, Session::Failed(SensorError::BaselineCorrupt));
}

#[test]
fn a_bus_that_cannot_be_opened_is_fatal() {
    let mut session = Session::new();
    let actions = run(&mut session, &[Event::Start, Event::BusFailed]);
    assert_eq!(actions, vec![Action::OpenBus, Action::Abort(SensorError::BusError)]);
    assert_eq!(session, Session::Failed(SensorError::BusError));
}

#[test]
fn a_rejected_init_sequence_is_fatal() {
    let mut session = Session::new();
    let actions = run(&mut session, &[Event::Start, Event::BusOpened, Event::BusFailed]);
    assert_eq!(actions[2], Action::Abort(SensorError::BusError));
    assert_eq!(session, Session::Failed(SensorError::BusError));
}

#[test]
fn a_baseline_that_the_sensor_does_not_take_is_fatal() {
    let mut session = Session::new();
    let actions = run(
        &mut session,
        &[
            Event::Start,
            Event::BusOpened,
            Event::SensorInitialized,
            Event::BaselineLoaded(Some(STORED)),
            Event::BusFailed,
        ],
    );
    assert_eq!(actions[4], Action::Abort(SensorError::BusError));
    assert_eq!(session, Session::Failed(SensorError::BusError));
}

#[test]
fn startup_takes_its_steps_in_order_only() {
    let mut session = Session::new();
    assert_eq!(session.handle(Event::BusOpened), Action::Ignore);
    assert_eq!(session.handle(Event::BusFailed), Action::Ignore);
    assert_eq!(session.handle(Event::Request(None)), Action::Busy);
    assert_eq!(session, Session::Uninitialized);
    assert_eq!(session.handle(Event::Start), Action::OpenBus);
    assert_eq!(session.handle(Event::Start), Action::Ignore);
    assert_eq!(session.handle(Event::SensorInitialized), Action::Ignore);
    assert_eq!(session.handle(Event::BaselineLoaded(None)), Action::Ignore);
    assert_eq!(session.handle(Event::BaselineCorrupt), Action::Ignore);
    assert_eq!(session, Session::Initializing(InitStep::OpenBus));
    run(&mut session, &[Event::BusOpened, Event::SensorInitialized]);
    assert_eq!(session.handle(Event::BusFailed), Action::Ignore);
    assert_eq!(session, Session::Initializing(InitStep::LoadBaseline));
}

#[test]
fn a_cycle_without_humidity_reads_saves_and_measures() {
    let mut session = ready();
    let actions = run(
        &mut session,
        &[
            Event::Request(None),
            Event::BaselineRead(DRIFTED),
            Event::BaselineSaved(true),
            Event::Measured { co2eq: 412, tvoc: 3 },
            Event::RawMeasured { h2: 13_500, ethanol: 19_200 },
        ],
    );
    assert_eq!(
        actions,
        vec![
            Action::ReadBaseline,
            Action::SaveBaseline(DRIFTED),
            Action::Measure,
            Action::MeasureRaw,
            Action::Deliver {
                reading: Reading { co2: 412, tvoc: 3, h2: 13_500, etha: 19_200 },
                baseline_saved: true
            },
        ]
    );
    assert_eq!(actions[4].warning(), None);
    assert_eq!(session, Session::Ready);
}

#[test]
fn a_cycle_with_humidity_compensates_after_saving_and_before_measuring() {
    let mut session = ready();
    let actions = run(
        &mut session,
        &[
            Event::Request(Some(HUMID)),
            Event::BaselineRead(DRIFTED),
            Event::BaselineSaved(true),
            Event::HumiditySet,
            Event::Measured { co2eq: 400, tvoc: 0 },
            Event::RawMeasured { h2: 1, ethanol: 2 },
        ],
    );
    assert_eq!(
        actions,
        vec![
            Action::ReadBaseline,
            Action::SaveBaseline(DRIFTED),
            Action::SetHumidity(HUMID),
            Action::Measure,
            Action::MeasureRaw,
            Action::Deliver {
                reading: Reading { co2: 400, tvoc: 0, h2: 1, etha: 2 },
                baseline_saved: true
            },
        ]
    );
    assert_eq!(session, Session::Ready);
}

#[test]
fn a_baseline_that_cannot_be_stored_does_not_stop_the_cycle() {
    let mut session = ready();
    let actions = run(
        &mut session,
        &[
            Event::Request(Some(HUMID)),
            Event::BaselineRead(DRIFTED),
            Event::BaselineSaved(false),
            Event::HumiditySet,
            Event::Measured { co2eq: 900, tvoc: 120 },
            Event::RawMeasured { h2: 7, ethanol: 8 },
        ],
    );
    assert_eq!(actions[2], Action::SetHumidity(HUMID));
    let delivered = actions[5];
    assert_eq!(
        delivered,
        Action::Deliver {
            reading: Reading { co2: 900, tvoc: 120, h2: 7, etha: 8 },
            baseline_saved: false
        }
    );
    assert_eq!(delivered.warning(), Some(SensorError::BaselinePersistFailure));
    assert_eq!(session, Session::Ready);
}

#[test]
fn only_a_delivery_without_a_stored_baseline_carries_a_warning() {
    assert_eq!(Action::Measure.warning(), None);
    assert_eq!(Action::Fail(SensorError::BusError).warning(), None);
    assert_eq!(Action::Abort(SensorError::BaselineCorrupt).warning(), None);
}

#[test]
fn a_bus_failure_ends_the_cycle_and_leaves_the_session_ready() {
    let before_failure: [&[Event]; 4] = [
        &[Event::Request(Some(HUMID))],
        &[Event::Request(Some(HUMID)), Event::BaselineRead(DRIFTED), Event::BaselineSaved(true)],
        &[
            Event::Request(Some(HUMID)),
            Event::BaselineRead(DRIFTED),
            Event::BaselineSaved(true),
            Event::HumiditySet,
        ],
        &[
            Event::Request(None),
            Event::BaselineRead(DRIFTED),
            Event::BaselineSaved(true),
            Event::Measured { co2eq: 1, tvoc: 2 },
        ],
    ];
    for events in before_failure {
        let mut session = ready();
        run(&mut session, events);
        assert!(matches!(session, Session::Measuring(_)));
        assert_eq!(session.handle(Event::BusFailed), Action::Fail(SensorError::BusError));
        assert_eq!(session, Session::Ready);
        assert_eq!(session.handle(Event::Request(None)), Action::ReadBaseline);
    }
}

#[test]
fn the_store_is_not_the_bus() {
    let mut session = ready();
    run(&mut session, &[Event::Request(None), Event::BaselineRead(DRIFTED)]);
    assert_eq!(session.handle(Event::BusFailed), Action::Ignore);
    assert_eq!(session, Session::Measuring(Cycle::SaveBaseline { humidity: None }));
}

#[test]
fn two_requests_at_once_are_served_one_after_the_other() {
    let mut session = ready();
    let mut bus: Vec<(char, Action)> = Vec::new();
    // the first client takes the sensor
    bus.push(('a', session.handle(Event::Request(None))));
    // the second client arrives and has to wait, however often it asks
    assert_eq!(session.handle(Event::Request(Some(HUMID))), Action::Busy);
    bus.push(('a', session.handle(Event::BaselineRead(DRIFTED))));
    assert_eq!(session.handle(Event::Request(Some(HUMID))), Action::Busy);
    bus.push(('a', session.handle(Event::BaselineSaved(true))));
    assert_eq!(session.handle(Event::Request(Some(HUMID))), Action::Busy);
    bus.push(('a', session.handle(Event::Measured { co2eq: 410, tvoc: 1 })));
    assert_eq!(session.handle(Event::Request(Some(HUMID))), Action::Busy);
    bus.push(('a', session.handle(Event::RawMeasured { h2: 5, ethanol: 6 })));
    // the sensor is free: the second client is served, with its own humidity
    bus.push(('b', session.handle(Event::Request(Some(HUMID)))));
    bus.push(('b', session.handle(Event::BaselineRead(DRIFTED))));
    bus.push(('b', session.handle(Event::BaselineSaved(true))));
    bus.push(('b', session.handle(Event::HumiditySet)));
    bus.push(('b', session.handle(Event::Measured { co2eq: 411, tvoc: 2 })));
    bus.push(('b', session.handle(Event::RawMeasured { h2: 7, ethanol: 8 })));
    let owners: String = bus.iter().map(|(owner, _)| *owner).collect();
    assert_eq!(owners, "aaaaabbbbbb");
    assert_eq!(
        bus[4].1,
        Action::Deliver {
            reading: Reading { co2: 410, tvoc: 1, h2: 5, etha: 6 },
            baseline_saved: true
        }
    );
    assert_eq!(bus[5].1, Action::ReadBaseline);
    assert_eq!(bus[7].1, Action::SetHumidity(HUMID));
    assert_eq!(
        bus[10].1,
        Action::Deliver {
            reading: Reading { co2: 411, tvoc: 2, h2: 7, etha: 8 },
            baseline_saved: true
        }
    );
    assert_eq!(session, Session::Ready);
}

#[test]
fn a_cycle_ignores_what_it_does_not_wait_for() {
    let mut session = ready();
    assert_eq!(session.handle(Event::Measured { co2eq: 1, tvoc: 1 }), Action::Ignore);
    assert_eq!(session.handle(Event::BusFailed), Action::Ignore);
    assert_eq!(session.handle(Event::Start), Action::Ignore);
    assert_eq!(session, Session::Ready);
    session.handle(Event::Request(None));
    let waiting = session;
    assert_eq!(session.handle(Event::BaselineSaved(true)), Action::Ignore);
    assert_eq!(session.handle(Event::HumiditySet), Action::Ignore);
    assert_eq!(session.handle(Event::RawMeasured { h2: 1, ethanol: 1 }), Action::Ignore);
    assert_eq!(session.handle(Event::BaselineLoaded(Some(STORED))), Action::Ignore);
    assert_eq!(session, waiting);
}

#[test]
fn a_zero_humidity_is_pushed_like_any_other() {
    let zero = HumidityEncoding { integer: 0, fractional: 0 };
    let mut session = ready();
    let actions = run(
        &mut session,
        &[Event::Request(Some(zero)), Event::BaselineRead(DRIFTED), Event::BaselineSaved(true)],
    );
    assert_eq!(actions[2], Action::SetHumidity(zero));
}

#[test]
fn the_steps_of_a_cycle_can_be_taken_one_by_one() {
    let cycle = Cycle::ReadBaseline { humidity: Some(HUMID) };
    let (next, action) = cycle.advance(Event::BaselineRead(STORED));
    assert_eq!(next, Some(Cycle::SaveBaseline { humidity: Some(HUMID) }));
    assert_eq!(action, Action::SaveBaseline(STORED));
    let (next, action) = Cycle::MeasureRaw { saved: true, co2: 1, tvoc: 2 }
        .advance(Event::RawMeasured { h2: 3, ethanol: 4 });
    assert_eq!(next, None);
    assert_eq!(
        action,
        Action::Deliver { reading: Reading { co2: 1, tvoc: 2, h2: 3, etha: 4 }, baseline_saved: true }
    );
    assert_eq!(
        InitStep::LoadBaseline.advance(Event::BaselineLoaded(None)),
        (Session::Ready, Action::Serve)
    );
}
