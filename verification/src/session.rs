//! The life of the sensor session: start-up, then one measurement cycle at
//! a time.
//!
//! The session decides; the caller acts. Each call of [`Session::handle`]
//! takes the outcome of the last action as an [`Event`] and answers with the
//! next [`Action`]. The sensor is touched only by actions, so whoever holds
//! the session holds the bus.

use vstd::prelude::*;
use crate::air_quality::Reading;
use crate::baseline::{MyBaseline, Stored};
use crate::error::SensorError;
use crate::humidity::HumidityEncoding;

verus! {

/// The steps of start-up, in their order.
#[derive(Clone, Copy, Debug, PartialEq, Eq, Structural)]
pub enum InitStep {
    /// The bus device is being opened.
    OpenBus,
    /// The sensor runs its init sequence.
    InitSensor,
    /// The stored baseline is being looked up.
    LoadBaseline,
    /// A stored baseline is being pushed into the sensor.
    RestoreBaseline,
}

/// Where a measurement cycle stands, with what it has gathered so far.
#[derive(Clone, Copy, Debug, PartialEq, Eq, Structural)]
pub enum Cycle {
    /// The sensor's current baseline is being read.
    ReadBaseline { humidity: Option<HumidityEncoding> },
    /// The baseline just read is being stored.
    SaveBaseline { humidity: Option<HumidityEncoding> },
    /// The humidity compensation is being pushed into the sensor.
    SetHumidity { saved: bool },
    /// The air-quality measurement is running.
    Measure { saved: bool },
    /// The raw-signal measurement is running.
    MeasureRaw { saved: bool, co2: u16, tvoc: u16 },
}

/// The session's state.
#[derive(Clone, Copy, Debug, PartialEq, Eq, Structural)]
pub enum Session {
    /// Nothing has happened yet.
    Uninitialized,
    /// Start-up is under way.
    Initializing(InitStep),
    /// The sensor is initialised and idle.
    Ready,
    /// A measurement cycle is in flight.
    Measuring(Cycle),
    /// Start-up failed; the session serves nothing.
    Failed(SensorError),
}

/// What the caller reports.
#[derive(Clone, Copy, Debug, PartialEq, Eq, Structural)]
pub enum Event {
    /// The process starts.
    Start,
    /// The bus device is open.
    BusOpened,
    /// The sensor accepted its init sequence.
    SensorInitialized,
    /// The store was read: it holds this record, or none yet.
    BaselineLoaded(Option<MyBaseline>),
    /// The store holds something that is no record.
    BaselineCorrupt,
    /// The sensor took the stored baseline.
    BaselineRestored,
    /// Opening the bus or a transfer on it failed.
    BusFailed,
    /// A client asks for a measurement, with the humidity to compensate
    /// for if it gave one.
    Request(Option<HumidityEncoding>),
    /// The sensor reported its current baseline.
    BaselineRead(MyBaseline),
    /// The store answered the write: `true` if the record was written.
    BaselineSaved(bool),
    /// The sensor took the humidity.
    HumiditySet,
    /// The air-quality measurement came back.
    Measured { co2eq: u16, tvoc: u16 },
    /// The raw-signal measurement came back.
    RawMeasured { h2: u16, ethanol: u16 },
}

/// What the caller is to do next.
#[derive(Clone, Copy, Debug, PartialEq, Eq, Structural)]
pub enum Action {
    /// Open the bus device.
    OpenBus,
    /// Run the sensor's init sequence.
    InitSensor,
    /// Look up the stored baseline.
    LoadBaseline,
    /// Push this baseline into the sensor.
    RestoreBaseline(MyBaseline),
    /// Start-up is complete: serve requests.
    Serve,
    /// Start-up failed: stop the process.
    Abort(SensorError),
    /// Read the sensor's current baseline.
    ReadBaseline,
    /// Store this baseline, replacing what was stored.
    SaveBaseline(MyBaseline),
    /// Push this humidity into the sensor.
    SetHumidity(HumidityEncoding),
    /// Run the air-quality measurement.
    Measure,
    /// Run the raw-signal measurement.
    MeasureRaw,
    /// The cycle is complete: let go of the sensor and answer with this
    /// reading. `baseline_saved` is `false` if the store refused the write.
    Deliver { reading: Reading, baseline_saved: bool },
    /// The cycle is over without a reading: let go of the sensor and answer
    /// with this error.
    Fail(SensorError),
    /// The sensor is taken: wait and ask again.
    Busy,
    /// The event fits nothing the session waits for; nothing changed.
    Ignore,
}

impl Event {
    /// The event that reports what was found in the store: a baseline or
    /// none, or a store that is corrupt.
    pub open spec fn of_stored(stored: Stored) -> Event {
        match stored.baseline() {
            Ok(found) => Event::BaselineLoaded(found),
            Err(_) => Event::BaselineCorrupt,
        }
    }

    /// Reports what was found in the store.
    pub fn loaded(stored: Stored) -> (event: Event)
        ensures
            event == Event::of_stored(stored),
    {
        match stored.load() {
            Ok(found) => Event::BaselineLoaded(found),
            Err(_) => Event::BaselineCorrupt,
        }
    }
}

impl Action {
    /// What the store's refusal looks like to the client: a delivered
    /// reading whose baseline was not stored carries a warning and is a
    /// reading all the same.
    pub open spec fn store_warning(self) -> Option<SensorError> {
        match self {
            Action::Deliver { baseline_saved: false, .. } => Some(
                SensorError::BaselinePersistFailure,
            ),
            _ => None,
        }
    }

    /// The failure to report beside the reading, if the baseline could not
    /// be stored during the cycle.
    pub fn warning(&self) -> (r: Option<SensorError>)
        ensures
            r == self.store_warning(),
    {
        match self {
            Action::Deliver { baseline_saved, .. } => if *baseline_saved {
                None
            } else {
                Some(SensorError::BaselinePersistFailure)
            },
            _ => None,
        }
    }
}

impl Cycle {
    /// Whether the session waits for a transfer on the bus.
    pub open spec fn awaits_bus(self) -> bool {
        !(self is SaveBaseline)
    }

    /// How many actions are still to come before the cycle can deliver.
    pub open spec fn actions_left(self) -> nat {
        match self {
            Cycle::ReadBaseline { humidity } => if humidity is Some { 5 } else { 4 },
            Cycle::SaveBaseline { humidity } => if humidity is Some { 4 } else { 3 },
            Cycle::SetHumidity { .. } => 3,
            Cycle::Measure { .. } => 2,
            Cycle::MeasureRaw { .. } => 1,
        }
    }

    /// The cycle after `event`, with the action to take: every awaited
    /// outcome moves the cycle on, a bus failure ends it, anything else is
    /// ignored. `None` as the next cycle means that the cycle is over.
    pub open spec fn step(self, event: Event) -> (Option<Cycle>, Action) {
        match (self, event) {
            (Cycle::ReadBaseline { humidity }, Event::BaselineRead(baseline)) => (
                Some(Cycle::SaveBaseline { humidity }),
                Action::SaveBaseline(baseline),
            ),
            (Cycle::SaveBaseline { humidity: Some(encoding) }, Event::BaselineSaved(saved)) => (
                Some(Cycle::SetHumidity { saved }),
                Action::SetHumidity(encoding),
            ),
            (Cycle::SaveBaseline { humidity: None }, Event::BaselineSaved(saved)) => (
                Some(Cycle::Measure { saved }),
                Action::Measure,
            ),
            (Cycle::SetHumidity { saved }, Event::HumiditySet) => (
                Some(Cycle::Measure { saved }),
                Action::Measure,
            ),
            (Cycle::Measure { saved }, Event::Measured { co2eq, tvoc }) => (
                Some(Cycle::MeasureRaw { saved, co2: co2eq, tvoc }),
                Action::MeasureRaw,
            ),
            (Cycle::MeasureRaw { saved, co2, tvoc }, Event::RawMeasured { h2, ethanol }) => (
                None,
                Action::Deliver {
                    reading: Reading { co2, tvoc, h2, etha: ethanol },
                    baseline_saved: saved,
                },
            ),
            (_, Event::BusFailed) => if self.awaits_bus() {
                (None, Action::Fail(SensorError::BusError))
            } else {
                (Some(self), Action::Ignore)
            },
            (_, Event::Request(_)) => (Some(self), Action::Busy),
            _ => (Some(self), Action::Ignore),
        }
    }

    /// Moves the cycle on by one event.
    pub fn advance(self, event: Event) -> (r: (Option<Cycle>, Action))
        ensures
            r == self.step(event),
    {
        match event {
            Event::Request(_) => (Some(self), Action::Busy),
            Event::BusFailed => match self {
                Cycle::SaveBaseline { .. } => (Some(self), Action::Ignore),
                _ => (None, Action::Fail(SensorError::BusError)),
            },
            Event::BaselineRead(baseline) => match self {
                Cycle::ReadBaseline { humidity } => (
                    Some(Cycle::SaveBaseline { humidity }),
                    Action::SaveBaseline(baseline),
                ),
                _ => (Some(self), Action::Ignore),
            },
            Event::BaselineSaved(saved) => match self {
                Cycle::SaveBaseline { humidity } => match humidity {
                    Some(encoding) => (
                        Some(Cycle::SetHumidity { saved }),
                        Action::SetHumidity(encoding),
                    ),
                    None => (Some(Cycle::Measure { saved }), Action::Measure),
                },
                _ => (Some(self), Action::Ignore),
            },
            Event::HumiditySet => match self {
                Cycle::SetHumidity { saved } => (Some(Cycle::Measure { saved }), Action::Measure),
                _ => (Some(self), Action::Ignore),
            },
            Event::Measured { co2eq, tvoc } => match self {
                Cycle::Measure { saved } => (
                    Some(Cycle::MeasureRaw { saved, co2: co2eq, tvoc }),
                    Action::MeasureRaw,
                ),
                _ => (Some(self), Action::Ignore),
            },
            Event::RawMeasured { h2, ethanol } => match self {
                Cycle::MeasureRaw { saved, co2, tvoc } => (
                    None,
                    Action::Deliver {
                        reading: Reading { co2, tvoc, h2, etha: ethanol },
                        baseline_saved: saved,
                    },
                ),
                _ => (Some(self), Action::Ignore),
            },
            _ => (Some(self), Action::Ignore),
        }
    }
}

impl InitStep {
    /// Whether start-up waits for the bus at this step.
    pub open spec fn awaits_bus(self) -> bool {
        !(self is LoadBaseline)
    }

    /// The session after `event`, with the action to take. Start-up goes
    /// through its steps in order; a missing baseline is no fault, a corrupt
    /// one and any bus failure are fatal.
    pub open spec fn step(self, event: Event) -> (Session, Action) {
        match (self, event) {
            (InitStep::OpenBus, Event::BusOpened) => (
                Session::Initializing(InitStep::InitSensor),
                Action::InitSensor,
            ),
            (InitStep::InitSensor, Event::SensorInitialized) => (
                Session::Initializing(InitStep::LoadBaseline),
                Action::LoadBaseline,
            ),
            (InitStep::LoadBaseline, Event::BaselineLoaded(Some(baseline))) => (
                Session::Initializing(InitStep::RestoreBaseline),
                Action::RestoreBaseline(baseline),
            ),
            (InitStep::LoadBaseline, Event::BaselineLoaded(None)) => (Session::Ready, Action::Serve),
            (InitStep::LoadBaseline, Event::BaselineCorrupt) => (
                Session::Failed(SensorError::BaselineCorrupt),
                Action::Abort(SensorError::BaselineCorrupt),
            ),
            (InitStep::RestoreBaseline, Event::BaselineRestored) => (Session::Ready, Action::Serve),
            (_, Event::BusFailed) => if self.awaits_bus() {
                (Session::Failed(SensorError::BusError), Action::Abort(SensorError::BusError))
            } else {
                (Session::Initializing(self), Action::Ignore)
            },
            (_, Event::Request(_)) => (Session::Initializing(self), Action::Busy),
            _ => (Session::Initializing(self), Action::Ignore),
        }
    }

    /// Moves start-up on by one event.
    pub fn advance(self, event: Event) -> (r: (Session, Action))
        ensures
            r == self.step(event),
    {
        let stay = Session::Initializing(self);
        match event {
            Event::Request(_) => (stay, Action::Busy),
            Event::BusFailed => match self {
                InitStep::LoadBaseline => (stay, Action::Ignore),
                _ => (Session::Failed(SensorError::BusError), Action::Abort(SensorError::BusError)),
            },
            Event::BusOpened => match self {
                InitStep::OpenBus => (
                    Session::Initializing(InitStep::InitSensor),
                    Action::InitSensor,
                ),
                _ => (stay, Action::Ignore),
            },
            Event::SensorInitialized => match self {
                InitStep::InitSensor => (
                    Session::Initializing(InitStep::LoadBaseline),
                    Action::LoadBaseline,
                ),
                _ => (stay, Action::Ignore),
            },
            Event::BaselineLoaded(found) => match self {
                InitStep::LoadBaseline => match found {
                    Some(baseline) => (
                        Session::Initializing(InitStep::RestoreBaseline),
                        Action::RestoreBaseline(baseline),
                    ),
                    None => (Session::Ready, Action::Serve),
                },
                _ => (stay, Action::Ignore),
            },
            Event::BaselineCorrupt => match self {
                InitStep::LoadBaseline => (
                    Session::Failed(SensorError::BaselineCorrupt),
                    Action::Abort(SensorError::BaselineCorrupt),
                ),
                _ => (stay, Action::Ignore),
            },
            Event::BaselineRestored => match self {
                InitStep::RestoreBaseline => (Session::Ready, Action::Serve),
                _ => (stay, Action::Ignore),
            },
            _ => (stay, Action::Ignore),
        }
    }
}

impl Session {
    /// Whether a measurement cycle holds the sensor.
    pub open spec fn in_flight(self) -> bool {
        self is Measuring
    }

    /// A failed session names an error that is fatal at start-up.
    pub open spec fn well_formed(self) -> bool {
        self matches Session::Failed(error) ==> error.fatal_at_startup()
    }

    /// The session after `event`, with the action to take.
    pub open spec fn step(self, event: Event) -> (Session, Action) {
        match self {
            Session::Uninitialized => match event {
                Event::Start => (Session::Initializing(InitStep::OpenBus), Action::OpenBus),
                Event::Request(_) => (self, Action::Busy),
                _ => (self, Action::Ignore),
            },
            Session::Initializing(at) => at.step(event),
            Session::Ready => match event {
                Event::Request(humidity) => (
                    Session::Measuring(Cycle::ReadBaseline { humidity }),
                    Action::ReadBaseline,
                ),
                _ => (self, Action::Ignore),
            },
            Session::Measuring(cycle) => match cycle.step(event).0 {
                Some(next) => (Session::Measuring(next), cycle.step(event).1),
                None => (Session::Ready, cycle.step(event).1),
            },
            Session::Failed(error) => (self, Action::Abort(error)),
        }
    }

    /// A session on which nothing has happened yet.
    pub fn new() -> (session: Session)
        ensures
            session == Session::Uninitialized,
    {
        Session::Uninitialized
    }

    /// Takes the outcome of the last action and answers with the next one.
    pub fn handle(&mut self, event: Event) -> (action: Action)
        ensures
            (*final(self), action) == old(self).step(event),
            old(self).well_formed() ==> final(self).well_formed(),
    {
        let (next, action) = match *self {
            Session::Uninitialized => match event {
                Event::Start => (Session::Initializing(InitStep::OpenBus), Action::OpenBus),
                Event::Request(_) => (Session::Uninitialized, Action::Busy),
                _ => (Session::Uninitialized, Action::Ignore),
            },
            Session::Initializing(at) => at.advance(event),
            Session::Ready => match event {
                Event::Request(humidity) => (
                    Session::Measuring(Cycle::ReadBaseline { humidity }),
                    Action::ReadBaseline,
                ),
                _ => (Session::Ready, Action::Ignore),
            },
            Session::Measuring(cycle) => {
                let (rest, action) = cycle.advance(event);
                match rest {
                    Some(next) => (Session::Measuring(next), action),
                    None => (Session::Ready, action),
                }
            },
            Session::Failed(error) => (Session::Failed(error), Action::Abort(error)),
        };
        *self = next;
        action
    }
}

} // verus!
