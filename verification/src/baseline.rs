//! The calibration record that outlives a restart, and what may be found in
//! its place.

use vstd::prelude::*;
use crate::error::SensorError;

verus! {

/// The sensor's baseline: the two values its adaptive algorithm keeps, and
/// all that is stored of it.
#[derive(Clone, Copy, Debug, PartialEq, Eq, Structural)]
pub struct MyBaseline {
    /// Baseline of the CO₂-equivalent signal.
    pub co2eq: u16,
    /// Baseline of the TVOC signal.
    pub tvoc: u16,
}

/// What the place of the stored baseline held when it was looked up.
#[derive(Clone, Copy, Debug, PartialEq, Eq, Structural)]
pub enum Stored {
    /// No record has been written yet.
    Nothing,
    /// Something is there, and it cannot be read.
    Unreadable,
    /// A record was read, with these numbers under its two names; `None`
    /// where a name was missing.
    Fields { co2eq: Option<u64>, tvoc: Option<u64> },
}

/// The field is there and fits the sensor's 16 bits.
pub open spec fn fits(field: Option<u64>) -> bool {
    field matches Some(value) && value <= 0xffff
}

impl MyBaseline {
    /// The record as the two numbers that are stored of it.
    pub open spec fn as_fields(self) -> Stored {
        Stored::Fields { co2eq: Some(self.co2eq as u64), tvoc: Some(self.tvoc as u64) }
    }

    /// The two numbers to store, CO₂-equivalent first.
    pub fn fields(&self) -> (r: (u64, u64))
        ensures
            r.0 == self.co2eq,
            r.1 == self.tvoc,
    {
        (self.co2eq as u64, self.tvoc as u64)
    }

    /// The record made of two stored numbers. A record that lacks one of
    /// them, or holds one that does not fit 16 bits, is corrupt.
    pub fn from_fields(co2eq: Option<u64>, tvoc: Option<u64>) -> (r: Result<
        MyBaseline,
        SensorError,
    >)
        ensures
            fits(co2eq) && fits(tvoc) ==> r == Ok::<MyBaseline, SensorError>(
                MyBaseline { co2eq: co2eq->Some_0 as u16, tvoc: tvoc->Some_0 as u16 },
            ),
            !(fits(co2eq) && fits(tvoc)) ==> r == Err::<MyBaseline, SensorError>(
                SensorError::BaselineCorrupt,
            ),
    {
        match (co2eq, tvoc) {
            (Some(first), Some(second)) => if first <= 0xffff && second <= 0xffff {
                Ok(MyBaseline { co2eq: first as u16, tvoc: second as u16 })
            } else {
                Err(SensorError::BaselineCorrupt)
            },
            _ => Err(SensorError::BaselineCorrupt),
        }
    }
}

impl Stored {
    /// The baseline that this find stands for: none where nothing was
    /// stored, the record where one was read whole, and a corrupt store in
    /// every other case.
    pub open spec fn baseline(self) -> Result<Option<MyBaseline>, SensorError> {
        match self {
            Stored::Nothing => Ok(None),
            Stored::Unreadable => Err(SensorError::BaselineCorrupt),
            Stored::Fields { co2eq, tvoc } => if fits(co2eq) && fits(tvoc) {
                Ok(Some(MyBaseline { co2eq: co2eq->Some_0 as u16, tvoc: tvoc->Some_0 as u16 }))
            } else {
                Err(SensorError::BaselineCorrupt)
            },
        }
    }

    /// Loads the baseline from what was found.
    pub fn load(self) -> (r: Result<Option<MyBaseline>, SensorError>)
        ensures
            r == self.baseline(),
    {
        match self {
            Stored::Nothing => Ok(None),
            Stored::Unreadable => Err(SensorError::BaselineCorrupt),
            Stored::Fields { co2eq, tvoc } => match MyBaseline::from_fields(co2eq, tvoc) {
                Ok(record) => Ok(Some(record)),
                Err(error) => Err(error),
            },
        }
    }
}

/// A record passes through its two fields unharmed: what is loaded from the
/// fields of a record is that record, and storing what was loaded stores
/// the same fields again.
pub proof fn lemma_fields_round_trip(record: MyBaseline)
    ensures
        record.as_fields().baseline() == Ok::<Option<MyBaseline>, SensorError>(Some(record)),
        forall|stored: Stored, loaded: MyBaseline|
            stored.baseline() == Ok::<Option<MyBaseline>, SensorError>(Some(loaded))
                ==> loaded.as_fields() == stored,
{
}

} // verus!
