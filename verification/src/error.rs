//! The ways in which the station can fail.

use vstd::prelude::*;

verus! {

/// What went wrong while preparing or running a measurement.
#[derive(Clone, Copy, Debug, PartialEq, Eq, Structural)]
pub enum SensorError {
    /// A temperature or humidity handed in by the client cannot be used.
    MalformedInput,
    /// The bus could not be opened, or a transfer with the sensor failed.
    BusError,
    /// A stored baseline record exists but cannot be read back.
    BaselineCorrupt,
    /// The baseline record could not be written.
    BaselinePersistFailure,
}

impl SensorError {
    /// Whether the station has to stop when this error shows up during start-up.
    pub open spec fn fatal_at_startup(self) -> bool {
        self is BusError || self is BaselineCorrupt
    }

    /// Whether the client is to blame: its input was refused before the
    /// sensor was touched.
    pub open spec fn is_client_error(self) -> bool {
        self is MalformedInput
    }

    /// The HTTP status to answer with: 400 for what the client sent, 500
    /// for what went wrong on the station's side.
    pub fn status_code(&self) -> (code: u16)
        ensures
            code == if self.is_client_error() { 400u16 } else { 500u16 },
    {
        match self {
            SensorError::MalformedInput => 400,
            _ => 500,
        }
    }

    /// A short description for logs and responses.
    pub fn describe(&self) -> (text: &'static str)
        ensures
            text@ == match *self {
                SensorError::MalformedInput => "malformed temperature or humidity"@,
                SensorError::BusError => "sensor bus transfer failed"@,
                SensorError::BaselineCorrupt => "stored baseline is corrupt"@,
                SensorError::BaselinePersistFailure => "baseline could not be stored"@,
            },
    {
        match self {
            SensorError::MalformedInput => "malformed temperature or humidity",
            SensorError::BusError => "sensor bus transfer failed",
            SensorError::BaselineCorrupt => "stored baseline is corrupt",
            SensorError::BaselinePersistFailure => "baseline could not be stored",
        }
    }
}

} // verus!
