//! Values of the `sgp30` driver that the station builds for it.

use vstd::prelude::*;
use sgp30::Humidity;
use crate::humidity::HumidityEncoding;

verus! {

/// `sgp30::Humidity`, the driver's absolute humidity.
#[verifier::external_type_specification]
#[verifier::external_body]
pub struct ExHumidity(sgp30::Humidity);

/// The two bytes that a driver humidity holds, whole part first.
pub uninterp spec fn humidity_bytes(humidity: Humidity) -> Seq<u8>;

/// Calls `sgp30::Humidity::new`, which refuses the pair of two zeros and
/// nothing else; the value it builds holds the two bytes as they were
/// given. Its error type cannot be named outside the driver, so a refusal
/// comes back as `None`.
#[verifier::external_body]
fn new_humidity(integer: u8, fractional: u8) -> (r: Option<Humidity>)
    ensures
        r is Some <==> !(integer == 0 && fractional == 0),
        r is Some ==> humidity_bytes(r->Some_0) == seq![integer, fractional],
{
    Humidity::new(integer, fractional).ok()
}

/// The humidity to set in the driver for `encoding`. The driver has no
/// value for an encoding of zero: it sends zero when it is handed none.
pub fn compensation_value(encoding: HumidityEncoding) -> (r: Option<Humidity>)
    ensures
        r is None <==> encoding.is_zero(),
        r is Some ==> humidity_bytes(r->Some_0) == seq![encoding.integer, encoding.fractional],
{
    new_humidity(encoding.integer, encoding.fractional)
}

} // verus!
