//! What a client's query asks for.

use vstd::prelude::*;

verus! {

/// The pair to compensate with: both parameters if both were given, and
/// nothing if either is missing.
pub open spec fn paired<T>(temp: Option<T>, humidity: Option<T>) -> Option<(T, T)> {
    match (temp, humidity) {
        (Some(t), Some(h)) => Some((t, h)),
        _ => None,
    }
}

/// Decides whether a request carries a humidity input. A temperature
/// without a humidity, or a humidity without a temperature, is no input:
/// the sensor is never given half a pair.
pub fn humidity_input(temp: Option<String>, humidity: Option<String>) -> (r: Option<
    (String, String),
>)
    ensures
        r == paired(temp, humidity),
{
    match temp {
        Some(t) => match humidity {
            Some(h) => Some((t, h)),
            None => None,
        },
        None => None,
    }
}

/// A request with one parameter is treated as a request with none.
pub proof fn lemma_half_a_pair_is_none<T>(temp: Option<T>, humidity: Option<T>)
    requires
        temp is None || humidity is None,
    ensures
        paired(temp, humidity) == paired::<T>(None, None),
        paired(temp, humidity) is None,
{
}

} // verus!
