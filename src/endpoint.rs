use vstd::prelude::*;

use crate::convert::{celcius_of, fahrenheit_of, kelvin_to_celcius, kelvin_to_fahrenheit};
use crate::error::Error;

verus! {

/// The body of a successful response: both temperatures in thousandths of
/// the endpoint's unit.
#[derive(Clone, Copy, Debug, PartialEq, Eq, Structural)]
pub struct Reading {
    pub sky_temperature: i64,
    pub ambient_temperature: i64,
}

/// The response of the Kelvin endpoint to the outcome of a bus reading.
pub open spec fn kelvin_response(res: Result<(u32, u32), Error>) -> Result<Reading, Error> {
    match res {
        Ok((sky, ambient)) => Ok(
            Reading { sky_temperature: sky as i64, ambient_temperature: ambient as i64 },
        ),
        Err(e) => Err(e),
    }
}

/// The response of the Celsius endpoint to the outcome of a bus reading.
pub open spec fn celcius_response(res: Result<(u32, u32), Error>) -> Result<Reading, Error> {
    match res {
        Ok((sky, ambient)) => Ok(
            Reading {
                sky_temperature: celcius_of(sky as int) as i64,
                ambient_temperature: celcius_of(ambient as int) as i64,
            },
        ),
        Err(e) => Err(e),
    }
}

/// The response of the Fahrenheit endpoint to the outcome of a bus reading.
pub open spec fn fahrenheit_response(res: Result<(u32, u32), Error>) -> Result<Reading, Error> {
    match res {
        Ok((sky, ambient)) => Ok(
            Reading {
                sky_temperature: fahrenheit_of(sky as int) as i64,
                ambient_temperature: fahrenheit_of(ambient as int) as i64,
            },
        ),
        Err(e) => Err(e),
    }
}

/// Answers a request for the temperatures in millikelvin, given the outcome
/// of the bus reading (sky, ambient). A failure passes through unchanged.
pub fn get_kelvin(res: Result<(u32, u32), Error>) -> (r: Result<Reading, Error>)
    ensures
        r == kelvin_response(res),
        r is Err <==> res is Err,
{
    match res {
        Ok((sky, ambient)) => Ok(
            Reading { sky_temperature: sky as i64, ambient_temperature: ambient as i64 },
        ),
        Err(e) => Err(e),
    }
}

/// Answers a request for the temperatures in millidegrees Celsius, given the
/// outcome of the bus reading in millikelvin. A failure passes through
/// unchanged.
pub fn get_celcius(res: Result<(u32, u32), Error>) -> (r: Result<Reading, Error>)
    ensures
        r == celcius_response(res),
        r is Err <==> res is Err,
{
    match res {
        Ok((sky, ambient)) => Ok(
            Reading {
                sky_temperature: kelvin_to_celcius(sky),
                ambient_temperature: kelvin_to_celcius(ambient),
            },
        ),
        Err(e) => Err(e),
    }
}

/// Answers a request for the temperatures in millidegrees Fahrenheit, given
/// the outcome of the bus reading in millikelvin. A failure passes through
/// unchanged.
pub fn get_fahrenheit(res: Result<(u32, u32), Error>) -> (r: Result<Reading, Error>)
    ensures
        r == fahrenheit_response(res),
        r is Err <==> res is Err,
{
    match res {
        Ok((sky, ambient)) => Ok(
            Reading {
                sky_temperature: kelvin_to_fahrenheit(sky),
                ambient_temperature: kelvin_to_fahrenheit(ambient),
            },
        ),
        Err(e) => Err(e),
    }
}

} // verus!
