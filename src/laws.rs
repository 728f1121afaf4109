use vstd::prelude::*;

use crate::convert::{celcius_of, fahrenheit_of, millikelvin_of, raw_of, MAX_MILLIKELVIN};
use crate::endpoint::{celcius_response, fahrenheit_response, kelvin_response, Reading};
use crate::error::{code_of, Error};
use crate::session::{
    answers, next_state, pending, Action, Event, KelvinRead, MLX90614_J1, MLX90614_TA,
};

verus! {

/// Decoding two bytes `[lo, hi]` gives `((hi << 8) | lo) * 0.02` kelvin,
/// exactly: a multiple of 0.02 K between 0 and 1310.7 K.
pub proof fn lemma_decode_exact(b: [u8; 2])
    ensures
        millikelvin_of(b) == 20 * ((((b@[1] as u16) << 8u16) | (b@[0] as u16)) as int),
        0 <= millikelvin_of(b) <= MAX_MILLIKELVIN,
        millikelvin_of(b) % 20 == 0,
{
    let hi: u16 = b@[1] as u16;
    let lo: u16 = b@[0] as u16;
    assert((hi << 8u16) | lo == hi * 256 + lo) by (bit_vector)
        requires
            hi < 256,
            lo < 256,
    ;
}

/// Fahrenheit is `1.8 * celsius + 32`, exactly, for every temperature in
/// millikelvin that is a multiple of 5, and rounded down to a millidegree
/// for the others.
pub proof fn lemma_fahrenheit_formula(k: int)
    ensures
        5 * fahrenheit_of(k) <= 9 * celcius_of(k) + 160000 < 5 * fahrenheit_of(k) + 5,
        k % 5 == 0 ==> 5 * fahrenheit_of(k) == 9 * (k - 273150) + 160000,
{
}

/// Every decoded temperature converts to Fahrenheit with no rounding.
pub proof fn lemma_fahrenheit_exact_on_readings(b: [u8; 2])
    ensures
        5 * fahrenheit_of(millikelvin_of(b)) == 9 * celcius_of(millikelvin_of(b)) + 160000,
        fahrenheit_of(millikelvin_of(b)) == 36 * raw_of(b) - 459670,
{
    lemma_fahrenheit_formula(millikelvin_of(b));
}

/// For one outcome of a bus reading the three endpoints agree: all fail with
/// the same error, or the Celsius and Fahrenheit answers are the Kelvin
/// answer converted.
pub proof fn lemma_endpoints_agree(res: Result<(u32, u32), Error>)
    ensures
        kelvin_response(res) is Err <==> celcius_response(res) is Err,
        kelvin_response(res) is Err <==> fahrenheit_response(res) is Err,
        kelvin_response(res) is Err ==> celcius_response(res) == kelvin_response(res)
            && fahrenheit_response(res) == kelvin_response(res),
        kelvin_response(res) matches Ok(k) ==> celcius_response(res) == Ok::<Reading, Error>(
            Reading {
                sky_temperature: celcius_of(k.sky_temperature as int) as i64,
                ambient_temperature: celcius_of(k.ambient_temperature as int) as i64,
            },
        ),
        kelvin_response(res) matches Ok(k) ==> fahrenheit_response(res) == Ok::<Reading, Error>(
            Reading {
                sky_temperature: fahrenheit_of(k.sky_temperature as int) as i64,
                ambient_temperature: fahrenheit_of(k.ambient_temperature as int) as i64,
            },
        ),
{
}

/// When the bus cannot be opened the reading ends at once with the
/// connection error, numbered 1, and every endpoint answers with it.
pub proof fn lemma_open_failure()
    ensures
        next_state(KelvinRead::AwaitOpen, Event::OpenFailed) == KelvinRead::Done(
            Err(Error::Connection),
        ),
        pending(next_state(KelvinRead::AwaitOpen, Event::OpenFailed)) == Action::Finish(
            Err(Error::Connection),
        ),
        code_of(Error::Connection) == 1,
        kelvin_response(Err(Error::Connection)) == Err::<Reading, Error>(Error::Connection),
        celcius_response(Err(Error::Connection)) == Err::<Reading, Error>(Error::Connection),
        fahrenheit_response(Err(Error::Connection)) == Err::<Reading, Error>(Error::Connection),
{
}

/// When the read of the second register fails, the reading ends with the
/// read error, numbered 2, whatever the first register held: the sky
/// temperature already read is dropped and no endpoint answers with a body.
pub proof fn lemma_second_read_failure(sky: u32)
    ensures
        next_state(KelvinRead::AwaitAmbient { sky }, Event::TransferFailed) == KelvinRead::Done(
            Err(Error::Read),
        ),
        pending(next_state(KelvinRead::AwaitAmbient { sky }, Event::TransferFailed))
            == Action::Finish(Err(Error::Read)),
        code_of(Error::Read) == 2,
        kelvin_response(Err(Error::Read)) == Err::<Reading, Error>(Error::Read),
        celcius_response(Err(Error::Read)) == Err::<Reading, Error>(Error::Read),
        fahrenheit_response(Err(Error::Read)) == Err::<Reading, Error>(Error::Read),
{
}

/// A reading whose bus opens and answers both transactions ends after three
/// events with both decoded temperatures, sky first.
pub proof fn lemma_successful_reading(sky: [u8; 2], ambient: [u8; 2])
    ensures
        ({
            let s1 = next_state(KelvinRead::AwaitOpen, Event::Opened);
            let s2 = next_state(s1, Event::Received(sky));
            let s3 = next_state(s2, Event::Received(ambient));
            &&& pending(s1) == Action::Transact(MLX90614_J1)
            &&& pending(s2) == Action::Transact(MLX90614_TA)
            &&& pending(s3) == Action::Finish(
                Ok((millikelvin_of(sky) as u32, millikelvin_of(ambient) as u32)),
            )
        }),
{
}

/// Whatever the bus answers, a reading is over after at most three events
/// that answer the actions asked for.
pub proof fn lemma_reading_finishes(e1: Event, e2: Event, e3: Event)
    ensures
        ({
            let s1 = next_state(KelvinRead::AwaitOpen, e1);
            let s2 = next_state(s1, e2);
            let s3 = next_state(s2, e3);
            answers(pending(KelvinRead::AwaitOpen), e1) ==> (pending(s1) is Finish || (answers(
                pending(s1),
                e2,
            ) ==> (pending(s2) is Finish || (answers(pending(s2), e3) ==> pending(s3) is Finish))))
        }),
{
}

/// Once a reading is over, further events change nothing.
pub proof fn lemma_done_is_final(res: Result<(u32, u32), Error>, e: Event)
    ensures
        next_state(KelvinRead::Done(res), e) == KelvinRead::Done(res),
{
}

} // verus!
