//! Readings of an infrared thermometer on a two-wire bus, decoded into
//! exact fixed-point temperatures.
//!
//! Every temperature in this crate is an integer count of thousandths of a
//! degree (millikelvin, millidegrees Celsius, millidegrees Fahrenheit). At
//! that scale the sensor's 0.02 K step and the unit conversions are exact.

mod convert;
mod endpoint;
mod error;
mod laws;
mod session;

pub use convert::{
    celcius_of, convert, fahrenheit_of, kelvin_to_celcius, kelvin_to_fahrenheit, millikelvin_of,
    raw_of, raw_value, MAX_MILLIKELVIN, MILLIKELVIN_PER_STEP,
};
pub use error::{code_of, message_of, Error};
pub use session::{
    answers, next_state, pending, Action, Event, KelvinRead, MLX90614_J1, MLX90614_TA,
};
pub use endpoint::{
    celcius_response, fahrenheit_response, get_celcius, get_fahrenheit, get_kelvin,
    kelvin_response, Reading,
};
pub use laws::{
    lemma_decode_exact, lemma_done_is_final, lemma_endpoints_agree,
    lemma_fahrenheit_exact_on_readings, lemma_fahrenheit_formula, lemma_open_failure,
    lemma_reading_finishes, lemma_second_read_failure, lemma_successful_reading,
};
