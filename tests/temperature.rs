use skytemp::{
    convert, get_celcius, get_fahrenheit, get_kelvin, kelvin_to_celcius, kelvin_to_fahrenheit,
    raw_value, Action, Error, Event, KelvinRead, Reading, MAX_MILLIKELVIN, MLX90614_J1,
    MLX90614_TA,
};

fn run(events: &[Event]) -> Action {
    let mut session = KelvinRead::new();
    let mut action = session.action();
    for e in events {
        action = session.step(*e);
    }
    action
}

#[test]
fn decode_zero_bytes() {
    assert_eq!(convert([0x00, 0x00]), 0);
}

#[test]
fn decode_full_scale() {
    assert_eq!(convert([0xFF, 0xFF]), 1_310_700);
    assert_eq!(convert([0xFF, 0xFF]), MAX_MILLIKELVIN);
}

#[test]
fn decode_is_little_endian() {
    assert_eq!(raw_value([0x34, 0x12]), 0x1234);
    assert_eq!(convert([0x34, 0x12]), 0x1234 * 20);
    assert_eq!(convert([0x01, 0x00]), 20);
    assert_eq!(convert([0x00, 0x01]), 5120);
}

#[test]
fn decode_matches_scaled_formula_on_every_input() {
    for hi in 0u16..=255 {
        for lo in 0u16..=255 {
            let raw = (hi << 8) | lo;
            let mk = convert([lo as u8, hi as u8]);
            assert_eq!(mk, raw as u32 * 20);
            let kelvin = mk as f64 / 1000.0;
            assert!((kelvin - raw as f64 * 0.02).abs() < 1e-9);
        }
    }
}

#[test]
fn celsius_of_fixed_points() {
    assert_eq!(kelvin_to_celcius(273_150), 0);
    assert_eq!(kelvin_to_celcius(373_150), 100_000);
    assert_eq!(kelvin_to_celcius(0), -273_150);
    assert_eq!(kelvin_to_celcius(MAX_MILLIKELVIN), 1_037_550);
}

#[test]
fn fahrenheit_of_fixed_points() {
    assert_eq!(kelvin_to_fahrenheit(273_150), 32_000);
    assert_eq!(kelvin_to_fahrenheit(373_150), 212_000);
    assert_eq!(kelvin_to_fahrenheit(0), -459_670);
    assert_eq!(kelvin_to_fahrenheit(233_150), -40_000);
}

#[test]
fn fahrenheit_rounds_down_between_steps() {
    // 1.8 * (0.001 - 273.15) + 32 = -459.6682
    assert_eq!(kelvin_to_fahrenheit(1), -459_669);
    // 1.8 * (273.151 - 273.15) + 32 = 32.0018
    assert_eq!(kelvin_to_fahrenheit(273_151), 32_001);
}

#[test]
fn fahrenheit_formula_on_every_reading() {
    for hi in 0u8..=255 {
        for lo in 0u8..=255 {
            let k = convert([lo, hi]);
            let f = kelvin_to_fahrenheit(k);
            assert_eq!(5 * f, 9 * (k as i64 - 273_150) + 160_000);
            let expected = 1.8 * (k as f64 / 1000.0 - 273.15) + 32.0;
            assert!((f as f64 / 1000.0 - expected).abs() < 1e-6);
        }
    }
}

#[test]
fn error_codes_and_messages() {
    assert_eq!(Error::Connection.code(), 1);
    assert_eq!(Error::Read.code(), 2);
    assert_eq!(Error::Connection.message(), "1: Failed to create I2C connection");
    assert_eq!(Error::Read.message(), "2: Failed to read/write to I2C bus");
}

#[test]
fn session_asks_for_bus_then_both_registers() {
    let mut session = KelvinRead::new();
    assert_eq!(session.action(), Action::OpenBus);
    assert_eq!(session.step(Event::Opened), Action::Transact(MLX90614_J1));
    assert_eq!(session.step(Event::Received([0x00, 0x01])), Action::Transact(MLX90614_TA));
    assert_eq!(session.step(Event::Received([0x34, 0x12])), Action::Finish(Ok((5120, 93_200))));
    assert_eq!(MLX90614_J1, 0x07);
    assert_eq!(MLX90614_TA, 0x06);
}

#[test]
fn open_failure_gives_code_one_on_every_endpoint() {
    let action = run(&[Event::OpenFailed]);
    assert_eq!(action, Action::Finish(Err(Error::Connection)));
    let res = Err(Error::Connection);
    for answer in [get_kelvin(res), get_celcius(res), get_fahrenheit(res)] {
        assert_eq!(answer, Err(Error::Connection));
        assert_eq!(answer.unwrap_err().code(), 1);
    }
}

#[test]
fn first_read_failure_gives_code_two() {
    let action = run(&[Event::Opened, Event::TransferFailed]);
    assert_eq!(action, Action::Finish(Err(Error::Read)));
}

#[test]
fn second_read_failure_gives_code_two_and_no_body() {
    let action = run(&[Event::Opened, Event::Received([0x10, 0x3A]), Event::TransferFailed]);
    assert_eq!(action, Action::Finish(Err(Error::Read)));
    let res = Err(Error::Read);
    for answer in [get_kelvin(res), get_celcius(res), get_fahrenheit(res)] {
        assert_eq!(answer, Err(Error::Read));
        assert_eq!(answer.unwrap_err().code(), 2);
    }
}

#[test]
fn unexpected_event_repeats_pending_action() {
    let mut session = KelvinRead::new();
    assert_eq!(session.step(Event::Received([1, 2])), Action::OpenBus);
    assert_eq!(session.step(Event::TransferFailed), Action::OpenBus);
    assert_eq!(session.step(Event::Opened), Action::Transact(MLX90614_J1));
    assert_eq!(session.step(Event::OpenFailed), Action::Transact(MLX90614_J1));
    assert_eq!(session, KelvinRead::AwaitSky);
}

#[test]
fn finished_session_keeps_its_outcome() {
    let mut session = KelvinRead::new();
    session.step(Event::OpenFailed);
    assert_eq!(session.step(Event::Opened), Action::Finish(Err(Error::Connection)));
    assert_eq!(session.step(Event::Received([0, 0])), Action::Finish(Err(Error::Connection)));
}

#[test]
fn endpoints_agree_on_one_reading() {
    let action = run(&[Event::Opened, Event::Received([0x5B, 0x3A]), Event::Received([0xF0, 0x3A])]);
    let res = match action {
        Action::Finish(r) => r,
        other => panic!("reading did not finish: {:?}", other),
    };
    let k = get_kelvin(res).unwrap();
    let c = get_celcius(res).unwrap();
    let f = get_fahrenheit(res).unwrap();
    assert_eq!(k, Reading { sky_temperature: 0x3A5B * 20, ambient_temperature: 0x3AF0 * 20 });
    assert_eq!(c.sky_temperature, kelvin_to_celcius(k.sky_temperature as u32));
    assert_eq!(c.ambient_temperature, k.ambient_temperature - 273_150);
    assert_eq!(f.sky_temperature, kelvin_to_fahrenheit(k.sky_temperature as u32));
    assert_eq!(5 * f.ambient_temperature, 9 * c.ambient_temperature + 160_000);
}
