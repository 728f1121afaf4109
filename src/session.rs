use vstd::prelude::*;

use crate::convert::{convert, millikelvin_of};
use crate::error::Error;

verus! {

/// Register holding the ambient (die) temperature.
pub const MLX90614_TA: u8 = 0x06;

/// Register holding the temperature of the object in view (the sky).
pub const MLX90614_J1: u8 = 0x07;

/// What the caller must do next on the bus, or the result of the reading.
#[derive(Clone, Copy, Debug, PartialEq, Eq)]
pub enum Action {
    /// Open a connection to the bus.
    OpenBus,
    /// Write this register address, then read two bytes back.
    Transact(u8),
    /// The reading is over: sky and ambient temperature in millikelvin, or
    /// the failure that ended it.
    Finish(Result<(u32, u32), Error>),
}

/// How the bus answered the last action.
#[derive(Clone, Copy, Debug, PartialEq, Eq)]
pub enum Event {
    /// The bus connection is open.
    Opened,
    /// The bus could not be opened.
    OpenFailed,
    /// A transaction returned these two bytes.
    Received([u8; 2]),
    /// A transaction failed.
    TransferFailed,
}

/// One reading of both temperatures: open the bus, read the sky register,
/// then the ambient register. No retries: the first failure ends it.
///
/// An event that does not answer the pending action leaves the state as it
/// is, and the pending action is asked for again.
#[derive(Clone, Copy, Debug, PartialEq, Eq)]
pub enum KelvinRead {
    /// Waiting for the bus to open.
    AwaitOpen,
    /// Waiting for the bytes of the sky register.
    AwaitSky,
    /// Waiting for the bytes of the ambient register; the sky temperature in
    /// millikelvin is already known.
    AwaitAmbient { sky: u32 },
    /// The reading is over, with this outcome.
    Done(Result<(u32, u32), Error>),
}

/// The action that a state waits on, or its outcome once it is over.
pub open spec fn pending(s: KelvinRead) -> Action {
    match s {
        KelvinRead::AwaitOpen => Action::OpenBus,
        KelvinRead::AwaitSky => Action::Transact(MLX90614_J1),
        KelvinRead::AwaitAmbient { .. } => Action::Transact(MLX90614_TA),
        KelvinRead::Done(res) => Action::Finish(res),
    }
}

/// The state after an event.
pub open spec fn next_state(s: KelvinRead, e: Event) -> KelvinRead {
    match (s, e) {
        (KelvinRead::AwaitOpen, Event::Opened) => KelvinRead::AwaitSky,
        (KelvinRead::AwaitOpen, Event::OpenFailed) => KelvinRead::Done(Err(Error::Connection)),
        (KelvinRead::AwaitSky, Event::Received(b)) => KelvinRead::AwaitAmbient {
            sky: millikelvin_of(b) as u32,
        },
        (KelvinRead::AwaitSky, Event::TransferFailed) => KelvinRead::Done(Err(Error::Read)),
        (KelvinRead::AwaitAmbient { sky }, Event::Received(b)) => KelvinRead::Done(
            Ok((sky, millikelvin_of(b) as u32)),
        ),
        (KelvinRead::AwaitAmbient { .. }, Event::TransferFailed) => KelvinRead::Done(
            Err(Error::Read),
        ),
        _ => s,
    }
}

/// Whether an event is an answer to an action: the bus opening or not for
/// `OpenBus`, bytes or a failure for `Transact`.
pub open spec fn answers(a: Action, e: Event) -> bool {
    match a {
        Action::OpenBus => e is Opened || e is OpenFailed,
        Action::Transact(_) => e is Received || e is TransferFailed,
        Action::Finish(_) => false,
    }
}

impl KelvinRead {
    /// A reading that has not begun: the bus is to be opened first.
    pub fn new() -> (r: KelvinRead)
        ensures
            r == KelvinRead::AwaitOpen,
            pending(r) == Action::OpenBus,
    {
        KelvinRead::AwaitOpen
    }

    /// What the caller must do next, or the outcome once the reading is over.
    pub fn action(&self) -> (r: Action)
        ensures
            r == pending(*self),
    {
        match self {
            KelvinRead::AwaitOpen => Action::OpenBus,
            KelvinRead::AwaitSky => Action::Transact(MLX90614_J1),
            KelvinRead::AwaitAmbient { .. } => Action::Transact(MLX90614_TA),
            KelvinRead::Done(res) => Action::Finish(*res),
        }
    }

    /// Takes the bus's answer to the pending action and returns what to do
    /// next.
    pub fn step(&mut self, event: Event) -> (r: Action)
        ensures
            *final(self) == next_state(*old(self), event),
            r == pending(*final(self)),
    {
        let s: KelvinRead = match (*self, event) {
            (KelvinRead::AwaitOpen, Event::Opened) => KelvinRead::AwaitSky,
            (KelvinRead::AwaitOpen, Event::OpenFailed) => KelvinRead::Done(Err(Error::Connection)),
            (KelvinRead::AwaitSky, Event::Received(b)) => KelvinRead::AwaitAmbient {
                sky: convert(b),
            },
            (KelvinRead::AwaitSky, Event::TransferFailed) => KelvinRead::Done(Err(Error::Read)),
            (KelvinRead::AwaitAmbient { sky }, Event::Received(b)) => KelvinRead::Done(
                Ok((sky, convert(b))),
            ),
            (KelvinRead::AwaitAmbient { .. }, Event::TransferFailed) => KelvinRead::Done(
                Err(Error::Read),
            ),
            (other, _) => other,
        };
        *self = s;
        self.action()
    }
}

} // verus!
