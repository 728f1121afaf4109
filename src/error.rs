use vstd::prelude::*;

verus! {

/// Why a reading could not be taken. Either failure ends the request.
#[derive(Clone, Copy, Debug, PartialEq, Eq, Structural)]
pub enum Error {
    /// The bus could not be opened.
    Connection,
    /// A write-then-read transaction on the bus failed.
    Read,
}

/// The number that prefixes each error's message.
pub open spec fn code_of(e: Error) -> int {
    match e {
        Error::Connection => 1,
        Error::Read => 2,
    }
}

/// The message sent to a client for each error.
pub open spec fn message_of(e: Error) -> Seq<char> {
    match e {
        Error::Connection => "1: Failed to create I2C connection"@,
        Error::Read => "2: Failed to read/write to I2C bus"@,
    }
}

impl Error {
    /// The error's number: 1 for a connection failure, 2 for a read failure.
    pub fn code(&self) -> (r: u16)
        ensures
            r == code_of(*self),
    {
        match self {
            Error::Connection => 1,
            Error::Read => 2,
        }
    }

    /// The error's message, which starts with its number.
    pub fn message(&self) -> (r: String)
        ensures
            r@ == message_of(*self),
    {
        match self {
            Error::Connection => "1: Failed to create I2C connection".to_owned(),
            Error::Read => "2: Failed to read/write to I2C bus".to_owned(),
        }
    }
}

} // verus!
