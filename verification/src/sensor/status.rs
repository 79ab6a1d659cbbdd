//! Health status of an I2C sensor, stored as a single byte cell.

use vstd::prelude::*;

verus! {

/// Represents the status of an I2C sensor.
#[derive(Copy, Clone, Debug, Eq, PartialEq, Structural)]
pub enum Status {
    /// A sensor of this type has never been initialized. It is likely that a
    /// sensor of this type is not connected to the bus.
    Missing,
    /// The sensor is connected and healthy.
    Up,
    /// The sensor has previously been brought up successfully, but it is no
    /// longer healthy.
    Down,
}

impl Status {
    /// The byte under which this status is stored.
    pub open spec fn as_byte(self) -> u8 {
        match self {
            Status::Missing => 0,
            Status::Up => 1,
            Status::Down => 2,
        }
    }

    /// Encode the status as its stored byte.
    pub fn to_u8(self) -> (r: u8)
        ensures
            r == self.as_byte(),
    {
        match self {
            Status::Missing => 0,
            Status::Up => 1,
            Status::Down => 2,
        }
    }

    /// Decode a stored byte; any unknown byte is read as `Missing`.
    pub fn from_u8(u: u8) -> (r: Status)
        ensures
            r == Status::spec_from_u8(u),
    {
        match u {
            1 => Status::Up,
            2 => Status::Down,
            _ => Status::Missing,
        }
    }

    /// What `from_u8` reads out of a byte.
    pub open spec fn spec_from_u8(u: u8) -> Status {
        if u == 1 {
            Status::Up
        } else if u == 2 {
            Status::Down
        } else {
            Status::Missing
        }
    }
}

/// Round trip: decoding an encoded status gives the status back.
pub proof fn lemma_status_byte_round_trip(s: Status)
    ensures
        Status::spec_from_u8(s.as_byte()) == s,
{
}

/// A single-byte cell publishing one sensor's status.
#[derive(Debug)]
pub struct StatusCell {
    byte: u8,
}

impl StatusCell {
    /// The status currently held by the cell.
    pub closed spec fn view(&self) -> Status {
        Status::spec_from_u8(self.byte)
    }

    /// A fresh cell reads `Missing`.
    pub fn new() -> (r: StatusCell)
        ensures
            r@ == Status::Missing,
    {
        StatusCell { byte: 0 }
    }

    /// Store a new status; returns the status that was previously held.
    pub fn set_status(&mut self, status: Status) -> (prev: Status)
        ensures
            final(self)@ == status,
            prev == old(self)@,
    {
        let prev = Status::from_u8(self.byte);
        self.byte = status.to_u8();
        proof {
            lemma_status_byte_round_trip(status);
        }
        prev
    }

    /// Read the current status.
    pub fn status(&self) -> (r: Status)
        ensures
            r == self@,
    {
        Status::from_u8(self.byte)
    }
}

} // verus!
