//! Readiness events, as a set of flags packed into one byte.
use vstd::prelude::*;

verus! {

/// The source can be read without blocking.
pub const READABLE: u8 = 1;

/// The source can be written without blocking.
pub const WRITABLE: u8 = 2;

/// The source reported an error.
pub const ERROR: u8 = 4;

/// The read half of the source was closed.
pub const READ_CLOSED: u8 = 8;

/// The write half of the source was closed.
pub const WRITE_CLOSED: u8 = 16;

/// Priority data is available.
pub const PRIORITY: u8 = 32;

/// An asynchronous I/O operation completed.
pub const AIO: u8 = 64;

/// A list I/O operation completed.
pub const LIO: u8 = 128;

/// A set of readiness flags. Two events are equal when their bits are.
#[derive(Clone, Copy, Debug, PartialEq, Eq, Structural)]
pub struct Event {
    bits: u8,
}

/// The flags of `bits` include every flag of `flag`.
pub open spec fn has_flags(bits: u8, flag: u8) -> bool {
    bits & flag == flag
}

impl Event {
    /// The raw bits of this event.
    pub closed spec fn spec_bits(self) -> u8 {
        self.bits
    }

    /// The event holds every flag of `flag`.
    pub open spec fn has(self, flag: u8) -> bool {
        has_flags(self.spec_bits(), flag)
    }

    /// An event with exactly the given bits; bits without a name are kept.
    pub fn from_bits_retain(bits: u8) -> (r: Event)
        ensures
            r.spec_bits() == bits,
    {
        Event { bits }
    }

    /// The event with no flag set.
    pub fn empty() -> (r: Event)
        ensures
            r.spec_bits() == 0,
    {
        Event { bits: 0 }
    }

    pub fn bits(&self) -> (r: u8)
        ensures
            r == self.spec_bits(),
    {
        self.bits
    }

    /// Whether every flag of `other` is set in this event.
    pub fn contains(&self, other: Event) -> (r: bool)
        ensures
            r == self.has(other.spec_bits()),
    {
        self.bits & other.bits == other.bits
    }

    /// The union of the flags of both events.
    pub fn union(&self, other: Event) -> (r: Event)
        ensures
            r.spec_bits() == self.spec_bits() | other.spec_bits(),
    {
        Event { bits: self.bits | other.bits }
    }

    /// Whether the event is exactly `READABLE`, with no other flag.
    pub fn is_readable(&self) -> (r: bool)
        ensures
            r == (self.spec_bits() == READABLE),
    {
        self.bits == READABLE
    }

    /// Whether the event is exactly `WRITABLE`, with no other flag.
    pub fn is_writable(&self) -> (r: bool)
        ensures
            r == (self.spec_bits() == WRITABLE),
    {
        self.bits == WRITABLE
    }

    /// The event that carries exactly the readiness conditions given, one flag each.
    pub fn from_readiness(
        readable: bool,
        writable: bool,
        error: bool,
        read_closed: bool,
        write_closed: bool,
        priority: bool,
        aio: bool,
        lio: bool,
    ) -> (r: Event)
        ensures
            r.has(READABLE) == readable,
            r.has(WRITABLE) == writable,
            r.has(ERROR) == error,
            r.has(READ_CLOSED) == read_closed,
            r.has(WRITE_CLOSED) == write_closed,
            r.has(PRIORITY) == priority,
            r.has(AIO) == aio,
            r.has(LIO) == lio,
    {
        let a: u8 = if readable { READABLE } else { 0 };
        let b: u8 = if writable { WRITABLE } else { 0 };
        let c: u8 = if error { ERROR } else { 0 };
        let d: u8 = if read_closed { READ_CLOSED } else { 0 };
        let e: u8 = if write_closed { WRITE_CLOSED } else { 0 };
        let f: u8 = if priority { PRIORITY } else { 0 };
        let g: u8 = if aio { AIO } else { 0 };
        let h: u8 = if lio { LIO } else { 0 };
        let bits: u8 = a | b | c | d | e | f | g | h;
        assert({
            &&& (bits & 1 == 1) == (a == 1)
            &&& (bits & 2 == 2) == (b == 2)
            &&& (bits & 4 == 4) == (c == 4)
            &&& (bits & 8 == 8) == (d == 8)
            &&& (bits & 16 == 16) == (e == 16)
            &&& (bits & 32 == 32) == (f == 32)
            &&& (bits & 64 == 64) == (g == 64)
            &&& (bits & 128 == 128) == (h == 128)
        }) by (bit_vector)
            requires
                a == 0 || a == 1,
                b == 0 || b == 2,
                c == 0 || c == 4,
                d == 0 || d == 8,
                e == 0 || e == 16,
                f == 0 || f == 32,
                g == 0 || g == 64,
                h == 0 || h == 128,
                bits == a | b | c | d | e | f | g | h,
        ;
        Event { bits }
    }
}

} // verus!
