//! The decision-making core of a binding to the Open Image Denoise engine.
//!
//! The engine is a native library that is driven through opaque handles,
//! manual retain and release, and an error state that has to be polled. This
//! crate holds everything the binding has to decide: which engine calls an
//! operation consists of and in which order, what is checked before the
//! engine is touched, which resource owns which handle, and what is released
//! when. It never talks to the engine itself. Every operation returns the
//! [`Call`]s that carry it out, and wherever the engine's answer matters a
//! second function takes that answer as an ordinary value.
//!
//! Handles are addresses held as `usize`, with 0 for the null handle. Pixel
//! data stays with the caller: the functions here only need its length, and
//! the one float parameter travels as its bit pattern.
use vstd::prelude::*;

pub mod buffer;
pub mod call;
pub mod device;
pub mod filter;

pub use buffer::Buffer;
pub use call::Call;
pub use device::Device;
pub use filter::RayTracing;

verus! {

/// What can go wrong: the engine's own error codes, and one more for images
/// whose length does not fit the configured dimensions.
#[derive(Debug, Copy, Clone, Hash, PartialEq, Eq, Structural)]
pub enum Error {
    NoError,
    Unknown,
    InvalidArgument,
    InvalidOperation,
    OutOfMemory,
    UnsupportedFormat,
    Canceled,
    InvalidImageDimensions,
}

impl Error {
    /// The number that stands for this error.
    pub open spec fn code(self) -> u32 {
        match self {
            Error::NoError => 0,
            Error::Unknown => 1,
            Error::InvalidArgument => 2,
            Error::InvalidOperation => 3,
            Error::OutOfMemory => 4,
            Error::UnsupportedFormat => 5,
            Error::Canceled => 6,
            Error::InvalidImageDimensions => 7,
        }
    }

    /// The error that `number` stands for, if there is one.
    pub open spec fn from_code(number: u32) -> Option<Error> {
        if number == 0 {
            Some(Error::NoError)
        } else if number == 1 {
            Some(Error::Unknown)
        } else if number == 2 {
            Some(Error::InvalidArgument)
        } else if number == 3 {
            Some(Error::InvalidOperation)
        } else if number == 4 {
            Some(Error::OutOfMemory)
        } else if number == 5 {
            Some(Error::UnsupportedFormat)
        } else if number == 6 {
            Some(Error::Canceled)
        } else if number == 7 {
            Some(Error::InvalidImageDimensions)
        } else {
            None
        }
    }

    /// Reads an error code. `None` for a number that stands for no error
    /// kind.
    pub fn try_from_primitive(number: u32) -> (error: Option<Error>)
        ensures
            error == Error::from_code(number),
    {
        match number {
            0 => Some(Error::NoError),
            1 => Some(Error::Unknown),
            2 => Some(Error::InvalidArgument),
            3 => Some(Error::InvalidOperation),
            4 => Some(Error::OutOfMemory),
            5 => Some(Error::UnsupportedFormat),
            6 => Some(Error::Canceled),
            7 => Some(Error::InvalidImageDimensions),
            _ => None,
        }
    }

    /// Reading a code gives back the error that has it, and only that one.
    pub proof fn code_round_trip(error: Error, number: u32)
        ensures
            Error::from_code(error.code()) == Some(error),
            Error::from_code(number) == Some(error) <==> number == error.code(),
    {
    }
}

/// How much precision the filter spends.
#[derive(Debug, Copy, Clone, Hash, PartialEq, Eq, Structural)]
pub enum Quality {
    Default,
    Balanced,
    High,
}

impl Quality {
    /// The number the engine knows this quality by.
    pub open spec fn raw(self) -> u32 {
        match self {
            Quality::Default => 0,
            Quality::Balanced => 5,
            Quality::High => 6,
        }
    }

    /// The quality that `number` stands for, if there is one.
    pub open spec fn from_raw(number: u32) -> Option<Quality> {
        if number == 0 {
            Some(Quality::Default)
        } else if number == 5 {
            Some(Quality::Balanced)
        } else if number == 6 {
            Some(Quality::High)
        } else {
            None
        }
    }

    pub fn as_raw_oidn_quality(&self) -> (raw: u32)
        ensures
            raw == self.raw(),
    {
        match self {
            Quality::Default => 0,
            Quality::Balanced => 5,
            Quality::High => 6,
        }
    }

    /// Reads a quality number. `None` for a number that stands for no
    /// quality.
    pub fn try_from_primitive(number: u32) -> (quality: Option<Quality>)
        ensures
            quality == Quality::from_raw(number),
    {
        match number {
            0 => Some(Quality::Default),
            5 => Some(Quality::Balanced),
            6 => Some(Quality::High),
            _ => None,
        }
    }

    /// Reading a number gives back the quality that has it, and only that
    /// one.
    pub proof fn raw_round_trip(quality: Quality, number: u32)
        ensures
            Quality::from_raw(quality.raw()) == Some(quality),
            Quality::from_raw(number) == Some(quality) <==> number == quality.raw(),
    {
    }
}

} // verus!
