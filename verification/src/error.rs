use vstd::prelude::*;

verus! {

/// Outcome taxonomy of the validator.
///
/// The first four variants mirror the host runtime's fault codes and are
/// produced when a collaborator call fails; the remaining variants are the
/// validator's own rejection reasons.
#[derive(Clone, Copy, Debug, PartialEq, Eq, Structural)]
pub enum Error {
    IndexOutOfBound,
    ItemMissing,
    LengthNotEnough,
    Encoding,
    ArgsLen,
    AmountCkbytes,
    AmountSudt,
    ExchangeRate,
    InvalidCost,
    InvalidStructure,
}

/// A fault reported by the host runtime's cell accessors, as a plain value.
///
/// `Unknown` carries a fault code outside the documented set; it is a fatal
/// defect rather than a recoverable case, so no conversion is defined for it.
#[derive(Clone, Copy, Debug, PartialEq, Eq, Structural)]
pub enum HostFault {
    IndexOutOfBound,
    ItemMissing,
    LengthNotEnough(usize),
    Encoding,
    Unknown(u64),
}

impl Error {
    /// The integer status code surfaced to the host: low codes are reserved
    /// for the host's own fault codes, codes from 100 up are the validator's.
    pub fn code(&self) -> (c: i8)
        ensures
            c == match *self {
                Error::IndexOutOfBound => 1int,
                Error::ItemMissing => 2int,
                Error::LengthNotEnough => 3int,
                Error::Encoding => 4int,
                Error::ArgsLen => 100int,
                Error::AmountCkbytes => 101int,
                Error::AmountSudt => 102int,
                Error::ExchangeRate => 103int,
                Error::InvalidCost => 104int,
                Error::InvalidStructure => 105int,
            },
    {
        match *self {
            Error::IndexOutOfBound => 1,
            Error::ItemMissing => 2,
            Error::LengthNotEnough => 3,
            Error::Encoding => 4,
            Error::ArgsLen => 100,
            Error::AmountCkbytes => 101,
            Error::AmountSudt => 102,
            Error::ExchangeRate => 103,
            Error::InvalidCost => 104,
            Error::InvalidStructure => 105,
        }
    }

    /// The exhaustive conversion table from recoverable host faults.
    ///
    /// An `Unknown` fault has no entry: the caller must treat it as an
    /// unrecoverable defect and abort instead of converting it.
    pub fn from_host_fault(fault: &HostFault) -> (e: Error)
        requires
            !(fault is Unknown),
        ensures
            fault is IndexOutOfBound ==> e == Error::IndexOutOfBound,
            fault is ItemMissing ==> e == Error::ItemMissing,
            fault is LengthNotEnough ==> e == Error::LengthNotEnough,
            fault is Encoding ==> e == Error::Encoding,
    {
        match *fault {
            HostFault::IndexOutOfBound => Error::IndexOutOfBound,
            HostFault::ItemMissing => Error::ItemMissing,
            HostFault::LengthNotEnough(_) => Error::LengthNotEnough,
            HostFault::Encoding => Error::Encoding,
            HostFault::Unknown(_) => unreached(),
        }
    }
}

} // verus!
