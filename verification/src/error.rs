//! The closed failure taxonomy of the host boundary.
//!
//! Every boundary call returns a signed 64-bit value. Non-negative values mean
//! success; each negative value the host can return names exactly one member
//! of this taxonomy. No kind is transient: callers never retry, they thread
//! the error back unchanged.

use vstd::prelude::*;

verus! {

/// One failure kind of the host boundary.
///
/// The host communicates these as the negative values `-1` through `-33`, in
/// the order the variants are declared; [`Error::code`] and
/// [`error_from_code`] convert between the two forms.
#[derive(Clone, Copy, Debug, PartialEq, Eq, Structural)]
pub enum Error {
    /// A pointer or length referred to memory outside the hook's allowed region.
    OutOfBounds,
    /// An internal invariant of the host tripped; unrelated to the inputs.
    InternalError,
    /// A parameter or value was larger than the allowed space.
    TooBig,
    /// The output buffer was too small for the value to be written.
    TooSmall,
    /// The requested object or item was not found.
    DoesntExist,
    /// No slot was free to hold another object.
    NoFreeSlots,
    /// A parameter was invalid for the call's own specification.
    InvalidArgument,
    /// A once-per-execution parameter was set a second time.
    AlreadySet,
    /// A prerequisite call had not been made yet.
    PrerequisiteNotMet,
    /// Fee calculation produced an absurdly large fee.
    FeeTooLarge,
    /// Emitting a transaction failed.
    EmissionFailure,
    /// More nonces were requested than one execution may draw.
    TooManyNonces,
    /// More transactions were emitted than were declared ahead of time.
    TooManyEmittedTxn,
    /// The call is planned but not implemented by the host.
    NotImplemented,
    /// A 20-byte account identifier was not valid.
    InvalidAccount,
    /// A loop broke its declared iteration bound.
    GuardViolation,
    /// The requested serialized field was not found in the object.
    InvalidField,
    /// Serialized content could not be parsed.
    ParseError,
    /// Used internally to communicate a rollback event.
    RcRollback,
    /// Used internally to communicate an accept event.
    RcAccept,
    /// The keylet was invalid or referred to nothing.
    NoSuchKeylet,
    /// The object under analysis was not a serialized array.
    NotAnArray,
    /// The object under analysis was not a serialized object.
    NotAnObject,
    /// A float operation produced not-a-number or left the representable range.
    InvalidFloat,
    /// The operation would have divided by zero.
    DivisionByZero,
    /// A float mantissa was too large.
    ManitssaOversized,
    /// A float mantissa was too small.
    MantissaUndersized,
    /// A float exponent was too large.
    ExponentOversized,
    /// A float exponent was too small.
    ExponentUndersized,
    /// A float operation overflowed the representable range.
    Overflow,
    /// The serialized amount was native currency where a non-native one was assumed.
    NotIouAmount,
    /// The serialized object was not an amount.
    NotAnAmount,
    /// The call would have returned a negative integer, which is reserved for errors.
    CantReturnNegative,
}

/// The signed code the host uses for this failure kind.
pub open spec fn spec_error_code(e: Error) -> int {
    match e {
        Error::OutOfBounds => -1,
        Error::InternalError => -2,
        Error::TooBig => -3,
        Error::TooSmall => -4,
        Error::DoesntExist => -5,
        Error::NoFreeSlots => -6,
        Error::InvalidArgument => -7,
        Error::AlreadySet => -8,
        Error::PrerequisiteNotMet => -9,
        Error::FeeTooLarge => -10,
        Error::EmissionFailure => -11,
        Error::TooManyNonces => -12,
        Error::TooManyEmittedTxn => -13,
        Error::NotImplemented => -14,
        Error::InvalidAccount => -15,
        Error::GuardViolation => -16,
        Error::InvalidField => -17,
        Error::ParseError => -18,
        Error::RcRollback => -19,
        Error::RcAccept => -20,
        Error::NoSuchKeylet => -21,
        Error::NotAnArray => -22,
        Error::NotAnObject => -23,
        Error::InvalidFloat => -24,
        Error::DivisionByZero => -25,
        Error::ManitssaOversized => -26,
        Error::MantissaUndersized => -27,
        Error::ExponentOversized => -28,
        Error::ExponentUndersized => -29,
        Error::Overflow => -30,
        Error::NotIouAmount => -31,
        Error::NotAnAmount => -32,
        Error::CantReturnNegative => -33,
    }
}

/// True of the signed values that name a member of the taxonomy.
pub open spec fn valid_error_code(code: int) -> bool {
    -33 <= code <= -1
}

impl Error {
    /// The signed error code of this failure kind.
    pub fn code(self) -> (c: i32)
        ensures
            c == spec_error_code(self),
    {
        match self {
            Error::OutOfBounds => -1,
            Error::InternalError => -2,
            Error::TooBig => -3,
            Error::TooSmall => -4,
            Error::DoesntExist => -5,
            Error::NoFreeSlots => -6,
            Error::InvalidArgument => -7,
            Error::AlreadySet => -8,
            Error::PrerequisiteNotMet => -9,
            Error::FeeTooLarge => -10,
            Error::EmissionFailure => -11,
            Error::TooManyNonces => -12,
            Error::TooManyEmittedTxn => -13,
            Error::NotImplemented => -14,
            Error::InvalidAccount => -15,
            Error::GuardViolation => -16,
            Error::InvalidField => -17,
            Error::ParseError => -18,
            Error::RcRollback => -19,
            Error::RcAccept => -20,
            Error::NoSuchKeylet => -21,
            Error::NotAnArray => -22,
            Error::NotAnObject => -23,
            Error::InvalidFloat => -24,
            Error::DivisionByZero => -25,
            Error::ManitssaOversized => -26,
            Error::MantissaUndersized => -27,
            Error::ExponentOversized => -28,
            Error::ExponentUndersized => -29,
            Error::Overflow => -30,
            Error::NotIouAmount => -31,
            Error::NotAnAmount => -32,
            Error::CantReturnNegative => -33,
        }
    }
}

/// The taxonomy member behind a negative boundary status.
///
/// Callers gate this behind [`valid_error_code`]: the host promises to return
/// only members of the closed taxonomy, and no other value names one.
pub fn error_from_code(code: i64) -> (e: Error)
    requires
        valid_error_code(code as int),
    ensures
        spec_error_code(e) == code as int,
{
    match code {
        -1 => Error::OutOfBounds,
        -2 => Error::InternalError,
        -3 => Error::TooBig,
        -4 => Error::TooSmall,
        -5 => Error::DoesntExist,
        -6 => Error::NoFreeSlots,
        -7 => Error::InvalidArgument,
        -8 => Error::AlreadySet,
        -9 => Error::PrerequisiteNotMet,
        -10 => Error::FeeTooLarge,
        -11 => Error::EmissionFailure,
        -12 => Error::TooManyNonces,
        -13 => Error::TooManyEmittedTxn,
        -14 => Error::NotImplemented,
        -15 => Error::InvalidAccount,
        -16 => Error::GuardViolation,
        -17 => Error::InvalidField,
        -18 => Error::ParseError,
        -19 => Error::RcRollback,
        -20 => Error::RcAccept,
        -21 => Error::NoSuchKeylet,
        -22 => Error::NotAnArray,
        -23 => Error::NotAnObject,
        -24 => Error::InvalidFloat,
        -25 => Error::DivisionByZero,
        -26 => Error::ManitssaOversized,
        -27 => Error::MantissaUndersized,
        -28 => Error::ExponentOversized,
        -29 => Error::ExponentUndersized,
        -30 => Error::Overflow,
        -31 => Error::NotIouAmount,
        -32 => Error::NotAnAmount,
        _ => Error::CantReturnNegative,
    }
}

/// Interpretation of a boundary call's signed status as a typed result.
///
/// A non-negative status is itself the successful value; a negative one is
/// never decoded as data but mapped to its taxonomy member and propagated.
pub fn result_u64(res: i64) -> (r: Result<u64, Error>)
    requires
        res >= 0 || valid_error_code(res as int),
    ensures
        res >= 0 ==> r == Ok::<u64, Error>(res as u64),
        res < 0 ==> (r matches Err(e) && spec_error_code(e) == res as int),
{
    if res >= 0 {
        Ok(res as u64)
    } else {
        Err(error_from_code(res))
    }
}

} // verus!
