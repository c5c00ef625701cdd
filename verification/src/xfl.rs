//! The wrapped decimal-float type.
//!
//! Ledger amounts outside the native currency use a custom 64-bit decimal
//! floating-point encoding (explicit sign, exponent and 16-digit mantissa,
//! no machine-float semantics). Its arithmetic, comparison and decomposition
//! are host operations; this layer only type-tags the enclosing number so a
//! wrapped float can never be confused with an ordinary integer, marshals
//! the calls, and interprets their statuses.

use vstd::prelude::*;
use crate::error::{error_from_code, spec_error_code, valid_error_code, Error};
use crate::fields::{field_code, spec_field_code, FieldId};
use crate::helpers::copy_buf;
use crate::host::{HostArgs, HostCall, HostFn};

verus! {

/// A wrapped decimal float: the opaque 64-bit enclosing number.
#[derive(Clone, Copy, Debug, PartialEq, Eq, Structural)]
pub struct XFL(pub i64);

/// Comparison-mode flag asking for "less than".
pub const COMPARE_LESS: u32 = 1;
/// Comparison-mode flag asking for "equal".
pub const COMPARE_EQUAL: u32 = 2;
/// Comparison-mode flag asking for "greater than".
pub const COMPARE_GREATER: u32 = 4;

/// One comparison a wrapped-float comparison call can ask for.
#[derive(Clone, Copy, Debug, PartialEq, Eq, Structural)]
pub enum XFLCompareMode {
    /// Strictly less.
    Less,
    /// Equal.
    Equal,
    /// Strictly greater.
    Greater,
    /// Different.
    NotEqual,
    /// Less or equal.
    LessOrEqual,
    /// Greater or equal.
    GreaterOrEqual,
}

/// The flag combination sent for a comparison mode: the less, equal and
/// greater flags of the asked-for outcomes, or-ed together.
pub open spec fn spec_compare_mode_flags(mode: XFLCompareMode) -> u32 {
    match mode {
        XFLCompareMode::Less => COMPARE_LESS,
        XFLCompareMode::Equal => COMPARE_EQUAL,
        XFLCompareMode::Greater => COMPARE_GREATER,
        XFLCompareMode::NotEqual => COMPARE_LESS | COMPARE_GREATER,
        XFLCompareMode::LessOrEqual => COMPARE_LESS | COMPARE_EQUAL,
        XFLCompareMode::GreaterOrEqual => COMPARE_GREATER | COMPARE_EQUAL,
    }
}

/// The flag combination sent for a comparison mode.
pub fn compare_mode_flags(mode: XFLCompareMode) -> (f: u32)
    ensures
        f == spec_compare_mode_flags(mode),
{
    match mode {
        XFLCompareMode::Less => COMPARE_LESS,
        XFLCompareMode::Equal => COMPARE_EQUAL,
        XFLCompareMode::Greater => COMPARE_GREATER,
        XFLCompareMode::NotEqual => COMPARE_LESS | COMPARE_GREATER,
        XFLCompareMode::LessOrEqual => COMPARE_LESS | COMPARE_EQUAL,
        XFLCompareMode::GreaterOrEqual => COMPARE_GREATER | COMPARE_EQUAL,
    }
}

/// Interpretation of a status as a wrapped float: a non-negative enclosing
/// number is the float itself, a negative one its failure kind.
pub fn result_xfl(res: i64) -> (r: Result<XFL, Error>)
    requires
        res >= 0 || valid_error_code(res as int),
    ensures
        res >= 0 ==> (r matches Ok(x) && x == XFL(res)),
        res < 0 ==> (r matches Err(e) && spec_error_code(e) == res as int),
{
    if res >= 0 {
        Ok(XFL(res))
    } else {
        Err(error_from_code(res))
    }
}

/// Marshals the comparison of two wrapped floats; the status reads back
/// through [`compare_result`].
pub fn float_compare(float_1: XFL, float_2: XFL, mode: XFLCompareMode) -> (c: HostCall)
    ensures
        c.func == HostFn::FloatCompare,
        (c.args matches HostArgs::FloatCompare { float_1: a, float_2: b, mode: m } && a == float_1.0
            && b == float_2.0 && m == spec_compare_mode_flags(mode)),
{
    HostCall {
        func: HostFn::FloatCompare,
        args: HostArgs::FloatCompare {
            float_1: float_1.0,
            float_2: float_2.0,
            mode: compare_mode_flags(mode),
        },
    }
}

/// The comparison outcome behind a wrapped-float comparison status: zero
/// means the asked-for relation does not hold, one that it holds, and a
/// negative status names the failure kind.
pub fn compare_result(res: i64) -> (r: Result<bool, Error>)
    requires
        res == 0 || res == 1 || valid_error_code(res as int),
    ensures
        res == 0 ==> r == Ok::<bool, Error>(false),
        res == 1 ==> r == Ok::<bool, Error>(true),
        res < 0 ==> (r matches Err(e) && spec_error_code(e) == res as int),
{
    if res == 0 {
        Ok(false)
    } else if res == 1 {
        Ok(true)
    } else {
        Err(error_from_code(res))
    }
}

/// Marshals the serialization of a wrapped float into an amount field of a
/// serialized object.
pub fn float_sto(
    amount_len: usize,
    currency_code: &Vec<u8>,
    issuer_accid: &Vec<u8>,
    float: XFL,
    field_id: FieldId,
) -> (c: HostCall)
    ensures
        c.func == HostFn::FloatSto,
        (c.args matches HostArgs::FloatSto { len, currency, issuer, enclosing, field } && len
            == amount_len && currency@ == currency_code@ && issuer@ == issuer_accid@ && enclosing
            == float.0 && field == spec_field_code(field_id)),
{
    HostCall {
        func: HostFn::FloatSto,
        args: HostArgs::FloatSto {
            len: amount_len,
            currency: copy_buf(currency_code),
            issuer: copy_buf(issuer_accid),
            enclosing: float.0,
            field: field_code(field_id),
        },
    }
}

} // verus!
