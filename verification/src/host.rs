//! The host boundary, as data.
//!
//! The sandbox reaches its host only through a fixed menu of functions, each
//! with one of a handful of call shapes: plain integer arguments, an output
//! buffer, input buffers, or combinations of those, always answered by a
//! signed 64-bit status. A [`HostCall`] value names the host function and
//! holds its marshaled arguments; the unverified embedding turns it into the
//! raw call (buffers become pointer-and-length pairs, unused slots zero) and
//! hands the status back to the verified interpreters.

use vstd::prelude::*;

verus! {

/// One host function of the boundary menu.
#[derive(Clone, Copy, Debug, PartialEq, Eq, Structural)]
pub enum HostFn {
    /// Convert a 20-byte account id to an r-address.
    UtilRaddr,
    /// Convert an r-address to a 20-byte account id.
    UtilAccid,
    /// Verify a cryptographic signature.
    UtilVerify,
    /// Compute a sha512-half digest.
    UtilSha512h,
    /// Locate a field inside a serialized object.
    StoSubfield,
    /// Locate an entry inside a serialized array.
    StoSubarray,
    /// Emplace a field into a serialized object at its canonical place.
    StoEmplace,
    /// Erase a field from a serialized object.
    StoErase,
    /// Validate a serialized object.
    StoValidate,
    /// Produce the emission-detail block for a soon-to-be-emitted transaction.
    EtxnDetails,
    /// Estimate the fee a transaction of the given size needs to be emitted.
    EtxnFeeBase,
    /// Declare how many transactions this execution intends to emit.
    EtxnReserve,
    /// Emit a prepared transaction.
    Emit,
    /// Report the executing account's 20-byte id.
    HookAccount,
    /// Report the executing hook's 32-byte hash.
    HookHash,
    /// Report the last closed ledger's 32-byte hash.
    LedgerLastHash,
    /// Draw a 32-byte nonce.
    Nonce,
    /// Serialize a slotted object into a buffer.
    Slot,
    /// Free a slot.
    SlotClear,
    /// Count the entries of a slotted array.
    SlotCount,
    /// Report the key of a slotted object.
    SlotId,
    /// Look an object up by keylet and place it into a slot.
    SlotSet,
    /// Report the serialized size of a slotted object.
    SlotSize,
    /// Slot one entry of a slotted array.
    SlotSubarray,
    /// Slot one field of a slotted object.
    SlotSubfield,
    /// Compare two wrapped decimal floats.
    FloatCompare,
    /// Serialize a wrapped decimal float into an amount field.
    FloatSto,
    /// Read a hook-state value.
    State,
    /// Write a hook-state value.
    StateSet,
    /// Read a hook-state value of another account.
    StateForeign,
    /// Serialize a field of the originating transaction.
    OtxnField,
    /// Render a field of the originating transaction as text.
    OtxnFieldTxt,
    /// Report the originating transaction's canonical hash.
    OtxnId,
    /// Load the originating transaction into a slot.
    OtxnSlot,
}

/// The marshaled arguments of one boundary call, by shape.
///
/// An output buffer is carried as its length only (the host writes it); an
/// input buffer is carried whole. The embedding passes buffers as
/// pointer-and-length pairs in the order given here and zero-fills whatever
/// slots of the raw shape are left.
#[derive(Debug, PartialEq, Eq)]
pub enum HostArgs {
    /// One plain integer argument.
    OneArg {
        /// The argument.
        a: u32,
    },
    /// Three plain integer arguments.
    ThreeArgs {
        /// The first argument.
        a: u32,
        /// The second argument.
        b: u32,
        /// The third argument.
        c: u32,
    },
    /// An output buffer and nothing else.
    BufWrite {
        /// Length of the output buffer.
        len: usize,
    },
    /// An output buffer and one integer argument.
    BufWrite1Arg {
        /// Length of the output buffer.
        len: usize,
        /// The integer argument.
        arg: u32,
    },
    /// One input buffer.
    BufRead {
        /// The input bytes.
        data: Vec<u8>,
    },
    /// One input buffer and one integer argument.
    BufRead1Arg {
        /// The input bytes.
        data: Vec<u8>,
        /// The integer argument.
        arg: u32,
    },
    /// One input buffer and a signed slot number.
    BufReadSlot {
        /// The input bytes.
        data: Vec<u8>,
        /// The slot number, zero asking for any free slot.
        slot_no: i32,
    },
    /// Two input buffers.
    Buf2Read {
        /// The first input.
        data_1: Vec<u8>,
        /// The second input.
        data_2: Vec<u8>,
    },
    /// An output buffer and one input buffer.
    BufWriteRead {
        /// Length of the output buffer.
        len: usize,
        /// The input bytes.
        data: Vec<u8>,
    },
    /// Three input buffers.
    Buf3Read {
        /// The first input.
        data_1: Vec<u8>,
        /// The second input.
        data_2: Vec<u8>,
        /// The third input.
        data_3: Vec<u8>,
    },
    /// An output buffer and two input buffers.
    BufWrite2Read {
        /// Length of the output buffer.
        len: usize,
        /// The first input.
        data_1: Vec<u8>,
        /// The second input.
        data_2: Vec<u8>,
    },
    /// An output buffer, one input buffer and one integer argument.
    BufWriteRead1Arg {
        /// Length of the output buffer.
        len: usize,
        /// The input bytes.
        data: Vec<u8>,
        /// The integer argument.
        arg: u32,
    },
    /// An output buffer, two input buffers and one integer argument.
    BufWrite2Read1Arg {
        /// Length of the output buffer.
        len: usize,
        /// The first input.
        data_1: Vec<u8>,
        /// The second input.
        data_2: Vec<u8>,
        /// The integer argument.
        arg: u32,
    },
    /// Two wrapped floats and the comparison-mode flags.
    FloatCompare {
        /// The first enclosing number.
        float_1: i64,
        /// The second enclosing number.
        float_2: i64,
        /// The comparison-mode flags.
        mode: u32,
    },
    /// The float-serialization shape: an output buffer, the currency code
    /// and issuer buffers, the enclosing number and the field code.
    FloatSto {
        /// Length of the output buffer.
        len: usize,
        /// The currency code bytes.
        currency: Vec<u8>,
        /// The issuer account id bytes.
        issuer: Vec<u8>,
        /// The enclosing number.
        enclosing: i64,
        /// The field code to tag the serialization with.
        field: u32,
    },
}

/// One fully marshaled boundary call.
#[derive(Debug, PartialEq, Eq)]
pub struct HostCall {
    /// The host function to call.
    pub func: HostFn,
    /// Its marshaled arguments.
    pub args: HostArgs,
}

} // verus!
