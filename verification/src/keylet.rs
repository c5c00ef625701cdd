//! The keylet constructor's argument packing.
//!
//! A keylet is a fixed 34-byte key identifying a ledger object by type and
//! discriminating arguments. The host derives the bytes; this layer's job is
//! to pack each variant's zero to three buffer arguments and zero to two
//! integer arguments, with the variant's discriminant, into the boundary
//! call's fixed slot shape. The call is positional, not named: buffers come
//! first in the variant's declared order, each as a pointer-and-length pair,
//! then the integers, and every slot left over is zero.

use vstd::prelude::*;
use crate::helpers::copy_buf;

verus! {

/// Discriminant of a hook-definition keylet.
pub const KEYLET_HOOK: u32 = 1;
/// Discriminant of a hook-state-entry keylet.
pub const KEYLET_HOOK_STATE: u32 = 2;
/// Discriminant of an account-root keylet.
pub const KEYLET_ACCOUNT: u32 = 3;
/// Discriminant of the amendments-table keylet.
pub const KEYLET_AMENDMENTS: u32 = 4;
/// Discriminant of a child keylet.
pub const KEYLET_CHILD: u32 = 5;
/// Discriminant of a ledger-skip-list keylet.
pub const KEYLET_SKIP: u32 = 6;
/// Discriminant of the fee-settings keylet.
pub const KEYLET_FEES: u32 = 7;
/// Discriminant of the negative-UNL keylet.
pub const KEYLET_NEGATIVE_UNL: u32 = 8;
/// Discriminant of a trust-line keylet.
pub const KEYLET_LINE: u32 = 9;
/// Discriminant of an offer keylet.
pub const KEYLET_OFFER: u32 = 10;
/// Discriminant of a quality-index keylet.
pub const KEYLET_QUALITY: u32 = 11;
/// Discriminant of the emitted-transaction-directory keylet.
pub const KEYLET_EMITTED_DIR: u32 = 12;
/// Discriminant of a signer-list keylet.
pub const KEYLET_SIGNERS: u32 = 13;
/// Discriminant of a check keylet.
pub const KEYLET_CHECK: u32 = 14;
/// Discriminant of a deposit-preauthorization keylet.
pub const KEYLET_DEPOSIT_PREAUTH: u32 = 15;
/// Discriminant of an unchecked raw-key keylet.
pub const KEYLET_UNCHECKED: u32 = 16;
/// Discriminant of an owner-directory keylet.
pub const KEYLET_OWNER_DIR: u32 = 17;
/// Discriminant of a directory-page keylet.
pub const KEYLET_PAGE: u32 = 18;
/// Discriminant of an escrow keylet.
pub const KEYLET_ESCROW: u32 = 19;
/// Discriminant of a payment-channel keylet.
pub const KEYLET_PAYCHAN: u32 = 20;
/// Discriminant of an emitted-transaction-record keylet.
pub const KEYLET_EMITTED: u32 = 21;

/// One keylet variant with its discriminating arguments.
#[derive(Debug, PartialEq, Eq)]
pub enum KeyletType {
    /// Hook definition of an account (the account id).
    Hook(Vec<u8>),
    /// Hook state entry (the owning account id and the state key).
    HookState(Vec<u8>, Vec<u8>),
    /// Account root (the account id).
    Account(Vec<u8>),
    /// The amendments table; no arguments.
    Amendments,
    /// Child of a directory node (the parent key).
    Child(Vec<u8>),
    /// The ledger skip list, optionally for a (ledger index, window) pair.
    Skip(Option<(u32, u32)>),
    /// The fee settings; no arguments.
    Fees,
    /// The negative UNL; no arguments.
    NegativeUnl,
    /// Trust line (the two account ids and the currency code).
    Line(Vec<u8>, Vec<u8>, Vec<u8>),
    /// Offer (the owning account id and the offer sequence).
    Offer(Vec<u8>, u32),
    /// Quality index (a serialized keylet and the high and low 32 bits).
    Quality(Vec<u8>, u32, u32),
    /// The emitted-transaction directory; no arguments.
    EmittedDir,
    /// Signer list (the owning account id).
    Signers(Vec<u8>),
    /// Check (the owning account id and the check sequence).
    Check(Vec<u8>, u32),
    /// Deposit preauthorization (the owner and the authorized account id).
    DepositPreauth(Vec<u8>, Vec<u8>),
    /// An unchecked raw key (the 32 key bytes).
    Unchecked(Vec<u8>),
    /// Owner directory (the owning account id).
    OwnerDir(Vec<u8>),
    /// Directory page (the root key and the high and low index bits).
    Page(Vec<u8>, u32, u32),
    /// Escrow (the owning account id and the escrow sequence).
    Escrow(Vec<u8>, u32),
    /// Payment channel (the two account ids and the channel sequence).
    Paychan(Vec<u8>, Vec<u8>, u32),
    /// Emitted-transaction record (the transaction hash).
    Emitted(Vec<u8>),
}

/// One packed keylet boundary call: the variant's discriminant, the buffer
/// arguments in declared order, and the integer arguments after them. The
/// embedding lays `bufs` out as pointer-and-length slot pairs, then `ints`,
/// and fills every remaining slot of the fixed call shape with zero.
#[derive(Debug, PartialEq, Eq)]
pub struct KeyletCall {
    /// The keylet variant's discriminant.
    pub keylet_type: u32,
    /// The buffer arguments, in the variant's declared order.
    pub bufs: Vec<Vec<u8>>,
    /// The integer arguments, after all buffers.
    pub ints: Vec<u32>,
}

/// The discriminant sent for a keylet variant.
pub open spec fn spec_keylet_tag(kt: KeyletType) -> u32 {
    match kt {
        KeyletType::Hook(..) => KEYLET_HOOK,
        KeyletType::HookState(..) => KEYLET_HOOK_STATE,
        KeyletType::Account(..) => KEYLET_ACCOUNT,
        KeyletType::Amendments => KEYLET_AMENDMENTS,
        KeyletType::Child(..) => KEYLET_CHILD,
        KeyletType::Skip(..) => KEYLET_SKIP,
        KeyletType::Fees => KEYLET_FEES,
        KeyletType::NegativeUnl => KEYLET_NEGATIVE_UNL,
        KeyletType::Line(..) => KEYLET_LINE,
        KeyletType::Offer(..) => KEYLET_OFFER,
        KeyletType::Quality(..) => KEYLET_QUALITY,
        KeyletType::EmittedDir => KEYLET_EMITTED_DIR,
        KeyletType::Signers(..) => KEYLET_SIGNERS,
        KeyletType::Check(..) => KEYLET_CHECK,
        KeyletType::DepositPreauth(..) => KEYLET_DEPOSIT_PREAUTH,
        KeyletType::Unchecked(..) => KEYLET_UNCHECKED,
        KeyletType::OwnerDir(..) => KEYLET_OWNER_DIR,
        KeyletType::Page(..) => KEYLET_PAGE,
        KeyletType::Escrow(..) => KEYLET_ESCROW,
        KeyletType::Paychan(..) => KEYLET_PAYCHAN,
        KeyletType::Emitted(..) => KEYLET_EMITTED,
    }
}

/// The buffer arguments a keylet variant packs, in declared order.
pub open spec fn spec_keylet_bufs(kt: KeyletType) -> Seq<Seq<u8>> {
    match kt {
        KeyletType::Hook(accid) => seq![accid@],
        KeyletType::HookState(accid, statekey) => seq![accid@, statekey@],
        KeyletType::Account(accid) => seq![accid@],
        KeyletType::Amendments => seq![],
        KeyletType::Child(key) => seq![key@],
        KeyletType::Skip(..) => seq![],
        KeyletType::Fees => seq![],
        KeyletType::NegativeUnl => seq![],
        KeyletType::Line(accid_high, accid_low, currency_code) => seq![
            accid_high@,
            accid_low@,
            currency_code@,
        ],
        KeyletType::Offer(accid, ..) => seq![accid@],
        KeyletType::Quality(serialized_keylet, ..) => seq![serialized_keylet@],
        KeyletType::EmittedDir => seq![],
        KeyletType::Signers(accid) => seq![accid@],
        KeyletType::Check(accid, ..) => seq![accid@],
        KeyletType::DepositPreauth(accid_1, accid_2) => seq![accid_1@, accid_2@],
        KeyletType::Unchecked(key) => seq![key@],
        KeyletType::OwnerDir(accid) => seq![accid@],
        KeyletType::Page(key, ..) => seq![key@],
        KeyletType::Escrow(accid, ..) => seq![accid@],
        KeyletType::Paychan(accid_1, accid_2, ..) => seq![accid_1@, accid_2@],
        KeyletType::Emitted(key) => seq![key@],
    }
}

/// The integer arguments a keylet variant packs, after its buffers.
pub open spec fn spec_keylet_ints(kt: KeyletType) -> Seq<u32> {
    match kt {
        KeyletType::Skip(Some((ledger_index, num))) => seq![ledger_index, num],
        KeyletType::Skip(None) => seq![],
        KeyletType::Offer(_, num) => seq![num],
        KeyletType::Quality(_, bits_high, bits_low) => seq![bits_high, bits_low],
        KeyletType::Check(_, num) => seq![num],
        KeyletType::Page(_, bits_high, bits_low) => seq![bits_high, bits_low],
        KeyletType::Escrow(_, num) => seq![num],
        KeyletType::Paychan(_, _, num) => seq![num],
        _ => seq![],
    }
}

/// Packs a keylet variant's arguments into the boundary call's shape.
///
/// Every variant issues the call, the zero-argument ones with all slots zero:
/// their keys are type-constant but still host-computed. The skip-list
/// variant with a (ledger index, window) pair is the one shape whose argument
/// list is all integers, so its two values go through the integer path, never
/// the buffer path. The host answers with exactly 34 key bytes on success or
/// a negative status.
pub fn util_keylet(keylet_type: &KeyletType) -> (c: KeyletCall)
    ensures
        c.keylet_type == spec_keylet_tag(*keylet_type),
        c.bufs.deep_view() == spec_keylet_bufs(*keylet_type),
        c.ints@ == spec_keylet_ints(*keylet_type),
        2 * c.bufs@.len() + c.ints@.len() <= 6,
{
    let c = match keylet_type {
        KeyletType::Hook(accid) => KeyletCall {
            keylet_type: KEYLET_HOOK,
            bufs: vec![copy_buf(accid)],
            ints: vec![],
        },
        KeyletType::HookState(accid, statekey) => KeyletCall {
            keylet_type: KEYLET_HOOK_STATE,
            bufs: vec![copy_buf(accid), copy_buf(statekey)],
            ints: vec![],
        },
        KeyletType::Account(accid) => KeyletCall {
            keylet_type: KEYLET_ACCOUNT,
            bufs: vec![copy_buf(accid)],
            ints: vec![],
        },
        KeyletType::Amendments => KeyletCall {
            keylet_type: KEYLET_AMENDMENTS,
            bufs: vec![],
            ints: vec![],
        },
        KeyletType::Child(key) => KeyletCall {
            keylet_type: KEYLET_CHILD,
            bufs: vec![copy_buf(key)],
            ints: vec![],
        },
        KeyletType::Skip(opt) => match opt {
            None => KeyletCall { keylet_type: KEYLET_SKIP, bufs: vec![], ints: vec![] },
            Some((ledger_index, num)) => KeyletCall {
                keylet_type: KEYLET_SKIP,
                bufs: vec![],
                ints: vec![*ledger_index, *num],
            },
        },
        KeyletType::Fees => KeyletCall { keylet_type: KEYLET_FEES, bufs: vec![], ints: vec![] },
        KeyletType::NegativeUnl => KeyletCall {
            keylet_type: KEYLET_NEGATIVE_UNL,
            bufs: vec![],
            ints: vec![],
        },
        KeyletType::Line(accid_high, accid_low, currency_code) => KeyletCall {
            keylet_type: KEYLET_LINE,
            bufs: vec![copy_buf(accid_high), copy_buf(accid_low), copy_buf(currency_code)],
            ints: vec![],
        },
        KeyletType::Offer(accid, num) => KeyletCall {
            keylet_type: KEYLET_OFFER,
            bufs: vec![copy_buf(accid)],
            ints: vec![*num],
        },
        KeyletType::Quality(serialized_keylet, bits_high, bits_low) => KeyletCall {
            keylet_type: KEYLET_QUALITY,
            bufs: vec![copy_buf(serialized_keylet)],
            ints: vec![*bits_high, *bits_low],
        },
        KeyletType::EmittedDir => KeyletCall {
            keylet_type: KEYLET_EMITTED_DIR,
            bufs: vec![],
            ints: vec![],
        },
        KeyletType::Signers(accid) => KeyletCall {
            keylet_type: KEYLET_SIGNERS,
            bufs: vec![copy_buf(accid)],
            ints: vec![],
        },
        KeyletType::Check(accid, num) => KeyletCall {
            keylet_type: KEYLET_CHECK,
            bufs: vec![copy_buf(accid)],
            ints: vec![*num],
        },
        KeyletType::DepositPreauth(accid_1, accid_2) => KeyletCall {
            keylet_type: KEYLET_DEPOSIT_PREAUTH,
            bufs: vec![copy_buf(accid_1), copy_buf(accid_2)],
            ints: vec![],
        },
        KeyletType::Unchecked(key) => KeyletCall {
            keylet_type: KEYLET_UNCHECKED,
            bufs: vec![copy_buf(key)],
            ints: vec![],
        },
        KeyletType::OwnerDir(accid) => KeyletCall {
            keylet_type: KEYLET_OWNER_DIR,
            bufs: vec![copy_buf(accid)],
            ints: vec![],
        },
        KeyletType::Page(key, bits_high, bits_low) => KeyletCall {
            keylet_type: KEYLET_PAGE,
            bufs: vec![copy_buf(key)],
            ints: vec![*bits_high, *bits_low],
        },
        KeyletType::Escrow(accid, num) => KeyletCall {
            keylet_type: KEYLET_ESCROW,
            bufs: vec![copy_buf(accid)],
            ints: vec![*num],
        },
        KeyletType::Paychan(accid_1, accid_2, num) => KeyletCall {
            keylet_type: KEYLET_PAYCHAN,
            bufs: vec![copy_buf(accid_1), copy_buf(accid_2)],
            ints: vec![*num],
        },
        KeyletType::Emitted(key) => KeyletCall {
            keylet_type: KEYLET_EMITTED,
            bufs: vec![copy_buf(key)],
            ints: vec![],
        },
    };
    proof {
        assert(c.bufs.deep_view() =~~= spec_keylet_bufs(*keylet_type));
        assert(c.ints@ =~= spec_keylet_ints(*keylet_type));
    }
    c
}

/// True of two keylet variants built by the same constructor.
pub open spec fn same_keylet_variant(a: KeyletType, b: KeyletType) -> bool {
    match (a, b) {
        (KeyletType::Hook(..), KeyletType::Hook(..)) => true,
        (KeyletType::HookState(..), KeyletType::HookState(..)) => true,
        (KeyletType::Account(..), KeyletType::Account(..)) => true,
        (KeyletType::Amendments, KeyletType::Amendments) => true,
        (KeyletType::Child(..), KeyletType::Child(..)) => true,
        (KeyletType::Skip(..), KeyletType::Skip(..)) => true,
        (KeyletType::Fees, KeyletType::Fees) => true,
        (KeyletType::NegativeUnl, KeyletType::NegativeUnl) => true,
        (KeyletType::Line(..), KeyletType::Line(..)) => true,
        (KeyletType::Offer(..), KeyletType::Offer(..)) => true,
        (KeyletType::Quality(..), KeyletType::Quality(..)) => true,
        (KeyletType::EmittedDir, KeyletType::EmittedDir) => true,
        (KeyletType::Signers(..), KeyletType::Signers(..)) => true,
        (KeyletType::Check(..), KeyletType::Check(..)) => true,
        (KeyletType::DepositPreauth(..), KeyletType::DepositPreauth(..)) => true,
        (KeyletType::Unchecked(..), KeyletType::Unchecked(..)) => true,
        (KeyletType::OwnerDir(..), KeyletType::OwnerDir(..)) => true,
        (KeyletType::Page(..), KeyletType::Page(..)) => true,
        (KeyletType::Escrow(..), KeyletType::Escrow(..)) => true,
        (KeyletType::Paychan(..), KeyletType::Paychan(..)) => true,
        (KeyletType::Emitted(..), KeyletType::Emitted(..)) => true,
        _ => false,
    }
}

/// Law: the dispatch never mixes variants up. Two keylet values are sent with
/// the same discriminant only when they were built by the same constructor,
/// so two different variants of the same arity (the skip list's two integers
/// against a check's buffer and integer, say) can never collide.
pub proof fn lemma_keylet_tags_distinct(a: KeyletType, b: KeyletType)
    ensures
        spec_keylet_tag(a) == spec_keylet_tag(b) ==> same_keylet_variant(a, b),
{
}

} // verus!
