//! The catalogs that parametrize the codec.
//!
//! These closed enumerations name the serialized-object fields, transaction
//! types, account roles and amount roles the host knows. The numeric code
//! beside each name is fixed by the host's own catalog and must match it
//! exactly, or a lookup silently targets the wrong field; none of the values
//! is chosen by this crate.

use vstd::prelude::*;

verus! {

/// Flag asking the host to serialize the transaction's fields in canonical
/// (sorted) order.
pub const TF_CANONICAL: u32 = 0x8000_0000;

/// Length in bytes of an account identifier.
pub const ACC_ID_LEN: usize = 20;
/// Length in bytes of a currency code.
pub const CURRENCY_CODE_SIZE: usize = 20;
/// Length in bytes of a ledger hash.
pub const LEDGER_HASH_LEN: usize = 32;
/// Length in bytes of a keylet.
pub const KEYLET_LEN: usize = 34;
/// Length in bytes of a state key.
pub const STATE_KEY_LEN: usize = 32;
/// Length in bytes of a nonce.
pub const NONCE_LEN: usize = 32;
/// Length in bytes of a generic hash.
pub const HASH_LEN: usize = 32;
/// Length in bytes of a serialized amount.
pub const AMOUNT_LEN: usize = 48;
/// Length in bytes of a canonical simple Payment transaction.
pub const PREPARE_PAYMENT_SIMPLE_SIZE: usize = 237;
/// Length in bytes of an emission-detail block.
pub const EMIT_DETAILS_SIZE: usize = 105;

/// A transaction type of the ledger.
#[derive(Clone, Copy, Debug, PartialEq, Eq, Structural)]
pub enum TxnType {
    Payment,
    EscrowCreate,
    EscrowFinish,
    AccountSet,
    EscrowCancel,
    RegularKeySet,
    OfferCreate,
    OfferCancel,
    TicketCreate,
    TicketCancel,
    SignerListSet,
    PaychanCreate,
    PaychanFund,
    PaychanClaim,
    CheckCreate,
    CheckCash,
    CheckCancel,
    DepositPreauth,
    TrustSet,
    AccountDelete,
    HookSet,
    Amendment,
    Fee,
    UnlModify,
}

/// The 16-bit code of a transaction type.
pub open spec fn spec_txn_type_code(t: TxnType) -> u16 {
    match t {
        TxnType::Payment => 0,
        TxnType::EscrowCreate => 1,
        TxnType::EscrowFinish => 2,
        TxnType::AccountSet => 3,
        TxnType::EscrowCancel => 4,
        TxnType::RegularKeySet => 5,
        TxnType::OfferCreate => 7,
        TxnType::OfferCancel => 8,
        TxnType::TicketCreate => 10,
        TxnType::TicketCancel => 11,
        TxnType::SignerListSet => 12,
        TxnType::PaychanCreate => 13,
        TxnType::PaychanFund => 14,
        TxnType::PaychanClaim => 15,
        TxnType::CheckCreate => 16,
        TxnType::CheckCash => 17,
        TxnType::CheckCancel => 18,
        TxnType::DepositPreauth => 19,
        TxnType::TrustSet => 20,
        TxnType::AccountDelete => 21,
        TxnType::HookSet => 22,
        TxnType::Amendment => 100,
        TxnType::Fee => 101,
        TxnType::UnlModify => 102,
    }
}

/// The 16-bit code of a transaction type.
pub fn txn_type_code(t: TxnType) -> (c: u16)
    ensures
        c == spec_txn_type_code(t),
{
    match t {
        TxnType::Payment => 0,
        TxnType::EscrowCreate => 1,
        TxnType::EscrowFinish => 2,
        TxnType::AccountSet => 3,
        TxnType::EscrowCancel => 4,
        TxnType::RegularKeySet => 5,
        TxnType::OfferCreate => 7,
        TxnType::OfferCancel => 8,
        TxnType::TicketCreate => 10,
        TxnType::TicketCancel => 11,
        TxnType::SignerListSet => 12,
        TxnType::PaychanCreate => 13,
        TxnType::PaychanFund => 14,
        TxnType::PaychanClaim => 15,
        TxnType::CheckCreate => 16,
        TxnType::CheckCash => 17,
        TxnType::CheckCancel => 18,
        TxnType::DepositPreauth => 19,
        TxnType::TrustSet => 20,
        TxnType::AccountDelete => 21,
        TxnType::HookSet => 22,
        TxnType::Amendment => 100,
        TxnType::Fee => 101,
        TxnType::UnlModify => 102,
    }
}
/// The role an account identifier plays within a serialized object.
#[derive(Clone, Copy, Debug, PartialEq, Eq, Structural)]
pub enum AccountType {
    Account,
    Owner,
    Destination,
    Issuer,
    Authorize,
    Unauthorize,
    Target,
    RegularKey,
    PseudoCallback,
}

/// The role code of an account field.
pub open spec fn spec_account_type_code(t: AccountType) -> u8 {
    match t {
        AccountType::Account => 1,
        AccountType::Owner => 2,
        AccountType::Destination => 3,
        AccountType::Issuer => 4,
        AccountType::Authorize => 5,
        AccountType::Unauthorize => 6,
        AccountType::Target => 7,
        AccountType::RegularKey => 8,
        AccountType::PseudoCallback => 9,
    }
}

/// The role code of an account field.
pub fn account_type_code(t: AccountType) -> (c: u8)
    ensures
        c == spec_account_type_code(t),
{
    match t {
        AccountType::Account => 1,
        AccountType::Owner => 2,
        AccountType::Destination => 3,
        AccountType::Issuer => 4,
        AccountType::Authorize => 5,
        AccountType::Unauthorize => 6,
        AccountType::Target => 7,
        AccountType::RegularKey => 8,
        AccountType::PseudoCallback => 9,
    }
}
/// The role an amount plays within a serialized object.
#[derive(Clone, Copy, Debug, PartialEq, Eq, Structural)]
pub enum AmountType {
    Amount,
    Balance,
    LimitAmount,
    TakerPays,
    TakerGets,
    LowLimit,
    HighLimit,
    Fee,
    SendMax,
    DeliverMin,
    MinimumOffer,
    RippleEscrow,
    DeliveredAmount,
}

/// The role code of an amount field.
pub open spec fn spec_amount_type_code(t: AmountType) -> u8 {
    match t {
        AmountType::Amount => 1,
        AmountType::Balance => 2,
        AmountType::LimitAmount => 3,
        AmountType::TakerPays => 4,
        AmountType::TakerGets => 5,
        AmountType::LowLimit => 6,
        AmountType::HighLimit => 7,
        AmountType::Fee => 8,
        AmountType::SendMax => 9,
        AmountType::DeliverMin => 10,
        AmountType::MinimumOffer => 16,
        AmountType::RippleEscrow => 17,
        AmountType::DeliveredAmount => 18,
    }
}

/// The role code of an amount field.
pub fn amount_type_code(t: AmountType) -> (c: u8)
    ensures
        c == spec_amount_type_code(t),
{
    match t {
        AmountType::Amount => 1,
        AmountType::Balance => 2,
        AmountType::LimitAmount => 3,
        AmountType::TakerPays => 4,
        AmountType::TakerGets => 5,
        AmountType::LowLimit => 6,
        AmountType::HighLimit => 7,
        AmountType::Fee => 8,
        AmountType::SendMax => 9,
        AmountType::DeliverMin => 10,
        AmountType::MinimumOffer => 16,
        AmountType::RippleEscrow => 17,
        AmountType::DeliveredAmount => 18,
    }
}

/// How traced data is rendered in the host's log.
#[derive(Clone, Copy, Debug, PartialEq, Eq, Structural)]
pub enum DataRepr {
    /// Render the bytes as UTF-8 text.
    AsUTF8,
    /// Render the bytes as hexadecimal.
    AsHex,
}

/// The code of a data representation.
pub open spec fn spec_data_repr_code(r: DataRepr) -> u32 {
    match r {
        DataRepr::AsUTF8 => 0,
        DataRepr::AsHex => 1,
    }
}

/// The code of a data representation.
pub fn data_repr_code(r: DataRepr) -> (c: u32)
    ensures
        c == spec_data_repr_code(r),
{
    match r {
        DataRepr::AsUTF8 => 0,
        DataRepr::AsHex => 1,
    }
}

/// What a slot-type query should report.
#[derive(Clone, Copy, Debug, PartialEq, Eq, Structural)]
pub enum SlotTypeFlags {
    /// Report the field code of the slotted object.
    Field,
    /// Report whether a slotted amount is in the native currency.
    XrpAmount,
}

/// The flag value of a slot-type query.
pub open spec fn spec_slot_type_flags_code(f: SlotTypeFlags) -> u32 {
    match f {
        SlotTypeFlags::Field => 0,
        SlotTypeFlags::XrpAmount => 1,
    }
}

/// The flag value of a slot-type query.
pub fn slot_type_flags_code(f: SlotTypeFlags) -> (c: u32)
    ensures
        c == spec_slot_type_flags_code(f),
{
    match f {
        SlotTypeFlags::Field => 0,
        SlotTypeFlags::XrpAmount => 1,
    }
}

/// The answer of a slot-type query: a field code, or which kind of amount the
/// slot holds.
#[derive(Clone, Copy, Debug, PartialEq, Eq, Structural)]
pub enum FieldOrXrpAmount {
    /// The slotted object's field identifier.
    Field(FieldId),
    /// The slotted amount is in the native currency.
    XrpAmount,
    /// The slotted amount is not in the native currency.
    NonXrpAmount,
}

/// One serialized-object field of the host's catalog.
#[derive(Clone, Copy, Debug, PartialEq, Eq, Structural)]
pub enum FieldId {
    Generic,
    LedgerEntry,
    Transaction,
    Validation,
    Metadata,
    Hash,
    Index,
    CloseResolution,
    Method,
    TransactionResult,
    TickSize,
    UNLModifyDisabling,
    LedgerEntryType,
    TransactionType,
    SignerWeight,
    Version,
    Flags,
    SourceTag,
    Sequence,
    PreviousTxnLgrSeq,
    LedgerSequence,
    CloseTime,
    ParentCloseTime,
    SigningTime,
    Expiration,
    TransferRate,
    WalletSize,
    OwnerCount,
    DestinationTag,
    HighQualityIn,
    HighQualityOut,
    LowQualityIn,
    LowQualityOut,
    QualityIn,
    QualityOut,
    StampEscrow,
    BondAmount,
    LoadFee,
    OfferSequence,
    FirstLedgerSequence,
    LastLedgerSequence,
    TransactionIndex,
    OperationLimit,
    ReferenceFeeUnits,
    ReserveBase,
    ReserveIncrement,
    SetFlag,
    ClearFlag,
    SignerQuorum,
    CancelAfter,
    FinishAfter,
    SignerListID,
    SettleDelay,
    HookStateCount,
    HookReserveCount,
    HookDataMaxSize,
    EmitGeneration,
    IndexNext,
    IndexPrevious,
    BookNode,
    OwnerNode,
    BaseFee,
    ExchangeRate,
    LowNode,
    HighNode,
    DestinationNode,
    Cookie,
    ServerVersion,
    EmitBurden,
    HookOn,
    EmailHash,
    TakerPaysCurrency,
    TakerPaysIssuer,
    TakerGetsCurrency,
    TakerGetsIssuer,
    LedgerHash,
    ParentHash,
    TransactionHash,
    AccountHash,
    PreviousTxnID,
    LedgerIndex,
    WalletLocator,
    RootIndex,
    AccountTxnID,
    EmitParentTxnID,
    EmitNonce,
    BookDirectory,
    InvoiceID,
    Nickname,
    Amendment,
    TicketID,
    Digest,
    PayChannel,
    ConsensusHash,
    CheckID,
    ValidatedHash,
    Amount,
    Balance,
    LimitAmount,
    TakerPays,
    TakerGets,
    LowLimit,
    HighLimit,
    Fee,
    SendMax,
    DeliverMin,
    MinimumOffer,
    RippleEscrow,
    DeliveredAmount,
    PublicKey,
    MessageKey,
    SigningPubKey,
    TxnSignature,
    Signature,
    Domain,
    FundCode,
    RemoveCode,
    ExpireCode,
    CreateCode,
    MemoType,
    MemoData,
    MemoFormat,
    Fulfillment,
    Condition,
    MasterSignature,
    UNLModifyValidator,
    NegativeUNLToDisable,
    NegativeUNLToReEnable,
    HookData,
    Account,
    Owner,
    Destination,
    Issuer,
    Authorize,
    Unauthorize,
    Target,
    RegularKey,
    Paths,
    Indexes,
    Hashes,
    Amendments,
    TransactionMetaData,
    CreatedNode,
    DeletedNode,
    ModifiedNode,
    PreviousFields,
    FinalFields,
    NewFields,
    TemplateEntry,
    Memo,
    SignerEntry,
    EmitDetails,
    Signer,
    Majority,
    NegativeUNLEntry,
    SigningAccounts,
    Signers,
    SignerEntries,
    Template,
    Necessary,
    Sufficient,
    AffectedNodes,
    Memos,
    Majorities,
    NegativeUNL,
}

/// The 32-bit field code of a serialized-object field.
pub open spec fn spec_field_code(f: FieldId) -> u32 {
    match f {
        FieldId::Generic => 0x0,
        FieldId::LedgerEntry => 0x2712_0101,
        FieldId::Transaction => 0x2711_0101,
        FieldId::Validation => 0x2713_0101,
        FieldId::Metadata => 0x2714_0101,
        FieldId::Hash => 0x5_0101,
        FieldId::Index => 0x5_0102,
        FieldId::CloseResolution => 0x10_0001,
        FieldId::Method => 0x10_0002,
        FieldId::TransactionResult => 0x10_0003,
        FieldId::TickSize => 0x10_0010,
        FieldId::UNLModifyDisabling => 0x10_0011,
        FieldId::LedgerEntryType => 0x1_0001,
        FieldId::TransactionType => 0x1_0002,
        FieldId::SignerWeight => 0x1_0003,
        FieldId::Version => 0x1_0010,
        FieldId::Flags => 0x2_0002,
        FieldId::SourceTag => 0x2_0003,
        FieldId::Sequence => 0x2_0004,
        FieldId::PreviousTxnLgrSeq => 0x2_0005,
        FieldId::LedgerSequence => 0x2_0006,
        FieldId::CloseTime => 0x2_0007,
        FieldId::ParentCloseTime => 0x2_0008,
        FieldId::SigningTime => 0x2_0009,
        FieldId::Expiration => 0x2_000A,
        FieldId::TransferRate => 0x2_000B,
        FieldId::WalletSize => 0x2_000C,
        FieldId::OwnerCount => 0x2_000D,
        FieldId::DestinationTag => 0x2_000E,
        FieldId::HighQualityIn => 0x2_0010,
        FieldId::HighQualityOut => 0x2_0011,
        FieldId::LowQualityIn => 0x2_0012,
        FieldId::LowQualityOut => 0x2_0013,
        FieldId::QualityIn => 0x2_0014,
        FieldId::QualityOut => 0x2_0015,
        FieldId::StampEscrow => 0x2_0016,
        FieldId::BondAmount => 0x2_0017,
        FieldId::LoadFee => 0x2_0018,
        FieldId::OfferSequence => 0x2_0019,
        FieldId::FirstLedgerSequence => 0x2_001A,
        FieldId::LastLedgerSequence => 0x2_001B,
        FieldId::TransactionIndex => 0x2_001C,
        FieldId::OperationLimit => 0x2_001D,
        FieldId::ReferenceFeeUnits => 0x2_001E,
        FieldId::ReserveBase => 0x2_001F,
        FieldId::ReserveIncrement => 0x2_0020,
        FieldId::SetFlag => 0x2_0021,
        FieldId::ClearFlag => 0x2_0022,
        FieldId::SignerQuorum => 0x2_0023,
        FieldId::CancelAfter => 0x2_0024,
        FieldId::FinishAfter => 0x2_0025,
        FieldId::SignerListID => 0x2_0026,
        FieldId::SettleDelay => 0x2_0027,
        FieldId::HookStateCount => 0x2_0028,
        FieldId::HookReserveCount => 0x2_0029,
        FieldId::HookDataMaxSize => 0x2_002A,
        FieldId::EmitGeneration => 0x2_002B,
        FieldId::IndexNext => 0x3_0001,
        FieldId::IndexPrevious => 0x3_0002,
        FieldId::BookNode => 0x3_0003,
        FieldId::OwnerNode => 0x3_0004,
        FieldId::BaseFee => 0x3_0005,
        FieldId::ExchangeRate => 0x3_0006,
        FieldId::LowNode => 0x3_0007,
        FieldId::HighNode => 0x3_0008,
        FieldId::DestinationNode => 0x3_0009,
        FieldId::Cookie => 0x3_000A,
        FieldId::ServerVersion => 0x3_000B,
        FieldId::EmitBurden => 0x3_000C,
        FieldId::HookOn => 0x3_0010,
        FieldId::EmailHash => 0x4_0001,
        FieldId::TakerPaysCurrency => 0x11_0001,
        FieldId::TakerPaysIssuer => 0x11_0002,
        FieldId::TakerGetsCurrency => 0x11_0003,
        FieldId::TakerGetsIssuer => 0x11_0004,
        FieldId::LedgerHash => 0x5_0001,
        FieldId::ParentHash => 0x5_0002,
        FieldId::TransactionHash => 0x5_0003,
        FieldId::AccountHash => 0x5_0004,
        FieldId::PreviousTxnID => 0x5_0005,
        FieldId::LedgerIndex => 0x5_0006,
        FieldId::WalletLocator => 0x5_0007,
        FieldId::RootIndex => 0x5_0008,
        FieldId::AccountTxnID => 0x5_0009,
        FieldId::EmitParentTxnID => 0x5_000A,
        FieldId::EmitNonce => 0x5_000B,
        FieldId::BookDirectory => 0x5_0010,
        FieldId::InvoiceID => 0x5_0011,
        FieldId::Nickname => 0x5_0012,
        FieldId::Amendment => 0x5_0013,
        FieldId::TicketID => 0x5_0014,
        FieldId::Digest => 0x5_0015,
        FieldId::PayChannel => 0x5_0016,
        FieldId::ConsensusHash => 0x5_0017,
        FieldId::CheckID => 0x5_0018,
        FieldId::ValidatedHash => 0x5_0019,
        FieldId::Amount => 0x6_0001,
        FieldId::Balance => 0x6_0002,
        FieldId::LimitAmount => 0x6_0003,
        FieldId::TakerPays => 0x6_0004,
        FieldId::TakerGets => 0x6_0005,
        FieldId::LowLimit => 0x6_0006,
        FieldId::HighLimit => 0x6_0007,
        FieldId::Fee => 0x6_0008,
        FieldId::SendMax => 0x6_0009,
        FieldId::DeliverMin => 0x6_000A,
        FieldId::MinimumOffer => 0x6_0010,
        FieldId::RippleEscrow => 0x6_0011,
        FieldId::DeliveredAmount => 0x6_0012,
        FieldId::PublicKey => 0x7_0001,
        FieldId::MessageKey => 0x7_0002,
        FieldId::SigningPubKey => 0x7_0003,
        FieldId::TxnSignature => 0x7_0004,
        FieldId::Signature => 0x7_0006,
        FieldId::Domain => 0x7_0007,
        FieldId::FundCode => 0x7_0008,
        FieldId::RemoveCode => 0x7_0009,
        FieldId::ExpireCode => 0x7_000A,
        FieldId::CreateCode => 0x7_000B,
        FieldId::MemoType => 0x7_000C,
        FieldId::MemoData => 0x7_000D,
        FieldId::MemoFormat => 0x7_000E,
        FieldId::Fulfillment => 0x7_0010,
        FieldId::Condition => 0x7_0011,
        FieldId::MasterSignature => 0x7_0012,
        FieldId::UNLModifyValidator => 0x7_0013,
        FieldId::NegativeUNLToDisable => 0x7_0014,
        FieldId::NegativeUNLToReEnable => 0x7_0015,
        FieldId::HookData => 0x7_0016,
        FieldId::Account => 0x8_0001,
        FieldId::Owner => 0x8_0002,
        FieldId::Destination => 0x8_0003,
        FieldId::Issuer => 0x8_0004,
        FieldId::Authorize => 0x8_0005,
        FieldId::Unauthorize => 0x8_0006,
        FieldId::Target => 0x8_0007,
        FieldId::RegularKey => 0x8_0008,
        FieldId::Paths => 0x12_0001,
        FieldId::Indexes => 0x13_0001,
        FieldId::Hashes => 0x13_0002,
        FieldId::Amendments => 0x13_0003,
        FieldId::TransactionMetaData => 0xE_0002,
        FieldId::CreatedNode => 0xE_0003,
        FieldId::DeletedNode => 0xE_0004,
        FieldId::ModifiedNode => 0xE_0005,
        FieldId::PreviousFields => 0xE_0006,
        FieldId::FinalFields => 0xE_0007,
        FieldId::NewFields => 0xE_0008,
        FieldId::TemplateEntry => 0xE_0009,
        FieldId::Memo => 0xE_000A,
        FieldId::SignerEntry => 0xE_000B,
        FieldId::EmitDetails => 0xE_000D,
        FieldId::Signer => 0xE_0010,
        FieldId::Majority => 0xE_0012,
        FieldId::NegativeUNLEntry => 0xE_0013,
        FieldId::SigningAccounts => 0xF_0002,
        FieldId::Signers => 0xF_0003,
        FieldId::SignerEntries => 0xF_0004,
        FieldId::Template => 0xF_0005,
        FieldId::Necessary => 0xF_0006,
        FieldId::Sufficient => 0xF_0007,
        FieldId::AffectedNodes => 0xF_0008,
        FieldId::Memos => 0xF_0009,
        FieldId::Majorities => 0xF_0010,
        FieldId::NegativeUNL => 0xF_0011,
    }
}

/// The 32-bit field code of a serialized-object field.
pub fn field_code(f: FieldId) -> (c: u32)
    ensures
        c == spec_field_code(f),
{
    match f {
        FieldId::Generic => 0x0,
        FieldId::LedgerEntry => 0x2712_0101,
        FieldId::Transaction => 0x2711_0101,
        FieldId::Validation => 0x2713_0101,
        FieldId::Metadata => 0x2714_0101,
        FieldId::Hash => 0x5_0101,
        FieldId::Index => 0x5_0102,
        FieldId::CloseResolution => 0x10_0001,
        FieldId::Method => 0x10_0002,
        FieldId::TransactionResult => 0x10_0003,
        FieldId::TickSize => 0x10_0010,
        FieldId::UNLModifyDisabling => 0x10_0011,
        FieldId::LedgerEntryType => 0x1_0001,
        FieldId::TransactionType => 0x1_0002,
        FieldId::SignerWeight => 0x1_0003,
        FieldId::Version => 0x1_0010,
        FieldId::Flags => 0x2_0002,
        FieldId::SourceTag => 0x2_0003,
        FieldId::Sequence => 0x2_0004,
        FieldId::PreviousTxnLgrSeq => 0x2_0005,
        FieldId::LedgerSequence => 0x2_0006,
        FieldId::CloseTime => 0x2_0007,
        FieldId::ParentCloseTime => 0x2_0008,
        FieldId::SigningTime => 0x2_0009,
        FieldId::Expiration => 0x2_000A,
        FieldId::TransferRate => 0x2_000B,
        FieldId::WalletSize => 0x2_000C,
        FieldId::OwnerCount => 0x2_000D,
        FieldId::DestinationTag => 0x2_000E,
        FieldId::HighQualityIn => 0x2_0010,
        FieldId::HighQualityOut => 0x2_0011,
        FieldId::LowQualityIn => 0x2_0012,
        FieldId::LowQualityOut => 0x2_0013,
        FieldId::QualityIn => 0x2_0014,
        FieldId::QualityOut => 0x2_0015,
        FieldId::StampEscrow => 0x2_0016,
        FieldId::BondAmount => 0x2_0017,
        FieldId::LoadFee => 0x2_0018,
        FieldId::OfferSequence => 0x2_0019,
        FieldId::FirstLedgerSequence => 0x2_001A,
        FieldId::LastLedgerSequence => 0x2_001B,
        FieldId::TransactionIndex => 0x2_001C,
        FieldId::OperationLimit => 0x2_001D,
        FieldId::ReferenceFeeUnits => 0x2_001E,
        FieldId::ReserveBase => 0x2_001F,
        FieldId::ReserveIncrement => 0x2_0020,
        FieldId::SetFlag => 0x2_0021,
        FieldId::ClearFlag => 0x2_0022,
        FieldId::SignerQuorum => 0x2_0023,
        FieldId::CancelAfter => 0x2_0024,
        FieldId::FinishAfter => 0x2_0025,
        FieldId::SignerListID => 0x2_0026,
        FieldId::SettleDelay => 0x2_0027,
        FieldId::HookStateCount => 0x2_0028,
        FieldId::HookReserveCount => 0x2_0029,
        FieldId::HookDataMaxSize => 0x2_002A,
        FieldId::EmitGeneration => 0x2_002B,
        FieldId::IndexNext => 0x3_0001,
        FieldId::IndexPrevious => 0x3_0002,
        FieldId::BookNode => 0x3_0003,
        FieldId::OwnerNode => 0x3_0004,
        FieldId::BaseFee => 0x3_0005,
        FieldId::ExchangeRate => 0x3_0006,
        FieldId::LowNode => 0x3_0007,
        FieldId::HighNode => 0x3_0008,
        FieldId::DestinationNode => 0x3_0009,
        FieldId::Cookie => 0x3_000A,
        FieldId::ServerVersion => 0x3_000B,
        FieldId::EmitBurden => 0x3_000C,
        FieldId::HookOn => 0x3_0010,
        FieldId::EmailHash => 0x4_0001,
        FieldId::TakerPaysCurrency => 0x11_0001,
        FieldId::TakerPaysIssuer => 0x11_0002,
        FieldId::TakerGetsCurrency => 0x11_0003,
        FieldId::TakerGetsIssuer => 0x11_0004,
        FieldId::LedgerHash => 0x5_0001,
        FieldId::ParentHash => 0x5_0002,
        FieldId::TransactionHash => 0x5_0003,
        FieldId::AccountHash => 0x5_0004,
        FieldId::PreviousTxnID => 0x5_0005,
        FieldId::LedgerIndex => 0x5_0006,
        FieldId::WalletLocator => 0x5_0007,
        FieldId::RootIndex => 0x5_0008,
        FieldId::AccountTxnID => 0x5_0009,
        FieldId::EmitParentTxnID => 0x5_000A,
        FieldId::EmitNonce => 0x5_000B,
        FieldId::BookDirectory => 0x5_0010,
        FieldId::InvoiceID => 0x5_0011,
        FieldId::Nickname => 0x5_0012,
        FieldId::Amendment => 0x5_0013,
        FieldId::TicketID => 0x5_0014,
        FieldId::Digest => 0x5_0015,
        FieldId::PayChannel => 0x5_0016,
        FieldId::ConsensusHash => 0x5_0017,
        FieldId::CheckID => 0x5_0018,
        FieldId::ValidatedHash => 0x5_0019,
        FieldId::Amount => 0x6_0001,
        FieldId::Balance => 0x6_0002,
        FieldId::LimitAmount => 0x6_0003,
        FieldId::TakerPays => 0x6_0004,
        FieldId::TakerGets => 0x6_0005,
        FieldId::LowLimit => 0x6_0006,
        FieldId::HighLimit => 0x6_0007,
        FieldId::Fee => 0x6_0008,
        FieldId::SendMax => 0x6_0009,
        FieldId::DeliverMin => 0x6_000A,
        FieldId::MinimumOffer => 0x6_0010,
        FieldId::RippleEscrow => 0x6_0011,
        FieldId::DeliveredAmount => 0x6_0012,
        FieldId::PublicKey => 0x7_0001,
        FieldId::MessageKey => 0x7_0002,
        FieldId::SigningPubKey => 0x7_0003,
        FieldId::TxnSignature => 0x7_0004,
        FieldId::Signature => 0x7_0006,
        FieldId::Domain => 0x7_0007,
        FieldId::FundCode => 0x7_0008,
        FieldId::RemoveCode => 0x7_0009,
        FieldId::ExpireCode => 0x7_000A,
        FieldId::CreateCode => 0x7_000B,
        FieldId::MemoType => 0x7_000C,
        FieldId::MemoData => 0x7_000D,
        FieldId::MemoFormat => 0x7_000E,
        FieldId::Fulfillment => 0x7_0010,
        FieldId::Condition => 0x7_0011,
        FieldId::MasterSignature => 0x7_0012,
        FieldId::UNLModifyValidator => 0x7_0013,
        FieldId::NegativeUNLToDisable => 0x7_0014,
        FieldId::NegativeUNLToReEnable => 0x7_0015,
        FieldId::HookData => 0x7_0016,
        FieldId::Account => 0x8_0001,
        FieldId::Owner => 0x8_0002,
        FieldId::Destination => 0x8_0003,
        FieldId::Issuer => 0x8_0004,
        FieldId::Authorize => 0x8_0005,
        FieldId::Unauthorize => 0x8_0006,
        FieldId::Target => 0x8_0007,
        FieldId::RegularKey => 0x8_0008,
        FieldId::Paths => 0x12_0001,
        FieldId::Indexes => 0x13_0001,
        FieldId::Hashes => 0x13_0002,
        FieldId::Amendments => 0x13_0003,
        FieldId::TransactionMetaData => 0xE_0002,
        FieldId::CreatedNode => 0xE_0003,
        FieldId::DeletedNode => 0xE_0004,
        FieldId::ModifiedNode => 0xE_0005,
        FieldId::PreviousFields => 0xE_0006,
        FieldId::FinalFields => 0xE_0007,
        FieldId::NewFields => 0xE_0008,
        FieldId::TemplateEntry => 0xE_0009,
        FieldId::Memo => 0xE_000A,
        FieldId::SignerEntry => 0xE_000B,
        FieldId::EmitDetails => 0xE_000D,
        FieldId::Signer => 0xE_0010,
        FieldId::Majority => 0xE_0012,
        FieldId::NegativeUNLEntry => 0xE_0013,
        FieldId::SigningAccounts => 0xF_0002,
        FieldId::Signers => 0xF_0003,
        FieldId::SignerEntries => 0xF_0004,
        FieldId::Template => 0xF_0005,
        FieldId::Necessary => 0xF_0006,
        FieldId::Sufficient => 0xF_0007,
        FieldId::AffectedNodes => 0xF_0008,
        FieldId::Memos => 0xF_0009,
        FieldId::Majorities => 0xF_0010,
        FieldId::NegativeUNL => 0xF_0011,
    }
}

} // verus!
