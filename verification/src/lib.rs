//! Canonical binary object codec and typed lookup-key construction for a
//! ledger hook.
//!
//! A hook is a small unit of code that runs inside a constrained sandbox and
//! talks to its host ledger process through a fixed menu of boundary calls.
//! Every boundary call takes plain integers and buffer descriptors and returns
//! a signed 64-bit value: non-negative means success (and, for lookups, packs
//! a byte range), negative means a member of a closed error taxonomy.
//!
//! This crate holds the part of that protocol that is pure computation:
//!
//! * the error taxonomy and the interpretation of signed status values
//!   ([`error`]),
//! * the location codec that unpacks "offset and length within a buffer"
//!   descriptors ([`location`]),
//! * the catalogs of field, transaction, account-role and amount-role codes
//!   ([`fields`]),
//! * the canonical field encoders that write one typed field byte-exactly
//!   ([`encode`]),
//! * the keylet dispatch that packs each lookup-key variant's arguments into
//!   the host call's fixed slot shape ([`keylet`]),
//! * the description of every boundary call the hook can issue ([`host`] and
//!   [`api`]),
//! * the assembler for a minimal canonical Payment transaction ([`payment`]),
//! * and small buffer utilities ([`helpers`]).
//!
//! The boundary calls themselves are performed by an unverified embedding
//! shim: a verified function here builds a [`host::HostCall`] value naming the
//! host function and its marshaled arguments, the shim performs the raw call,
//! and the verified interpreters here turn the returned status back into a
//! typed result.

pub mod api;
pub mod encode;
pub mod error;
pub mod fields;
pub mod helpers;
pub mod host;
pub mod keylet;
pub mod location;
pub mod payment;
pub mod xfl;
