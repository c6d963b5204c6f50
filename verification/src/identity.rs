//! Account and asset identities as plain values.
//!
//! The host ledger addresses accounts and assets by 256-bit keys. The pool
//! logic never inspects a key beyond comparing it for equality, so a key is
//! held here as four 64-bit limbs (big-endian order). Callers convert the
//! host's key representation to and from this form.

use vstd::prelude::*;

verus! {

/// A 256-bit account or asset identity, as four big-endian 64-bit limbs.
#[derive(Clone, Copy, Debug, PartialEq, Eq, Structural)]
pub struct AccountId {
    pub w0: u64,
    pub w1: u64,
    pub w2: u64,
    pub w3: u64,
}

/// The designated null/burn identity. A trade whose referrer equals this
/// identity routes its whole fee to the protocol fee recipient.
pub open spec fn spec_burn_identity() -> AccountId {
    AccountId {
        w0: 0x003390728d341160,
        w1: 0x79bdc911bfff00db,
        w2: 0xd44d2ecdccf79ca6,
        w3: 0xe10038e100000000,
    }
}

/// The designated null/burn identity (see [`spec_burn_identity`]).
pub fn burn_identity() -> (r: AccountId)
    ensures
        r == spec_burn_identity(),
{
    AccountId {
        w0: 0x003390728d341160,
        w1: 0x79bdc911bfff00db,
        w2: 0xd44d2ecdccf79ca6,
        w3: 0xe10038e100000000,
    }
}

/// The fixed protocol authority: the only identity allowed to drain a
/// completed pool. Distinct from the configuration owner and from any
/// pool's owner.
pub open spec fn spec_withdraw_authority() -> AccountId {
    AccountId {
        w0: 0x8fffe314ff9bbd9e,
        w1: 0xedb20f51aecb8f1d,
        w2: 0x808ddf65baf331e3,
        w3: 0x6c1ceec5992bfd94,
    }
}

/// The fixed protocol withdraw authority (see [`spec_withdraw_authority`]).
pub fn withdraw_authority() -> (r: AccountId)
    ensures
        r == spec_withdraw_authority(),
{
    AccountId {
        w0: 0x8fffe314ff9bbd9e,
        w1: 0xedb20f51aecb8f1d,
        w2: 0x808ddf65baf331e3,
        w3: 0x6c1ceec5992bfd94,
    }
}

/// The identity of the native quote asset. Every pool must use this asset
/// on its quote side.
pub open spec fn spec_native_asset() -> AccountId {
    AccountId {
        w0: 0x069b8857feab8184,
        w1: 0xfb687f634618c035,
        w2: 0xdac439dc1aeb3b55,
        w3: 0x98a0f00000000001,
    }
}

/// The identity of the native quote asset (see [`spec_native_asset`]).
pub fn native_asset() -> (r: AccountId)
    ensures
        r == spec_native_asset(),
{
    AccountId {
        w0: 0x069b8857feab8184,
        w1: 0xfb687f634618c035,
        w2: 0xdac439dc1aeb3b55,
        w3: 0x98a0f00000000001,
    }
}

} // verus!
