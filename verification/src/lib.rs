//! A single-sided bonding-curve automated market maker.
//!
//! One "base" asset (a newly issued token) is exchanged against one "quote"
//! asset out of a programmatically priced reserve pool. The pool starts with
//! a fixed split of real and virtual reserves, reprices on every trade via a
//! constant-product curve, and graduates (locks trading) once the accumulated
//! real quote reserves cross a threshold, after which the whole reserve is
//! withdrawable by a single privileged authority.
//!
//! This crate is the pool ledger and trade-pricing engine: reserve
//! bookkeeping, the (deliberately asymmetric) constant-product pricing
//! formula, fee computation and splitting, the active-to-complete lifecycle
//! transition, and the withdrawal gating rule. Token custody, signature
//! verification, native-asset wrapping and event delivery are host-ledger
//! concerns: callers perform the transfers this crate computes.

pub mod constants;
pub mod error;
pub mod events;
pub mod identity;
pub mod lifecycle;
pub mod main_state;
pub mod pool;
pub mod trade;
