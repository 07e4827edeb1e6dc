//! A small ledger of monetary records: each record carries a description, an
//! amount in the smallest currency unit, an effect (additive or subtractive)
//! and a timestamp. The ledger renders itself as fixed-width text and computes
//! a signed total.

pub mod ledger;
pub mod text;
pub mod timestamp;
