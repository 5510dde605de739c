//! Escrow record for a single purchasable position: a price refresh and a
//! one-shot, token-funded purchase, with every transition stated and proved.

pub mod arith;
pub mod error;
pub mod identity;
pub mod record;
pub mod oracle;
pub mod token;
pub mod purchase;
pub mod dispatch;
