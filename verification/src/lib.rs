//! A token-transfer hook: on every transfer the token program reports the
//! amount here; transfers of at least one thousand whole tokens (scaled by the
//! mint's decimal precision) overwrite a single persisted record with the
//! initiating address and amount, and raise exactly one notification event.

pub mod error;
pub mod hook;
pub mod instruction;
pub mod metas;
pub mod state;
