//! Message-integrity and bulk-mutation core of a cross-chain controller.
//!
//! Inbound command envelopes are decoded, authenticated against a per-origin
//! trust table, checked for replay and clock skew, and dispatched to command
//! handlers; bulk operations over large logical collections run in fixed-size
//! chunks with verifiable progress checkpoints. Every guard and state
//! mutation here carries a proved contract; the host-facing edges (accounts,
//! clocks, cross-program calls) stay outside and hand this library plain
//! values.

pub mod constants;
pub mod errors;
pub mod keys;
pub mod strfmt;
pub mod codec;
pub mod guard;
pub mod message_types;
pub mod controller_config;
pub mod dispatch;
pub mod collection_manager;
pub mod batch_theme_update;
pub mod mass_mint;
pub mod tier_promotion;
pub mod initialize_massive_collection;
pub mod oapp_store;
pub mod lz;
pub mod lz_receive_types;
