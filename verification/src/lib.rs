//! Partial-update configuration documents for a remote search-index service.
//!
//! Every tunable setting carries one of three update intents: leave it as it
//! is, reset it to the service default, or set it to an explicit value. The
//! crate provides the tri-state value type expressing those intents, the
//! configuration aggregates built from it, and a verified codec between the
//! aggregates and the keyed wire documents the service exchanges.

pub mod codec;
pub mod config;
pub mod routes;
pub mod setting;
pub mod wire;

pub use codec::DecodeError;
pub use config::{
    FacetingSettings, MinWordSizeForTypos, PaginationSetting, Settings, TypoToleranceSettings,
};
pub use routes::{Operation, SettingsGroup, WriteMethod};
pub use setting::Setting;
pub use wire::{WireDoc, WireValue};
