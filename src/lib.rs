//! Bring-up of a Bluetooth Low Energy beacon: the decisions that take a host's
//! adapter into an advertising state and optionally publish a GATT service
//! through a supervised helper process.
//!
//! The library performs no I/O. Each step of the bring-up is an [`Action`]
//! that the caller carries out; the caller reports what happened as an
//! [`Outcome`], and the [`BeaconController`] decides what comes next.

pub mod adapter;
pub mod commands;
pub mod controller;
pub mod laws;
pub mod outcome;
pub mod service;

pub use adapter::{AdapterConfig, AliasError, DEVICE_ALIAS, MAX_ALIAS_LEN};
pub use commands::{
    adapter_command, daemon_start_command, daemon_status_command, server_command, CommandLine,
    DAEMON_SERVICE,
};
pub use controller::{
    Action, AdapterStep, Advisory, BeaconController, BeaconState, FatalError, GattStatus, Stage,
    ADAPTER_SETTLE_MS, SERVER_SETTLE_MS,
};
pub use outcome::{is_active, patch_result, start_result, Outcome, StartError, WriteError};
pub use service::{script_candidates, CharProperty, ConfigPatch, ServiceDescriptor};
