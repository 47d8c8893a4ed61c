//! Client library for driving a Ledger device emulator (Speculos) in integration tests.
//!
//! The library holds the verified logic: the device model registry, the wire encoding of
//! automation rules and APDU payloads, the emulator's command line and the readiness
//! handshake on its diagnostic stream. Process spawning and HTTP transport are left to the
//! caller, which hands plain values to these functions.
pub mod apdu;
pub mod automation;
pub mod client;
pub mod device;
pub mod error;
pub mod launch;
pub mod wire;

pub use apdu::{decode_apdu_data, encode_apdu_request, DecodeError};
pub use automation::{
    encode_action, encode_automation_request, encode_condition, encode_rule, AutomationAction,
    AutomationCondition, AutomationRule, Button,
};
pub use client::{
    apdu_response_bytes, apdu_url, automation_url, check_automation_status, launch_outcome,
};
pub use device::DeviceModel;
pub use error::SpeculosError;
pub use launch::{decimal_text, is_ready_line, launch_args, on_stderr_event, LaunchState, StderrEvent};
pub use wire::WireValue;
