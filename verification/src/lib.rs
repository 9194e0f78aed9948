//! Preboot loader core: volume and directory resolution, size-matched file
//! loading, boot-info assembly from firmware-reported memory-map and display
//! data, and executable-header validation, sequenced by a fail-fast
//! orchestrator. Firmware services are threaded through as an explicit
//! context value so every component is testable against a mock service.

pub mod boot_info;
pub mod builder;
pub mod firmware;
pub mod fs;
pub mod loader;
pub mod memmap;
pub mod orchestrator;
pub mod status;
pub mod validator;
