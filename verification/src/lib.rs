//! Verified decision core of a multi-receiver audio casting backend.
//!
//! Every rule of the backend that can be stated over plain values lives here:
//! domain values, recovery policy, persisted preferences, discovery and
//! capture supervision, command coalescing, and the controller's transitions.
//! The surrounding application performs the I/O and feeds the outcomes back.

pub mod actor_model;
pub mod audio_laws;
pub mod batch;
pub mod batch_driver;
pub mod batch_model;
pub mod bridge;
pub mod calibration;
pub mod capture;
pub mod capture_laws;
pub mod command;
pub mod command_laws;
pub mod controller;
pub mod controller_commands;
pub mod controller_laws;
pub mod controller_session;
pub mod controller_updates;
pub mod discovery;
pub mod discovery_laws;
pub mod edge_laws;
pub mod event;
pub mod group_laws;
pub mod idmap;
pub mod ids;
pub mod inventory_laws;
pub mod listening_check;
pub mod listening_tone;
pub mod machine;
pub mod meter;
pub mod model;
pub mod network;
pub mod persistence;
pub mod record_laws;
pub mod recovery;
pub mod rejoin_laws;
pub mod requests;
pub mod restart_laws;
pub mod rule_laws;
pub mod session;
pub mod session_laws;
pub mod settings_laws;
pub mod shutdown;
pub mod sleep_laws;
pub mod snapshot;
pub mod text;
pub mod time;
pub mod transport_laws;
pub mod value_laws;
pub mod volume;
