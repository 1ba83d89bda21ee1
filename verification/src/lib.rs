//! Verified core of a DualSense controller configurator: profile model,
//! HID report encoding and decoding, adaptive-trigger effects and the
//! rules behind the configuration UI.
pub mod app_state;
pub mod audio;
pub mod config;
pub mod crc;
pub mod dualsense;
pub mod editor;
pub mod effects;
pub mod gui;
pub mod input_report;
pub mod launch_agent;
pub mod mapping;
pub mod model;
pub mod output_report;
pub mod profile;
pub mod screen;
pub mod status;
pub mod text;
