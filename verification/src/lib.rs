//! Decisions behind the Predator Sense fan control and main window.

pub mod celsius;
pub mod curve;
pub mod fan;
pub mod helper;
pub mod language;
pub mod monitor;
pub mod navigation;
pub mod profile;
pub mod pwm;
pub mod resources;
pub mod settings;
pub mod setup;
pub mod text;
pub mod wake;
pub mod window;
