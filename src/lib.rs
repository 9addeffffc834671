//! Startup configuration for a directory-authentication server: layered
//! sources, command-line overrides, key-material resolution and assembly.

pub mod builder;
pub mod configuration;
pub mod diagnostics;
pub mod fields;
pub mod key_material;
pub mod laws;
pub mod layers;
pub mod mail;
pub mod overrides;
pub mod startup;
