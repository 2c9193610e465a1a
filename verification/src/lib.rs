//! Theme-application orchestrator: a color-scheme data model, a resolution
//! chain that picks the color source for a switch, an idempotent config-file
//! mutation protocol, and a module registry that plans a fan-out of the
//! scheme to every enabled target application.

pub mod cache;
pub mod cleanup;
pub mod colors;
pub mod config;
pub mod custom;
pub mod detectors;
pub mod error;
pub mod fallback;
pub mod gtk;
pub mod host;
pub mod hyprpanel;
pub mod inject;
pub mod jsonio;
pub mod module;
pub mod nvim;
pub mod qt;
pub mod registry;
pub mod render;
pub mod resolve;
pub mod scheme;
pub mod setup;
pub mod strutil;
pub mod swaync;
pub mod tabs;
pub mod theme_detection;
pub mod vscode;
pub mod waybar;
pub mod wofi;
pub mod xdg;
