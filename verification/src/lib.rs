//! Verified core of the Vello rendering benchmark playground.
pub mod render_mode;
pub mod text;
pub mod sorted_set;
pub mod texture_config;
pub mod list_parse;
pub mod rng;
pub mod scene_ids;
pub mod backend_kind;
pub mod calibration;
pub mod png_encode;
pub mod svg_assets;
pub mod texture_runner;
pub mod harness_core;
pub mod bench_defs;
pub mod pathfinder_pixmap;
pub mod probe_report;
pub mod svg_convert;

pub use render_mode::RenderMode;
