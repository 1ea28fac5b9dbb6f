//! Liquid Glass: the verified core of a "liquid glass" overlay effect
//! (transparency, highlights, refraction) drawn with WebGL2 over an HTML element.
//!
//! The library holds the decisions of the effect: how a tint colour is read,
//! which options an element's data attributes give, how shaders are compiled
//! and linked, which uniforms the program must expose, when the overlay canvas
//! is resized, and how the effect's lifecycle (running, frame requests,
//! pointer tracking, teardown) evolves.

pub mod js;
pub mod observed;
pub mod setup;
pub mod shader;
pub mod state;
pub mod tint;

pub use setup::{
    dataset_option_keys, element_not_found, needs_tint_fill, opt_bool, opt_str,
    options_from_dataset,
};
pub use shader::{build_program, compile_shader, link_program, locate_uniforms, UniformLocations};
pub use state::{FramePlan, GlassState, Teardown};
pub use tint::{channels_can_be_cut, parse_hex_rgb};
