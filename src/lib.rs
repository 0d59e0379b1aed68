use vstd::prelude::*;

mod builder;
mod colour;
mod error;
mod gradient;

pub use builder::{
    empty_builder, is_configured, lemma_new_builder_is_unconfigured, BuilderView, GradientBuilder,
};
pub use colour::{
    add_rgb, hex_rgb, lemma_colour_ext, lemma_scale_identity_and_zero, sat_add, scale_channel,
    scale_rgb, Colour, Rgb, MAX_HEX, SHORT_HEX_BOUND,
};
pub use error::GradientError;
pub use gradient::{
    decimal, escaped, gradient_colours, is_segment, join, lemma_first_colour_is_end, mix_rgb,
    paint, renders, style_codes, style_of, Gradient, GradientView, StyleOptions,
};

verus! {

} // verus!
