//! Core of a template-driven image/animation compositing engine.
//!
//! A declarative template places avatars, text and a background on a canvas.
//! This crate compiles templates (geometry expressions, colors, filters),
//! binds per-request data (source frame sets, substitution strings) and
//! produces an exact per-frame draw plan together with the encoded animation
//! metadata.  Rasterisation and codecs for still images are left to a 2D
//! graphics backend; the animated container is written through the `gif`
//! crate.

pub mod avatar;
pub mod background;
pub mod color;
pub mod encoder;
pub mod error;
pub mod filter;
pub mod fit;
pub mod petpet;
pub mod pos;
pub mod query;
pub mod strutil;
pub mod template;
pub mod text;
